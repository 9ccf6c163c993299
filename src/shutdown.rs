use vstd::prelude::*;

verus! {

/// Process-wide slot for the running child process.
///
/// The slot is filled once the server is ready and emptied by the first
/// termination request; later requests find it empty and do nothing.
pub struct ShutdownGuard<H> {
    slot: Option<H>,
}

/// What one termination request does to a slot: the stored handle (if any)
/// is taken out, and the slot is left empty.
pub open spec fn take_outcome<H>(slot: Option<H>) -> (Option<H>, Option<H>) {
    (slot, None)
}

impl<H> ShutdownGuard<H> {
    pub closed spec fn view(&self) -> Option<H> {
        self.slot
    }

    /// An empty guard: nothing has been spawned yet.
    pub fn new() -> (g: Self)
        ensures
            g@ == None::<H>,
    {
        ShutdownGuard { slot: None }
    }

    /// Stores the handle of a child that became ready.
    pub fn install(&mut self, handle: H)
        ensures
            final(self)@ == Some(handle),
    {
        self.slot = Some(handle);
    }

    /// Takes the stored handle out, leaving the slot empty. The caller sends
    /// the kill signal to what comes back; `None` means there is nothing to
    /// stop (never spawned, or already terminated).
    pub fn terminate(&mut self) -> (taken: Option<H>)
        ensures
            (taken, final(self)@) == take_outcome(old(self)@),
    {
        self.slot.take()
    }
}

/// How many of `calls` successive termination requests, starting from
/// `slot`, find a handle and so send a kill signal.
pub open spec fn signals_sent<H>(slot: Option<H>, calls: nat) -> nat
    decreases calls,
{
    if calls == 0 {
        0
    } else {
        let (taken, rest) = take_outcome(slot);
        (if taken is Some {
            1nat
        } else {
            0nat
        }) + signals_sent(rest, (calls - 1) as nat)
    }
}

proof fn lemma_empty_slot_sends_nothing<H>(calls: nat)
    ensures
        signals_sent(None::<H>, calls) == 0,
    decreases calls,
{
    if calls > 0 {
        lemma_empty_slot_sends_nothing::<H>((calls - 1) as nat);
    }
}

/// Termination is idempotent: however many times it is requested (at least
/// once), exactly one kill signal is sent if a handle was installed and none
/// otherwise, and a second request finds the slot empty and changes nothing.
pub proof fn lemma_terminate_idempotent<H>(slot: Option<H>, calls: nat)
    requires
        calls >= 1,
    ensures
        signals_sent(slot, calls) == (if slot is Some {
            1nat
        } else {
            0nat
        }),
        take_outcome(take_outcome(slot).1) == (None::<H>, None::<H>),
{
    lemma_empty_slot_sends_nothing::<H>((calls - 1) as nat);
}

} // verus!
