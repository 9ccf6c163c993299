use std::collections::VecDeque;
use vstd::prelude::*;
use vstd::string::*;
use vstd::utf8::*;

verus! {

/// Number of output lines kept for diagnostics.
pub const MAX_LOG_ENTRIES: usize = 200;

/// The stream of the child process that a line came from.
#[derive(Clone, Copy, PartialEq, Eq, Structural, Debug)]
pub enum LogStream {
    Stdout,
    Stderr,
}

/// The prefix that marks a stored line with its origin.
pub open spec fn stream_tag(stream: LogStream) -> Seq<char> {
    match stream {
        LogStream::Stdout => "[STDOUT] "@,
        LogStream::Stderr => "[STDERR] "@,
    }
}

impl LogStream {
    pub fn tag(&self) -> (r: &'static str)
        ensures
            r@ == stream_tag(*self),
    {
        match self {
            LogStream::Stdout => "[STDOUT] ",
            LogStream::Stderr => "[STDERR] ",
        }
    }
}

/// The last `cap` entries of `lines`, in their original order.
pub open spec fn keep_recent(lines: Seq<Seq<char>>, cap: nat) -> Seq<Seq<char>> {
    if lines.len() <= cap {
        lines
    } else {
        lines.subrange(lines.len() - cap, lines.len() as int)
    }
}

/// The entries written one after the other, each with its own terminator.
pub open spec fn joined(lines: Seq<Seq<char>>) -> Seq<char>
    decreases lines.len(),
{
    if lines.len() == 0 {
        Seq::empty()
    } else {
        joined(lines.drop_last()) + lines.last()
    }
}

/// The contents after appending each of `items`, in order, to `start`.
pub open spec fn after_appends(start: Seq<Seq<char>>, items: Seq<Seq<char>>, cap: nat) -> Seq<
    Seq<char>,
>
    decreases items.len(),
{
    if items.len() == 0 {
        start
    } else {
        keep_recent(after_appends(start, items.drop_last(), cap).push(items.last()), cap)
    }
}

/// A bounded, insertion-ordered store of the most recent output lines.
pub struct LogBuffer {
    lines: VecDeque<String>,
    capacity: usize,
}

impl LogBuffer {
    /// The stored lines, oldest first.
    pub closed spec fn view(&self) -> Seq<Seq<char>> {
        self.lines@.map_values(|s: String| s@)
    }

    /// The most entries the buffer ever holds.
    pub closed spec fn cap(&self) -> nat {
        self.capacity as nat
    }

    pub closed spec fn wf(&self) -> bool {
        self.lines@.len() <= self.capacity
    }

    /// An empty buffer that keeps the last `MAX_LOG_ENTRIES` lines.
    pub fn new() -> (b: Self)
        ensures
            b.wf(),
            b@ == Seq::<Seq<char>>::empty(),
            b.cap() == MAX_LOG_ENTRIES,
    {
        Self::with_capacity(MAX_LOG_ENTRIES)
    }

    /// An empty buffer that keeps the last `capacity` lines.
    pub fn with_capacity(capacity: usize) -> (b: Self)
        ensures
            b.wf(),
            b@ == Seq::<Seq<char>>::empty(),
            b.cap() == capacity,
    {
        let b = LogBuffer { lines: VecDeque::new(), capacity };
        assert(b@ =~= Seq::<Seq<char>>::empty());
        b
    }

    pub fn len(&self) -> (n: usize)
        requires
            self.wf(),
        ensures
            n == self@.len(),
    {
        self.lines.len()
    }

    pub fn capacity(&self) -> (n: usize)
        ensures
            n == self.cap(),
    {
        self.capacity
    }

    /// Appends one line as it is; when the buffer is full the oldest line
    /// is dropped.
    pub fn append(&mut self, line: String)
        requires
            old(self).wf(),
        ensures
            final(self).wf(),
            final(self).cap() == old(self).cap(),
            final(self)@ == keep_recent(old(self)@.push(line@), old(self).cap()),
    {
        let ghost pushed = self@.push(line@);
        self.lines.push_back(line);
        assert(self@ =~= pushed);
        if self.lines.len() > self.capacity {
            let _ = self.lines.pop_front();
            assert(self@ =~= pushed.subrange(pushed.len() - self.capacity, pushed.len() as int));
        }
    }

    /// Stores a line of the child's output, marked with the stream it came from.
    pub fn record(&mut self, stream: LogStream, line: &str)
        requires
            old(self).wf(),
        ensures
            final(self).wf(),
            final(self).cap() == old(self).cap(),
            final(self)@ == keep_recent(old(self)@.push(stream_tag(stream) + line@), old(self).cap()),
    {
        let mut entry = String::from_str(stream.tag());
        entry.append(line);
        self.append(entry);
    }

    /// Decodes a raw line of the child's output (malformed bytes are replaced,
    /// never rejected), stores it marked with its stream, and hands the decoded
    /// text back so that it can be mirrored.
    pub fn record_output(&mut self, stream: LogStream, bytes: &[u8]) -> (line: String)
        requires
            old(self).wf(),
        ensures
            line@ == lossy_text(bytes@),
            final(self).wf(),
            final(self).cap() == old(self).cap(),
            final(self)@ == keep_recent(old(self)@.push(stream_tag(stream) + line@), old(self).cap()),
    {
        let line = decode_lossy(bytes);
        self.record(stream, line.as_str());
        line
    }

    /// All stored lines, oldest first, concatenated as they were stored.
    pub fn snapshot(&self) -> (text: String)
        requires
            self.wf(),
        ensures
            text@ == joined(self@),
    {
        let mut text = String::new();
        let n = self.lines.len();
        let mut i: usize = 0;
        while i < n
            invariant
                n == self@.len(),
                i <= n,
                text@ == joined(self@.subrange(0, i as int)),
            decreases n - i,
        {
            let ghost before = self@.subrange(0, i as int);
            text.append(self.lines[i].as_str());
            assert(self@.subrange(0, i + 1).drop_last() =~= before);
            i = i + 1;
        }
        assert(self@.subrange(0, n as int) =~= self@);
        text
    }
}

/// The text that lossy UTF-8 decoding gives for `bytes`.
pub uninterp spec fn lossy_text(bytes: Seq<u8>) -> Seq<char>;

/// Relies on String::from_utf8_lossy: the result depends on the bytes alone,
/// and valid UTF-8 is decoded unchanged.
#[verifier::external_body]
fn decode_lossy(bytes: &[u8]) -> (r: String)
    ensures
        r@ == lossy_text(bytes@),
        valid_utf8(bytes@) ==> r@ == decode_utf8(bytes@),
{
    String::from_utf8_lossy(bytes).into_owned()
}

/// Appending one line to a buffer already cut down to `cap` entries keeps
/// the same lines as appending it to the uncut sequence.
proof fn lemma_keep_recent_push(lines: Seq<Seq<char>>, x: Seq<char>, cap: nat)
    ensures
        keep_recent(keep_recent(lines, cap).push(x), cap) == keep_recent(lines.push(x), cap),
{
    if lines.len() > cap {
        let n = lines.len() as int;
        let c = cap as int;
        assert(keep_recent(lines, cap).push(x).subrange(1, c + 1) =~= lines.push(x).subrange(
            n + 1 - c,
            n + 1,
        ));
    }
}

/// However many lines are appended, and in whatever number, the buffer holds
/// exactly the most recent `cap` of everything written to it, in the order
/// they were written, and its snapshot is those lines concatenated.
pub proof fn lemma_appends_keep_most_recent(start: Seq<Seq<char>>, items: Seq<Seq<char>>, cap: nat)
    requires
        start.len() <= cap,
    ensures
        after_appends(start, items, cap) == keep_recent(start + items, cap),
        joined(after_appends(start, items, cap)) == joined(keep_recent(start + items, cap)),
    decreases items.len(),
{
    if items.len() == 0 {
        assert(start + items =~= start);
    } else {
        lemma_appends_keep_most_recent(start, items.drop_last(), cap);
        lemma_keep_recent_push(start + items.drop_last(), items.last(), cap);
        assert((start + items.drop_last()).push(items.last()) =~= start + items);
    }
}

} // verus!
