use crate::text::{parse_port, parsed_port};
use vstd::prelude::*;

verus! {

/// How the server's port is obtained.
#[derive(Clone, Copy, PartialEq, Eq, Structural, Debug)]
pub enum PortChoice {
    /// A port given by an override.
    Fixed(u16),
    /// No usable override: ask the OS for a free loopback port.
    Ephemeral,
}

pub open spec fn choice_of(parsed: Option<u16>) -> PortChoice {
    match parsed {
        Some(p) => PortChoice::Fixed(p),
        None => PortChoice::Ephemeral,
    }
}

/// The port choice for the given overrides. The build-time override, when
/// present, is the one read, even if it does not denote a port; otherwise the
/// runtime one is.
pub open spec fn port_choice(build_time: Option<Seq<char>>, runtime: Option<Seq<char>>) -> PortChoice {
    match build_time {
        Some(b) => choice_of(parsed_port(b)),
        None => match runtime {
            Some(r) => choice_of(parsed_port(r)),
            None => PortChoice::Ephemeral,
        },
    }
}

pub open spec fn text_of(s: Option<&str>) -> Option<Seq<char>> {
    match s {
        Some(t) => Some(t@),
        None => None,
    }
}

/// Decides where the server's port comes from: a build-time override, then a
/// runtime override, then a free port from the OS.
pub fn choose_port(build_time: Option<&str>, runtime: Option<&str>) -> (r: PortChoice)
    ensures
        r == port_choice(text_of(build_time), text_of(runtime)),
{
    let chosen = match build_time {
        Some(b) => Some(b),
        None => runtime,
    };
    match chosen {
        Some(t) => match parse_port(t) {
            Some(p) => PortChoice::Fixed(p),
            None => PortChoice::Ephemeral,
        },
        None => PortChoice::Ephemeral,
    }
}

} // verus!
