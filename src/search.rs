//! The unranged search: first a few random candidates from a fixed band,
//! then a few ports assigned by the host, re-checked on UDP.
use vstd::prelude::*;

use crate::{Family, Port, PortAction};

verus! {

/// How many random candidates are tried before asking the host.
pub const SAMPLE_ATTEMPTS: u32 = 10;

/// How many host-assigned ports are tried before giving up.
pub const HOST_ATTEMPTS: u32 = 10;

/// The lowest port of the band that random candidates are drawn from.
pub const SAMPLE_LOW: Port = 15000;

/// One past the highest port of the band that random candidates are drawn from.
pub const SAMPLE_HIGH: Port = 25000;

/// Relies on rand's `thread_rng` and `Rng::gen_range`: a value drawn from the
/// half-open range `[low, high)`, which must not be empty.
#[verifier::external_body]
fn random_port(low: Port, high: Port) -> (r: Port)
    requires
        low < high,
    ensures
        low <= r < high,
{
    rand::Rng::gen_range(&mut rand::thread_rng(), low..high)
}

/// The state of an unranged search. `tried` counts the finished attempts of
/// the current phase.
#[derive(Clone, Copy, Debug, PartialEq, Eq, Structural)]
pub enum SearchState {
    /// About to draw a random candidate.
    Sampling { tried: u32 },
    /// Waiting for the free check of a random candidate.
    AwaitingFree { tried: u32, port: Port },
    /// About to ask the host for a port.
    Asking { tried: u32 },
    /// Waiting for the port that the host assigned on a family's wildcard address.
    AwaitingHost { tried: u32, family: Family },
    /// Waiting for the UDP check of a host-assigned port.
    AwaitingUdp { tried: u32, port: Port },
    /// The search is over.
    Done { found: Option<Port> },
}

/// An outcome that the caller reports back to a search.
#[derive(Clone, Copy, Debug, PartialEq, Eq, Structural)]
pub enum SearchEvent {
    /// The result of a `CheckFree`.
    Free(bool),
    /// The result of an `AskHost`: the assigned port, or none when the bind failed.
    HostPort(Option<Port>),
    /// The result of a `CheckUdp`.
    UdpFree(bool),
}

/// The states that a search can be in.
pub open spec fn valid(s: SearchState) -> bool {
    match s {
        SearchState::Sampling { tried } => tried <= SAMPLE_ATTEMPTS,
        SearchState::AwaitingFree { tried, port } => tried < SAMPLE_ATTEMPTS && SAMPLE_LOW <= port
            < SAMPLE_HIGH,
        SearchState::Asking { tried } => tried <= HOST_ATTEMPTS,
        SearchState::AwaitingHost { tried, .. } => tried < HOST_ATTEMPTS,
        SearchState::AwaitingUdp { tried, .. } => tried < HOST_ATTEMPTS,
        SearchState::Done { .. } => true,
    }
}

/// The action that a search waiting in state `s` asks for.
pub open spec fn pending_action(s: SearchState) -> PortAction {
    match s {
        SearchState::AwaitingFree { port, .. } => PortAction::CheckFree(port),
        SearchState::AwaitingHost { family, .. } => PortAction::AskHost(family),
        SearchState::AwaitingUdp { port, .. } => PortAction::CheckUdp(port),
        SearchState::Done { found } => PortAction::Finish(found),
        _ => PortAction::Finish(None),
    }
}

/// The search is about to draw a random candidate.
pub open spec fn draws(s: SearchState) -> bool {
    s matches SearchState::Sampling { tried } && tried < SAMPLE_ATTEMPTS
}

/// Where `next_action` takes a state that does not draw: once the random
/// attempts are spent the host is asked, first on IPv6; once the host
/// attempts are spent the search gives up; a waiting state stays.
pub open spec fn settle(s: SearchState) -> SearchState {
    match s {
        SearchState::Sampling { .. } => SearchState::AwaitingHost { tried: 0, family: Family::V6 },
        SearchState::Asking { tried } => if tried < HOST_ATTEMPTS {
            SearchState::AwaitingHost { tried, family: Family::V6 }
        } else {
            SearchState::Done { found: None }
        },
        _ => s,
    }
}

/// Where an event takes a state. A free candidate ends the search with it;
/// a failed IPv6 request is retried on IPv4; a failed IPv4 request, or a
/// host-assigned port that is taken on UDP, spends a host attempt. An event
/// that does not answer the pending action changes nothing.
pub open spec fn after(s: SearchState, e: SearchEvent) -> SearchState {
    match (s, e) {
        (SearchState::AwaitingFree { tried, port }, SearchEvent::Free(free)) => if free {
            SearchState::Done { found: Some(port) }
        } else {
            SearchState::Sampling { tried: (tried + 1) as u32 }
        },
        (SearchState::AwaitingHost { tried, family }, SearchEvent::HostPort(assigned)) => {
            match assigned {
                Some(port) => SearchState::AwaitingUdp { tried, port },
                None => if family == Family::V6 {
                    SearchState::AwaitingHost { tried, family: Family::V4 }
                } else {
                    SearchState::Asking { tried: (tried + 1) as u32 }
                },
            }
        },
        (SearchState::AwaitingUdp { tried, port }, SearchEvent::UdpFree(free)) => if free {
            SearchState::Done { found: Some(port) }
        } else {
            SearchState::Asking { tried: (tried + 1) as u32 }
        },
        _ => s,
    }
}

/// A bound on the steps that a search has left; it falls with every change
/// of state, so a search ends after a fixed number of steps.
pub open spec fn rank(s: SearchState) -> int {
    let sampling = 2 * SAMPLE_ATTEMPTS + 4 * HOST_ATTEMPTS + 2;
    match s {
        SearchState::Sampling { tried } => sampling + 2 * (SAMPLE_ATTEMPTS - tried),
        SearchState::AwaitingFree { tried, .. } => sampling - 1 + 2 * (SAMPLE_ATTEMPTS - tried),
        SearchState::Asking { tried } => 4 * (HOST_ATTEMPTS - tried) + 1,
        SearchState::AwaitingHost { tried, family } => 4 * (HOST_ATTEMPTS - tried) - if family
            == Family::V6 {
            0int
        } else {
            1int
        },
        SearchState::AwaitingUdp { tried, .. } => 4 * (HOST_ATTEMPTS - tried) - 2,
        SearchState::Done { .. } => 0,
    }
}

/// A search ends with a port only on the step right after a check found that
/// port free: the full check of a random candidate from the band, or the UDP
/// check of a port that the host assigned over TCP.
pub proof fn lemma_found_port_was_checked(s: SearchState, e: SearchEvent)
    requires
        valid(s),
        s !is Done,
        after(s, e) matches SearchState::Done { found: Some(_) },
    ensures
        ({
            let p = after(s, e)->found->0;
            ||| s matches SearchState::AwaitingFree { port, .. } && port == p && e
                == SearchEvent::Free(true) && SAMPLE_LOW <= p < SAMPLE_HIGH
            ||| s matches SearchState::AwaitingUdp { port, .. } && port == p && e
                == SearchEvent::UdpFree(true)
        }),
{
}

/// An unranged port search.
pub struct PortSearch {
    state: SearchState,
}

impl View for PortSearch {
    type V = SearchState;

    closed spec fn view(&self) -> SearchState {
        self.state
    }
}

impl PortSearch {
    /// A search that has tried nothing yet.
    pub fn new() -> (r: PortSearch)
        ensures
            r@ == (SearchState::Sampling { tried: 0 }),
    {
        PortSearch { state: SearchState::Sampling { tried: 0 } }
    }

    /// The current state.
    pub fn state(&self) -> (r: SearchState)
        ensures
            r == self@,
    {
        self.state
    }

    /// Moves the search to the point where it waits for the caller, and
    /// returns what it waits for. A random candidate is drawn from
    /// `[SAMPLE_LOW, SAMPLE_HIGH)`.
    pub fn next_action(&mut self) -> (r: PortAction)
        requires
            valid(old(self)@),
        ensures
            valid(final(self)@),
            r == pending_action(final(self)@),
            draws(old(self)@) ==> (final(self)@ matches SearchState::AwaitingFree { tried, port }
                && tried == old(self)@->Sampling_tried && SAMPLE_LOW <= port < SAMPLE_HIGH),
            !draws(old(self)@) ==> final(self)@ == settle(old(self)@),
            rank(final(self)@) <= rank(old(self)@),
    {
        match self.state {
            SearchState::Sampling { tried } => {
                if tried < SAMPLE_ATTEMPTS {
                    let port = random_port(SAMPLE_LOW, SAMPLE_HIGH);
                    self.state = SearchState::AwaitingFree { tried, port };
                } else {
                    self.state = SearchState::AwaitingHost { tried: 0, family: Family::V6 };
                }
            },
            SearchState::Asking { tried } => {
                if tried < HOST_ATTEMPTS {
                    self.state = SearchState::AwaitingHost { tried, family: Family::V6 };
                } else {
                    self.state = SearchState::Done { found: None };
                }
            },
            _ => {},
        }
        match self.state {
            SearchState::AwaitingFree { port, .. } => PortAction::CheckFree(port),
            SearchState::AwaitingHost { family, .. } => PortAction::AskHost(family),
            SearchState::AwaitingUdp { port, .. } => PortAction::CheckUdp(port),
            SearchState::Done { found } => PortAction::Finish(found),
            _ => PortAction::Finish(None),
        }
    }

    /// Records the outcome of the action that `next_action` returned.
    pub fn on_event(&mut self, e: SearchEvent)
        requires
            valid(old(self)@),
        ensures
            final(self)@ == after(old(self)@, e),
            valid(final(self)@),
            final(self)@ != old(self)@ ==> rank(final(self)@) < rank(old(self)@),
    {
        let next = match (self.state, e) {
            (SearchState::AwaitingFree { tried, port }, SearchEvent::Free(free)) => {
                if free {
                    SearchState::Done { found: Some(port) }
                } else {
                    SearchState::Sampling { tried: tried + 1 }
                }
            },
            (SearchState::AwaitingHost { tried, family }, SearchEvent::HostPort(assigned)) => {
                match assigned {
                    Some(port) => SearchState::AwaitingUdp { tried, port },
                    None => {
                        if family == Family::V6 {
                            SearchState::AwaitingHost { tried, family: Family::V4 }
                        } else {
                            SearchState::Asking { tried: tried + 1 }
                        }
                    },
                }
            },
            (SearchState::AwaitingUdp { tried, port }, SearchEvent::UdpFree(free)) => {
                if free {
                    SearchState::Done { found: Some(port) }
                } else {
                    SearchState::Asking { tried: tried + 1 }
                }
            },
            (s, _) => s,
        };
        self.state = next;
    }
}

} // verus!
