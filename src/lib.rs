//! Decision logic for picking an unused network port.
//!
//! The host's port table is only reachable through socket binds, which this
//! library does not perform itself. Each operation is a small state machine:
//! it names the bind or check it needs next, the caller performs it and feeds
//! the outcome back, and the machine eventually delivers its answer.
use vstd::prelude::*;

pub mod oracle;
pub mod scan;
pub mod search;

pub use oracle::{Check, CheckStep, Family, FreeCheck, Probe, Transport};
pub use scan::RangeScan;
pub use search::{PortSearch, SearchEvent, SearchState};

verus! {

/// A TCP or UDP port number.
pub type Port = u16;

/// What a port search needs next from its caller.
#[derive(Clone, Copy, Debug, PartialEq, Eq, Structural)]
pub enum PortAction {
    /// Check whether the port is free on TCP and UDP, over IPv4 and IPv6.
    CheckFree(Port),
    /// Bind TCP at port 0 on the wildcard address of the family, so that the
    /// host assigns a port, and report that port, or that the bind failed.
    AskHost(crate::Family),
    /// Check whether the port is free on UDP, over IPv4 and IPv6.
    CheckUdp(Port),
    /// The search is over, with a port or without one.
    Finish(Option<Port>),
}

} // verus!
