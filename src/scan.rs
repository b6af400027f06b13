//! The range search: a linear scan of a half-open range of ports, in
//! ascending order, for the first one that is free.
use vstd::prelude::*;

use crate::{Port, PortAction};

verus! {

/// A scan of `[start, end)` in progress: every port in `[start, cursor)` was
/// found taken; `hit` records that `cursor` itself was found free.
#[derive(Clone, Copy, Debug, PartialEq, Eq, Structural)]
pub struct RangeScan {
    pub start: Port,
    pub end: Port,
    pub cursor: Port,
    pub hit: bool,
}

impl RangeScan {
    /// The scan still waits for a free check of `cursor`.
    pub open spec fn scanning(self) -> bool {
        !self.hit && self.start <= self.cursor && self.cursor < self.end
    }

    /// The action that a scan in this state asks for.
    pub open spec fn action_spec(self) -> PortAction {
        if self.start <= self.cursor && self.cursor < self.end {
            if self.hit {
                PortAction::Finish(Some(self.cursor))
            } else {
                PortAction::CheckFree(self.cursor)
            }
        } else {
            PortAction::Finish(None)
        }
    }

    /// The cursor never leaves `[start, end]`, but for an empty range.
    pub open spec fn wf(self) -> bool {
        &&& self.start <= self.cursor
        &&& self.cursor <= self.end || self.cursor == self.start
        &&& self.hit ==> self.cursor < self.end
    }

    /// The outcomes recorded are those of `free`, the set of ports that are
    /// free at the moment.
    pub open spec fn agrees_with(self, free: Set<Port>) -> bool {
        &&& forall|q: Port| self.start <= q < self.cursor ==> !#[trigger] free.contains(q)
        &&& self.hit ==> free.contains(self.cursor)
    }

    /// A scan of `[start, end)` that has checked no port yet.
    pub fn new(start: Port, end: Port) -> (r: RangeScan)
        ensures
            r == (RangeScan { start, end, cursor: start, hit: false }),
            r.wf(),
            forall|s: Set<Port>| #[trigger] r.agrees_with(s),
            start >= end ==> r.action_spec() == PortAction::Finish(None),
    {
        RangeScan { start, end, cursor: start, hit: false }
    }

    /// The free check that the scan needs next, or its answer. An answer
    /// `Some(p)` always lies in `[start, end)`.
    pub fn next_action(&self) -> (r: PortAction)
        ensures
            r == self.action_spec(),
            r matches PortAction::Finish(Some(p)) ==> self.start <= p < self.end,
            r matches PortAction::CheckFree(p) ==> self.start <= p < self.end,
    {
        if self.start <= self.cursor && self.cursor < self.end {
            if self.hit {
                PortAction::Finish(Some(self.cursor))
            } else {
                PortAction::CheckFree(self.cursor)
            }
        } else {
            PortAction::Finish(None)
        }
    }

    /// Records whether the port that `next_action` named is free: a free
    /// port ends the scan, a taken one moves it to the next port. A scan
    /// that has its answer stays as it is.
    pub fn on_free(&mut self, free: bool)
        ensures
            !old(self).scanning() ==> *final(self) == *old(self),
            old(self).scanning() && free ==> *final(self) == (RangeScan {
                hit: true,
                ..*old(self)
            }),
            old(self).scanning() && !free ==> *final(self) == (RangeScan {
                cursor: (old(self).cursor + 1) as Port,
                ..*old(self)
            }),
            old(self).wf() ==> final(self).wf(),
            forall|s: Set<Port>|
                old(self).agrees_with(s) && (old(self).scanning() ==> free == s.contains(
                    old(self).cursor,
                )) ==> #[trigger] final(self).agrees_with(s),
    {
        if !self.hit && self.start <= self.cursor && self.cursor < self.end {
            if free {
                self.hit = true;
            } else {
                self.cursor = self.cursor + 1;
            }
        }
    }
}

/// A scan fed with the free checks of one moment ends with the lowest port
/// of the range that is free at that moment, or with none when no port of
/// the range is free.
pub proof fn lemma_scan_finds_lowest_free(s: RangeScan, free: Set<Port>)
    requires
        s.wf(),
        s.agrees_with(free),
        s.action_spec() is Finish,
    ensures
        s.action_spec() matches PortAction::Finish(Some(p)) ==> {
            &&& s.start <= p < s.end
            &&& free.contains(p)
            &&& forall|q: Port| s.start <= q < p ==> !#[trigger] free.contains(q)
        },
        s.action_spec() == PortAction::Finish(None) ==> forall|q: Port|
            s.start <= q < s.end ==> !#[trigger] free.contains(q),
{
}

/// Holding the set of free ports constant, two scans of the same range give
/// the same answer.
pub proof fn lemma_scan_deterministic(a: RangeScan, b: RangeScan, free: Set<Port>)
    requires
        a.start == b.start,
        a.end == b.end,
        a.wf(),
        b.wf(),
        a.agrees_with(free),
        b.agrees_with(free),
        a.action_spec() is Finish,
        b.action_spec() is Finish,
    ensures
        a.action_spec() == b.action_spec(),
{
    lemma_scan_finds_lowest_free(a, free);
    lemma_scan_finds_lowest_free(b, free);
}

} // verus!
