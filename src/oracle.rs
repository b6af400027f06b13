//! The free-port oracle: a port is free when every bind probe of its plan
//! succeeds, probed in a fixed order and stopping at the first failure.
use vstd::prelude::*;

use crate::Port;

verus! {

/// The transport protocol that a bind probe uses.
#[derive(Clone, Copy, Debug, PartialEq, Eq, Structural)]
pub enum Transport {
    Tcp,
    Udp,
}

/// The address family whose wildcard address (`0.0.0.0` or `::`) a probe binds.
#[derive(Clone, Copy, Debug, PartialEq, Eq, Structural)]
pub enum Family {
    V4,
    V6,
}

/// One bind attempt: a transport on the wildcard address of a family.
#[derive(Clone, Copy, Debug, PartialEq, Eq, Structural)]
pub struct Probe {
    pub transport: Transport,
    pub family: Family,
}

/// The protocols on which a port has to be free.
#[derive(Clone, Copy, Debug, PartialEq, Eq, Structural)]
pub enum Check {
    Tcp,
    Udp,
    Both,
}

/// The two probes of a transport: IPv6 wildcard first, then IPv4 wildcard.
pub open spec fn transport_probes(t: Transport) -> Seq<Probe> {
    seq![Probe { transport: t, family: Family::V6 }, Probe { transport: t, family: Family::V4 }]
}

/// The probes that a check runs, in order: TCP before UDP.
pub open spec fn plan(c: Check) -> Seq<Probe> {
    match c {
        Check::Tcp => transport_probes(Transport::Tcp),
        Check::Udp => transport_probes(Transport::Udp),
        Check::Both => transport_probes(Transport::Tcp) + transport_probes(Transport::Udp),
    }
}

/// Whether `port` is free for check `c` in a snapshot of the host's port
/// table, given as the set of (probe, port) pairs on which a bind succeeds.
pub open spec fn free_in(bindable: Set<(Probe, Port)>, c: Check, port: Port) -> bool {
    forall|i: int| 0 <= i < plan(c).len() ==> bindable.contains((#[trigger] plan(c)[i], port))
}

/// The number of probes in a check's plan.
pub fn plan_len(c: Check) -> (r: usize)
    ensures
        r == plan(c).len(),
{
    match c {
        Check::Both => 4,
        _ => 2,
    }
}

/// The probe at position `i` of a check's plan.
pub fn plan_probe(c: Check, i: usize) -> (r: Probe)
    requires
        i < plan(c).len(),
    ensures
        r == plan(c)[i as int],
{
    let t = match c {
        Check::Tcp => Transport::Tcp,
        Check::Udp => Transport::Udp,
        Check::Both => if i < 2 {
            Transport::Tcp
        } else {
            Transport::Udp
        },
    };
    let family = if i % 2 == 0 {
        Family::V6
    } else {
        Family::V4
    };
    Probe { transport: t, family }
}

/// What a free check needs next.
#[derive(Clone, Copy, Debug, PartialEq, Eq, Structural)]
pub enum CheckStep {
    /// Bind the probe's transport on its family's wildcard address at the port,
    /// release it at once, and report whether the bind succeeded.
    Bind(Probe, Port),
    /// The check is over: whether the port is free.
    Verdict(bool),
}

/// A free check in progress: the first `passed` probes of the plan succeeded,
/// and `failed` records that the probe after them did not.
#[derive(Clone, Copy, Debug, PartialEq, Eq, Structural)]
pub struct FreeCheck {
    pub check: Check,
    pub port: Port,
    pub passed: usize,
    pub failed: bool,
}

impl FreeCheck {
    /// The step that a check in this state asks for.
    pub open spec fn step_spec(self) -> CheckStep {
        if self.failed {
            CheckStep::Verdict(false)
        } else if self.passed >= plan(self.check).len() {
            CheckStep::Verdict(true)
        } else {
            CheckStep::Bind(plan(self.check)[self.passed as int], self.port)
        }
    }

    /// The recorded outcomes are those of the snapshot `bindable`.
    pub open spec fn agrees_with(self, bindable: Set<(Probe, Port)>) -> bool {
        &&& forall|i: int|
            0 <= i < self.passed && i < plan(self.check).len() ==> bindable.contains(
                (#[trigger] plan(self.check)[i], self.port),
            )
        &&& self.failed ==> self.passed < plan(self.check).len() && !bindable.contains(
            (plan(self.check)[self.passed as int], self.port),
        )
    }

    /// A check of `port` on which no probe has run yet.
    pub fn new(check: Check, port: Port) -> (r: FreeCheck)
        ensures
            r == (FreeCheck { check, port, passed: 0, failed: false }),
            forall|t: Set<(Probe, Port)>| #[trigger] r.agrees_with(t),
    {
        FreeCheck { check, port, passed: 0, failed: false }
    }

    /// The bind that the check needs next, or its verdict.
    pub fn next(&self) -> (r: CheckStep)
        ensures
            r == self.step_spec(),
    {
        if self.failed {
            CheckStep::Verdict(false)
        } else if self.passed >= plan_len(self.check) {
            CheckStep::Verdict(true)
        } else {
            CheckStep::Bind(plan_probe(self.check, self.passed), self.port)
        }
    }

    /// Records the outcome of the bind that `next` asked for; a check that
    /// has its verdict stays as it is.
    pub fn on_bind(&mut self, bound: bool)
        ensures
            old(self).step_spec() is Verdict ==> *final(self) == *old(self),
            old(self).step_spec() is Bind ==> *final(self) == (if bound {
                FreeCheck { passed: (old(self).passed + 1) as usize, ..*old(self) }
            } else {
                FreeCheck { failed: true, ..*old(self) }
            }),
            forall|t: Set<(Probe, Port)>|
                old(self).agrees_with(t) && (old(self).step_spec() matches CheckStep::Bind(
                    p,
                    q,
                ) ==> bound == t.contains((p, q))) ==> #[trigger] final(self).agrees_with(t),
    {
        if !self.failed && self.passed < plan_len(self.check) {
            if bound {
                self.passed = self.passed + 1;
            } else {
                self.failed = true;
            }
        }
    }
}

/// A check fed with the outcomes of one snapshot of the port table reaches
/// the verdict that the snapshot gives: free exactly when every probe of the
/// plan binds.
pub proof fn lemma_verdict_reflects_table(c: FreeCheck, bindable: Set<(Probe, Port)>)
    requires
        c.agrees_with(bindable),
        c.step_spec() is Verdict,
    ensures
        c.step_spec() == CheckStep::Verdict(free_in(bindable, c.check, c.port)),
{
    if c.failed {
        let k = c.passed as int;
        assert(!bindable.contains((plan(c.check)[k], c.port)));
    }
}

/// A port that is free on both protocols is free on TCP and free on UDP, and
/// the other way round: checks of one port against one snapshot of the port
/// table, once they have their verdicts, agree in this way.
pub proof fn lemma_free_is_free_tcp_and_udp(
    both: FreeCheck,
    tcp: FreeCheck,
    udp: FreeCheck,
    bindable: Set<(Probe, Port)>,
)
    requires
        both.check == Check::Both,
        tcp.check == Check::Tcp,
        udp.check == Check::Udp,
        tcp.port == both.port,
        udp.port == both.port,
        both.agrees_with(bindable),
        tcp.agrees_with(bindable),
        udp.agrees_with(bindable),
        both.step_spec() is Verdict,
        tcp.step_spec() is Verdict,
        udp.step_spec() is Verdict,
    ensures
        both.step_spec() == CheckStep::Verdict(true) <==> (tcp.step_spec() == CheckStep::Verdict(
            true,
        ) && udp.step_spec() == CheckStep::Verdict(true)),
{
    lemma_verdict_reflects_table(both, bindable);
    lemma_verdict_reflects_table(tcp, bindable);
    lemma_verdict_reflects_table(udp, bindable);
    let port = both.port;
    let pb = plan(Check::Both);
    let pt = plan(Check::Tcp);
    let pu = plan(Check::Udp);
    assert(pb =~= pt + pu);
    if free_in(bindable, Check::Both, port) {
        assert forall|i: int| 0 <= i < pt.len() implies bindable.contains(
            (#[trigger] pt[i], port),
        ) by {
            assert(pb[i] == pt[i]);
        }
        assert forall|i: int| 0 <= i < pu.len() implies bindable.contains(
            (#[trigger] pu[i], port),
        ) by {
            assert(pb[i + 2] == pu[i]);
        }
    }
    if free_in(bindable, Check::Tcp, port) && free_in(bindable, Check::Udp, port) {
        assert forall|i: int| 0 <= i < pb.len() implies bindable.contains(
            (#[trigger] pb[i], port),
        ) by {
            if i < 2 {
                assert(pb[i] == pt[i]);
            } else {
                assert(pb[i] == pu[i - 2]);
            }
        }
    }
}

/// Asking twice whether a port is free, with no bind in between that changes
/// the port table, gives the same answer both times.
pub proof fn lemma_verdict_repeatable(a: FreeCheck, b: FreeCheck, bindable: Set<(Probe, Port)>)
    requires
        a.check == b.check,
        a.port == b.port,
        a.agrees_with(bindable),
        b.agrees_with(bindable),
        a.step_spec() is Verdict,
        b.step_spec() is Verdict,
    ensures
        a.step_spec() == b.step_spec(),
{
    lemma_verdict_reflects_table(a, bindable);
    lemma_verdict_reflects_table(b, bindable);
}

} // verus!
