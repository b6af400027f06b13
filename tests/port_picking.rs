use portpicker::{
    Check, CheckStep, Family, FreeCheck, Port, PortAction, PortSearch, Probe, RangeScan,
    SearchEvent, SearchState, Transport,
};

fn probe(transport: Transport, family: Family) -> Probe {
    Probe { transport, family }
}

/// Runs a free check against a simulated port table; returns the verdict and
/// the binds it asked for.
fn run_check<F: Fn(Probe, Port) -> bool>(check: Check, port: Port, binds: &F) -> (bool, Vec<Probe>) {
    let mut c = FreeCheck::new(check, port);
    let mut asked = Vec::new();
    loop {
        match c.next() {
            CheckStep::Bind(p, q) => {
                assert_eq!(q, port);
                asked.push(p);
                c.on_bind(binds(p, q));
            }
            CheckStep::Verdict(v) => return (v, asked),
        }
    }
}

/// Runs a range scan against a simulated set of free ports; returns the
/// answer and the ports it checked.
fn run_scan<F: Fn(Port) -> bool>(start: Port, end: Port, free: &F) -> (Option<Port>, Vec<Port>) {
    let mut s = RangeScan::new(start, end);
    let mut checked = Vec::new();
    loop {
        match s.next_action() {
            PortAction::CheckFree(p) => {
                checked.push(p);
                s.on_free(free(p));
            }
            PortAction::Finish(r) => return (r, checked),
            other => panic!("unexpected action {:?}", other),
        }
    }
}

/// Runs an unranged search against a simulated host; returns the answer and
/// every action it asked for.
fn run_search<F, H, U>(free: F, mut host: H, udp: U) -> (Option<Port>, Vec<PortAction>)
where
    F: Fn(Port) -> bool,
    H: FnMut(Family) -> Option<Port>,
    U: Fn(Port) -> bool,
{
    let mut s = PortSearch::new();
    let mut actions = Vec::new();
    loop {
        let a = s.next_action();
        actions.push(a);
        match a {
            PortAction::CheckFree(p) => s.on_event(SearchEvent::Free(free(p))),
            PortAction::AskHost(f) => s.on_event(SearchEvent::HostPort(host(f))),
            PortAction::CheckUdp(p) => s.on_event(SearchEvent::UdpFree(udp(p))),
            PortAction::Finish(r) => return (r, actions),
        }
        assert!(actions.len() <= 100, "search did not end");
    }
}

#[test]
fn it_works() {
    let (r, _) = run_search(|_| true, |_| Some(40000), |_| true);
    assert!(r.is_some());
}

#[test]
fn port_range_test() {
    let free = |p: Port| p % 7 == 3;
    if let Some(p) = run_scan(15000, 16000, &free).0 {
        assert!(p >= 15000 && p <= 16000)
    }
    if let Some(p) = run_scan(20000, 21000, &free).0 {
        assert!(p >= 20000 && p <= 21000)
    }
}

#[test]
fn free_implies_free_on_tcp_and_udp() {
    let tables: Vec<Vec<Probe>> = vec![
        vec![],
        vec![probe(Transport::Udp, Family::V4)],
        vec![probe(Transport::Tcp, Family::V6)],
        vec![probe(Transport::Tcp, Family::V4), probe(Transport::Udp, Family::V6)],
    ];
    for taken in tables {
        let binds = |p: Probe, _q: Port| !taken.contains(&p);
        let (both, _) = run_check(Check::Both, 8080, &binds);
        let (tcp, _) = run_check(Check::Tcp, 8080, &binds);
        let (udp, _) = run_check(Check::Udp, 8080, &binds);
        assert_eq!(both, tcp && udp);
        if both {
            assert!(tcp && udp);
        }
    }
}

#[test]
fn free_check_probes_ipv6_before_ipv4_and_tcp_before_udp() {
    let (v, asked) = run_check(Check::Both, 20000, &|_p: Probe, _q: Port| true);
    assert!(v);
    assert_eq!(
        asked,
        vec![
            probe(Transport::Tcp, Family::V6),
            probe(Transport::Tcp, Family::V4),
            probe(Transport::Udp, Family::V6),
            probe(Transport::Udp, Family::V4),
        ]
    );
    let (v, asked) = run_check(Check::Udp, 20000, &|_p: Probe, _q: Port| true);
    assert!(v);
    assert_eq!(asked, vec![probe(Transport::Udp, Family::V6), probe(Transport::Udp, Family::V4)]);
}

#[test]
fn free_check_stops_at_first_failed_bind() {
    let taken = probe(Transport::Tcp, Family::V4);
    let (v, asked) = run_check(Check::Both, 20000, &|p: Probe, _q: Port| p != taken);
    assert!(!v);
    assert_eq!(asked, vec![probe(Transport::Tcp, Family::V6), taken]);
    let (v, asked) = run_check(Check::Tcp, 20000, &|p: Probe, _q: Port| p.family != Family::V6);
    assert!(!v);
    assert_eq!(asked.len(), 1);
}

#[test]
fn free_check_verdict_is_final() {
    let mut c = FreeCheck::new(Check::Udp, 9);
    c.on_bind(false);
    assert_eq!(c.next(), CheckStep::Verdict(false));
    c.on_bind(true);
    assert_eq!(c.next(), CheckStep::Verdict(false));
}

#[test]
fn free_check_repeated_gives_same_answer() {
    let binds = |p: Probe, q: Port| !(q == 15003 && p.transport == Transport::Udp);
    for port in [15002u16, 15003] {
        let (a, _) = run_check(Check::Both, port, &binds);
        let (b, _) = run_check(Check::Both, port, &binds);
        assert_eq!(a, b);
    }
    assert!(run_check(Check::Both, 15002, &binds).0);
    assert!(!run_check(Check::Both, 15003, &binds).0);
}

#[test]
fn range_answer_stays_in_range() {
    for modulus in [1u16, 2, 13, 997, 5000] {
        let free = |p: Port| p % modulus == modulus - 1;
        if let Some(p) = run_scan(15000, 16000, &free).0 {
            assert!(15000 <= p && p < 16000);
            assert!(free(p));
        }
    }
}

#[test]
fn range_scan_is_deterministic_and_lowest() {
    let free = |p: Port| p == 15500 || p == 15200 || p == 15900;
    let (a, checked) = run_scan(15000, 16000, &free);
    let (b, _) = run_scan(15000, 16000, &free);
    assert_eq!(a, Some(15200));
    assert_eq!(a, b);
    assert_eq!(checked.len(), 201);
    assert_eq!(checked[0], 15000);
}

#[test]
fn empty_range_gives_nothing() {
    let (r, checked) = run_scan(5000, 5000, &|_p: Port| true);
    assert_eq!(r, None);
    assert!(checked.is_empty());
    let (r, checked) = run_scan(6000, 5000, &|_p: Port| true);
    assert_eq!(r, None);
    assert!(checked.is_empty());
}

#[test]
fn occupied_prefix_is_skipped() {
    let free = |p: Port| !(15000..=15010).contains(&p);
    assert_eq!(run_scan(15000, 15020, &free).0, Some(15011));
    let none_free = |_p: Port| false;
    let (r, checked) = run_scan(15000, 15020, &none_free);
    assert_eq!(r, None);
    assert_eq!(checked, (15000..15020).collect::<Vec<Port>>());
}

#[test]
fn range_at_top_of_port_space() {
    assert_eq!(run_scan(65530, 65535, &|p: Port| p == 65534).0, Some(65534));
    assert_eq!(run_scan(65530, 65535, &|_p: Port| false).0, None);
}

#[test]
fn range_scan_answer_is_final() {
    let mut s = RangeScan::new(100, 200);
    s.on_free(true);
    assert_eq!(s.next_action(), PortAction::Finish(Some(100)));
    s.on_free(false);
    assert_eq!(s.next_action(), PortAction::Finish(Some(100)));
}

#[test]
fn search_returns_first_free_random_candidate() {
    let (r, actions) = run_search(|_| true, |_| None, |_| false);
    assert_eq!(actions.len(), 2);
    match actions[0] {
        PortAction::CheckFree(p) => {
            assert!(15000 <= p && p < 25000);
            assert_eq!(r, Some(p));
        }
        other => panic!("unexpected action {:?}", other),
    }
}

#[test]
fn search_draws_candidates_from_band() {
    let (_, actions) = run_search(|_| false, |_| Some(50000), |_| true);
    let drawn: Vec<Port> = actions
        .iter()
        .filter_map(|a| match a {
            PortAction::CheckFree(p) => Some(*p),
            _ => None,
        })
        .collect();
    assert_eq!(drawn.len(), 10);
    assert!(drawn.iter().all(|p| 15000 <= *p && *p < 25000));
    assert!(drawn.iter().any(|p| *p != drawn[0]));
}

#[test]
fn search_falls_back_to_host_assigned_port() {
    let (r, actions) = run_search(|_| false, |_| Some(43210), |p| p == 43210);
    assert_eq!(r, Some(43210));
    assert_eq!(actions.len(), 13);
    assert_eq!(actions[10], PortAction::AskHost(Family::V6));
    assert_eq!(actions[11], PortAction::CheckUdp(43210));
    assert_eq!(actions[12], PortAction::Finish(Some(43210)));
}

#[test]
fn search_asks_ipv4_when_ipv6_bind_fails() {
    let host = |f: Family| if f == Family::V4 { Some(41000) } else { None };
    let (r, actions) = run_search(|_| false, host, |_| true);
    assert_eq!(r, Some(41000));
    assert_eq!(actions[10], PortAction::AskHost(Family::V6));
    assert_eq!(actions[11], PortAction::AskHost(Family::V4));
    assert_eq!(actions[12], PortAction::CheckUdp(41000));
}

#[test]
fn search_retries_when_udp_is_taken() {
    let mut next: Port = 30000;
    let host = move |_f: Family| {
        next += 1;
        Some(next)
    };
    let (r, _) = run_search(|_| false, host, |p| p == 30004);
    assert_eq!(r, Some(30004));
}

#[test]
fn search_gives_up_when_everything_is_taken() {
    let (r, actions) = run_search(|_| false, |_| None, |_| false);
    assert_eq!(r, None);
    // ten random candidates, then ten rounds of IPv6 and IPv4 requests
    assert_eq!(actions.len(), 10 + 20 + 1);
    let (r, actions) = run_search(|_| false, |_| Some(33333), |_| false);
    assert_eq!(r, None);
    assert_eq!(actions.len(), 10 + 20 + 1);
}

#[test]
fn search_ignores_events_that_answer_nothing() {
    let mut s = PortSearch::new();
    s.on_event(SearchEvent::Free(true));
    assert_eq!(s.state(), SearchState::Sampling { tried: 0 });
    let a = s.next_action();
    assert!(matches!(a, PortAction::CheckFree(_)));
    s.on_event(SearchEvent::UdpFree(true));
    assert!(matches!(s.state(), SearchState::AwaitingFree { tried: 0, .. }));
    assert_eq!(s.next_action(), a);
    s.on_event(SearchEvent::Free(false));
    assert_eq!(s.state(), SearchState::Sampling { tried: 1 });
}
