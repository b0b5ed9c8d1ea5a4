use fw_verify::case_run::{CaseAction, CaseEvent, CaseRun, Stage};
use fw_verify::catalog::{case_by_id, Side};
use fw_verify::config::{Mode, ReportConfirm, RunConfig};
use fw_verify::exec::Endpoint;
use fw_verify::monitor::{
    arp_spoof_seen, conn_total_sample, icmp_probe_seen, monitor_case_by_id, monitor_cases,
    monitors_provision_failed, per_ip_breach, select_monitors, target_of_id, IdTarget, MonitorAction,
    MonitorEvent, MonitorRun,
};
use fw_verify::net::IpAddr;
use fw_verify::report::summarize;
use fw_verify::target::{FwEvent, FwReport, IpCount, ReportPayload, StatsSnapshot};
use fw_verify::verify::{
    build_cmd, case_dport, conclude, detect, enforce_met, event_matches, event_sent,
    judge_traffic, provision_failed, result, server_log_note, unknown_case, vsoc_note,
    CaseResult,
};

fn cfg(confirm: ReportConfirm, mode: Mode) -> RunConfig {
    RunConfig {
        mode,
        target: Endpoint::Local,
        peer: Endpoint::Netns { name: "fwpeer".to_string() },
        target_iface: "fwt0".to_string(),
        peer_iface: "fwp0".to_string(),
        target_ip: IpAddr::V4([10, 123, 0, 1]),
        peer_ip: IpAddr::V4([10, 123, 0, 2]),
        acd: 1,
        fun_fw: 1,
        fun_traffic: 4,
        reload_timeout_secs: 30,
        event_settle_ms: 1500,
        report_confirm: confirm,
        vsoc: None,
        idps_fw: "idps-fw".to_string(),
        state_db: "/tmp/state.sqlite3".to_string(),
        app_uid: 2000,
        app_identity_key: "com.demo.browser".to_string(),
        app_pkg: "com.demo.browser".to_string(),
        app_name: "Browser".to_string(),
    }
}

fn event(kind: &str, action: &str, proto: &str, src: &str, dst: &str, dport: i64) -> FwEvent {
    FwEvent {
        event_id: format!("ev-{kind}-{dport}"),
        event_time_ms: 1,
        event_type: kind.to_string(),
        action: action.to_string(),
        src_ip: src.to_string(),
        src_port: 40000,
        dst_ip: dst.to_string(),
        dst_port: dport,
        proto: proto.to_string(),
        rule_id: None,
        detail: String::new(),
        report_state: "pending".to_string(),
    }
}

fn finish(act: CaseAction) -> (CaseResult, bool) {
    match act {
        CaseAction::Finish { result, cleanup } => (result, cleanup),
        other => panic!("expected a result, got {other:?}"),
    }
}

#[test]
fn traffic_request_of_cases() {
    let scan = case_by_id("detect-portscan-tcp-fin").unwrap();
    let cmd = build_cmd(&scan, IpAddr::V4([10, 123, 0, 1]));
    assert_eq!(cmd.proto, "tcp");
    assert!(cmd.fin_only);
    assert_eq!(cmd.timeout_ms, 250);
    assert_eq!(cmd.dports, Some(vec![9011, 9012, 9013, 9014, 9015]));
    assert_eq!(
        cmd.argv(None),
        vec!["traffic", "tcp", "--to", "10.123.0.1", "--dports", "9011,9012,9013,9014,9015", "--timeout-ms", "250", "--fin-only"]
    );
    let burst = case_by_id("detect-conn-abnormal").unwrap();
    let cmd = build_cmd(&burst, IpAddr::V4([10, 123, 0, 1]));
    assert_eq!(cmd.argv(Some(2000)), vec!["traffic", "tcp", "--to", "10.123.0.1", "--dport", "9100", "--count", "5", "--timeout-ms", "200", "--uid", "2000"]);
    let udp = case_by_id("egress-udp-block").unwrap();
    let cmd = build_cmd(&udp, IpAddr::V4([10, 123, 0, 2]));
    assert_eq!(cmd.proto, "udp");
    assert!(cmd.await_reply);
    assert_eq!(case_dport(&udp), Some(6003));
    assert_eq!(case_dport(&scan), None);
}

#[test]
fn expected_events_match_on_the_flow() {
    let c = cfg(ReportConfirm::Local, Mode::Host);
    let case = case_by_id("egress-tcp-block").unwrap();
    let expect = case.expect_event.clone().unwrap();
    let mut ev = event("NetworkBlock", "Block", "tcp", "10.123.0.1", "10.123.0.2", 6001);
    ev.detail = "connection state invalid attack".to_string();
    assert!(event_matches(&c, &case, &ev, &expect));
    let mut wrong_port = ev.clone();
    wrong_port.dst_port = 6002;
    assert!(!event_matches(&c, &case, &wrong_port, &expect));
    let mut wrong_src = ev.clone();
    wrong_src.src_ip = "10.123.0.9".to_string();
    assert!(!event_matches(&c, &case, &wrong_src, &expect));
    let mut wrong_detail = ev.clone();
    wrong_detail.detail = "other".to_string();
    assert!(!event_matches(&c, &case, &wrong_detail, &expect));
    // PolicyDeny matches on kind/action/proto alone.
    let app = case_by_id("app-policy-deny").unwrap();
    let deny = event("PolicyDeny", "Block", "tcp", "0.0.0.0", "", 0);
    assert!(event_matches(&c, &app, &deny, app.expect_event.as_ref().unwrap()));
}

#[test]
fn detection_finds_the_first_fitting_event() {
    let c = cfg(ReportConfirm::Local, Mode::Host);
    let case = case_by_id("egress-tcp-block").unwrap();
    let mut hit = event("NetworkBlock", "Block", "tcp", "10.123.0.1", "10.123.0.2", 6001);
    hit.detail = "connection state invalid attack".to_string();
    hit.rule_id = Some(3);
    let other = event("PortScan", "Block", "tcp", "10.123.0.1", "10.123.0.2", 6001);
    let d = detect(&c, &case, &vec![other.clone(), hit.clone()]);
    // The fitting event carries another rule id: the expectation is not met.
    assert!(!d.event_ok);
    assert_eq!(d.matched, Some(1));
    assert_eq!(d.observed, "NetworkBlock/Block/tcp");
    assert_eq!(d.notes, vec!["rule_id expected 2 got 3".to_string()]);
    let mut right = hit.clone();
    right.rule_id = Some(2);
    let d = detect(&c, &case, &vec![other, right]);
    assert!(d.event_ok);
    assert!(d.notes.is_empty());
    let none = detect(&c, &case, &vec![]);
    assert!(!none.event_ok);
    assert_eq!(none.observed, "none");
    // A case expecting no event fails on one from its source to its port.
    let quiet = case_by_id("ingress-tuple-block").unwrap();
    let stray = event("NetworkBlock", "Block", "tcp", "10.123.0.2", "10.123.0.1", 5003);
    let d = detect(&c, &quiet, &vec![stray]);
    assert!(!d.event_ok);
    assert_eq!(d.observed, "unexpected NetworkBlock/Block");
    let elsewhere = event("NetworkBlock", "Block", "tcp", "10.123.0.2", "10.123.0.1", 5004);
    assert!(detect(&c, &quiet, &vec![elsewhere]).event_ok);
}

#[test]
fn conclusion_needs_all_three() {
    let case = case_by_id("egress-tcp-block").unwrap();
    let pass = conclude(&case, "blocked", true, "NetworkBlock/Block/tcp", Some(true), vec![]);
    assert_eq!(pass.result, "PASS");
    assert_eq!(pass.detail, "");
    assert_eq!(pass.enforce_expected, "blocked");
    assert_eq!(pass.event_expected, "NetworkBlock/Block/tcp");
    assert_eq!(pass.rule_id, Some(2));
    let unconfirmed = conclude(&case, "blocked", true, "x", Some(false), vec!["report not confirmed sent to idps-server".to_string()]);
    assert_eq!(unconfirmed.result, "FAIL");
    assert_eq!(unconfirmed.detail, "report not confirmed sent to idps-server");
    let both = conclude(&case, "allowed", false, "none", None, vec![]);
    assert_eq!(both.result, "FAIL");
    assert_eq!(both.detail, "enforce expected blocked got allowed; event expectation not met");
    assert!(enforce_met(case.expect_enforce, "blocked"));
    assert!(!enforce_met(case.expect_enforce, "refused"));
}

#[test]
fn base_results_and_special_results() {
    let case = case_by_id("ingress-tuple-pass").unwrap();
    let r = result(&case, "SKIP", "why".to_string());
    assert_eq!(r.group, "ingress");
    assert_eq!(r.bundle, "ingress_tuple");
    assert_eq!(r.event_expected, "none");
    assert_eq!(r.result, "SKIP");
    let p = provision_failed(&case, "boom");
    assert_eq!(p.detail, "provision failed: boom");
    let u = unknown_case("nope");
    assert_eq!(u.result, "FAIL");
    assert_eq!(u.detail, "unknown case id");
    assert_eq!(u.group, "");
}

#[test]
fn notes_of_report_confirmation() {
    assert_eq!(server_log_note(&Some("... received report ...".to_string())), "server-log:found");
    assert_eq!(server_log_note(&Some("quiet".to_string())), "server-log:absent");
    assert_eq!(server_log_note(&None), "server-log:unavailable");
    assert_eq!(vsoc_note(&Ok(true)), "vsoc:found");
    assert_eq!(vsoc_note(&Ok(false)), "vsoc:absent");
    assert_eq!(vsoc_note(&Err("down".to_string())), "vsoc:error(down)");
    let mut sent = event("X", "Block", "tcp", "", "", 0);
    sent.report_state = "sent".to_string();
    assert!(event_sent(&vec![sent.clone()], &sent.event_id));
    assert!(!event_sent(&vec![sent], "other"));
}

#[test]
fn traffic_statistics_judgement() {
    let case = case_by_id("traffic-per-app").unwrap();
    let before = StatsSnapshot { ingress_bytes: Some(0), egress_bytes: Some(100), global_traffic_windows: None, app_traffic_windows: Some(1) };
    let after = StatsSnapshot { ingress_bytes: Some(0), egress_bytes: Some(350), global_traffic_windows: None, app_traffic_windows: Some(2) };
    let r = judge_traffic(&case, &before, &after);
    assert_eq!(r.result, "PASS");
    assert_eq!(r.detail, "egress_bytes +250, app_windows +1");
    assert_eq!(r.enforce_observed, "allowed");
    let global = case_by_id("traffic-global").unwrap();
    let r = judge_traffic(&global, &before, &after);
    assert_eq!(r.result, "FAIL");
    assert_eq!(r.detail, "ingress_bytes +0, global_windows +0");
    let shrunk = StatsSnapshot { ingress_bytes: Some(-5), ..after.clone() };
    assert_eq!(judge_traffic(&global, &before, &shrunk).detail, "ingress_bytes +-5, global_windows +0");
}

#[test]
fn flow_case_runs_to_pass() {
    let c = cfg(ReportConfirm::Vsoc, Mode::Android);
    let mut run = CaseRun::new(case_by_id("egress-tcp-block").unwrap());
    assert!(matches!(run.step(&c, CaseEvent::Begin), CaseAction::StartListener { side: Side::Peer, proto: "tcp", port: 6001, secs: 12 }));
    assert!(matches!(run.step(&c, CaseEvent::Done), CaseAction::Pause { ms: 500 }));
    assert!(matches!(run.step(&c, CaseEvent::Done), CaseAction::ReadClock));
    match run.step(&c, CaseEvent::Clock(1000)) {
        CaseAction::SendTraffic { side, cmd, uid } => {
            assert_eq!(side, Side::Target);
            assert_eq!(cmd.dport, Some(6001));
            assert_eq!(uid, None);
        }
        other => panic!("unexpected {other:?}"),
    }
    assert!(matches!(run.step(&c, CaseEvent::Verdict("blocked".to_string())), CaseAction::CollectEvents { wait_ms: 1500, since: 1000 }));
    let mut ev = event("NetworkBlock", "Block", "tcp", "10.123.0.1", "10.123.0.2", 6001);
    ev.detail = "connection state invalid attack".to_string();
    ev.rule_id = Some(2);
    match run.step(&c, CaseEvent::Events(vec![ev.clone()])) {
        CaseAction::ConfirmSent { since, event_id } => {
            assert_eq!(since, 1000);
            assert_eq!(event_id, ev.event_id);
        }
        other => panic!("unexpected {other:?}"),
    }
    assert!(matches!(run.step(&c, CaseEvent::Sent(true)), CaseAction::ReadServerLog));
    match run.step(&c, CaseEvent::Log(Some("received report".to_string()))) {
        CaseAction::QueryVsoc { needle } => assert_eq!(needle, "10.123.0.1"),
        other => panic!("unexpected {other:?}"),
    }
    let (r, cleanup) = finish(run.step(&c, CaseEvent::Vsoc(Ok(true))));
    assert!(cleanup);
    assert_eq!(run.stage, Stage::Done);
    assert_eq!(r.result, "PASS");
    assert_eq!(r.report_confirmed, Some(true));
    assert_eq!(r.detail, "server-log:found; vsoc:found");
    assert!(!run.takes(&CaseEvent::Done));
}

#[test]
fn flow_case_failures() {
    let c = cfg(ReportConfirm::Local, Mode::Host);
    let mut run = CaseRun::new(case_by_id("ingress-tuple-block").unwrap());
    assert!(matches!(run.step(&c, CaseEvent::Begin), CaseAction::ReadClock));
    let (r, cleanup) = finish(run.step(&c, CaseEvent::Failed("no clock".to_string())));
    assert!(cleanup);
    assert_eq!(r.result, "FAIL");
    assert_eq!(r.detail, "watermark failed: no clock");

    let mut run = CaseRun::new(case_by_id("ingress-tuple-pass").unwrap());
    assert!(run.takes(&CaseEvent::Begin));
    assert!(!run.takes(&CaseEvent::Done));
    run.step(&c, CaseEvent::Begin);
    let (r, cleanup) = finish(run.step(&c, CaseEvent::Failed("bind".to_string())));
    assert!(!cleanup);
    assert_eq!(r.result, "SKIP");
    assert_eq!(r.detail, "listener failed: bind");

    // Blocked as expected, no event expected and none seen: PASS with no
    // report confirmation asked.
    let mut run = CaseRun::new(case_by_id("ingress-tuple-block").unwrap());
    run.step(&c, CaseEvent::Begin);
    run.step(&c, CaseEvent::Clock(5));
    run.step(&c, CaseEvent::Verdict("refused".to_string()));
    let (r, _) = finish(run.step(&c, CaseEvent::Events(vec![])));
    assert_eq!(r.result, "FAIL");
    assert_eq!(r.enforce_observed, "refused");
    assert_eq!(r.detail, "enforce expected blocked got refused");
}

#[test]
fn host_server_confirmation_notes() {
    let c = cfg(ReportConfirm::Server, Mode::Host);
    let mut run = CaseRun::new(case_by_id("app-policy-deny").unwrap());
    run.step(&c, CaseEvent::Begin);
    run.step(&c, CaseEvent::Done);
    run.step(&c, CaseEvent::Done);
    match run.step(&c, CaseEvent::Clock(9)) {
        CaseAction::SendTraffic { uid, .. } => assert_eq!(uid, Some(2000)),
        other => panic!("unexpected {other:?}"),
    }
    run.step(&c, CaseEvent::Verdict("blocked".to_string()));
    let deny = event("PolicyDeny", "Block", "tcp", "", "", 0);
    assert!(matches!(run.step(&c, CaseEvent::Events(vec![deny])), CaseAction::ConfirmSent { .. }));
    let (r, _) = finish(run.step(&c, CaseEvent::Sent(false)));
    assert_eq!(r.result, "FAIL");
    assert_eq!(r.detail, "report not confirmed sent to idps-server; server-log:n/a-host");
}

#[test]
fn statistics_case_runs() {
    let c = cfg(ReportConfirm::Local, Mode::Host);
    let mut run = CaseRun::new(case_by_id("traffic-global").unwrap());
    assert!(matches!(run.step(&c, CaseEvent::Begin), CaseAction::ReadStats));
    let before = StatsSnapshot { ingress_bytes: Some(10), egress_bytes: None, global_traffic_windows: Some(3), app_traffic_windows: None };
    assert!(matches!(run.step(&c, CaseEvent::Stats(before)), CaseAction::SendTraffic { side: Side::Peer, .. }));
    assert!(matches!(run.step(&c, CaseEvent::Verdict("sent".to_string())), CaseAction::Pause { ms: 7000 }));
    assert!(matches!(run.step(&c, CaseEvent::Done), CaseAction::ReadStats));
    let after = StatsSnapshot { ingress_bytes: Some(30), egress_bytes: None, global_traffic_windows: Some(4), app_traffic_windows: None };
    let (r, cleanup) = finish(run.step(&c, CaseEvent::Stats(after)));
    assert!(!cleanup);
    assert_eq!(r.result, "PASS");
    assert_eq!(r.detail, "ingress_bytes +20, global_windows +1");
}

fn report(kind: &str, payload: ReportPayload) -> FwReport {
    FwReport { report_type: kind.to_string(), payload, created_at_ms: 1 }
}

fn empty_payload() -> ReportPayload {
    ReportPayload { ips: None, total: None, sip: None }
}

#[test]
fn monitor_catalog_and_lookup() {
    let cases = monitor_cases();
    assert_eq!(cases.len(), 4);
    assert_eq!(cases[1].id, "monitor-conn-total");
    assert_eq!(monitor_case_by_id("monitor-arp-spoof").unwrap().id, "monitor-arp-spoof");
    assert!(monitor_case_by_id("egress-tcp-block").is_none());
}

#[test]
fn monitor_reports_are_judged() {
    let breach = report(
        "tcp_conn_per_ip",
        ReportPayload {
            ips: Some(vec![
                IpCount { ip: Some("10.123.0.9".to_string()), count: Some(80) },
                IpCount { ip: Some("10.123.0.2".to_string()), count: Some(50) },
            ]),
            total: None,
            sip: None,
        },
    );
    assert!(per_ip_breach(&vec![breach.clone()], "10.123.0.2"));
    let low = report(
        "tcp_conn_per_ip",
        ReportPayload { ips: Some(vec![IpCount { ip: Some("10.123.0.2".to_string()), count: Some(49) }]), total: None, sip: None },
    );
    assert!(!per_ip_breach(&vec![low], "10.123.0.2"));
    let total = report("tcp_conn_total", ReportPayload { ips: None, total: Some(7), sip: None });
    assert_eq!(conn_total_sample(&vec![breach.clone(), total]), Some(7));
    assert_eq!(conn_total_sample(&vec![report("tcp_conn_total", empty_payload())]), Some(0));
    assert_eq!(conn_total_sample(&vec![breach]), None);
    let spoof = report("arp_spoof", ReportPayload { ips: None, total: None, sip: Some("10.123.0.250".to_string()) });
    assert!(arp_spoof_seen(&vec![spoof]));
    assert!(!arp_spoof_seen(&vec![report("arp_spoof", empty_payload())]));
    let probe = event("IcmpTimestampProbe", "Alert", "icmp", "10.123.0.2", "10.123.0.1", 0);
    assert!(icmp_probe_seen(&vec![probe.clone()], "10.123.0.2"));
    assert!(!icmp_probe_seen(&vec![probe], "10.123.0.3"));
}

#[test]
fn conn_perip_monitor_runs() {
    let c = cfg(ReportConfirm::Local, Mode::Host);
    let mut run = MonitorRun::new(monitor_case_by_id("monitor-conn-perip").unwrap());
    assert!(matches!(run.step(&c, MonitorEvent::Begin), MonitorAction::ReadClock));
    match run.step(&c, MonitorEvent::Clock(77)) {
        MonitorAction::SpawnWorker { side, args } => {
            assert_eq!(side, Side::Target);
            assert_eq!(args, vec!["listen", "tcp", "--port", "7400", "--duration-secs", "28", "--hold"]);
        }
        other => panic!("unexpected {other:?}"),
    }
    assert!(matches!(run.step(&c, MonitorEvent::Done), MonitorAction::Pause { ms: 500 }));
    match run.step(&c, MonitorEvent::Done) {
        MonitorAction::SpawnWorker { side, args } => {
            assert_eq!(side, Side::Peer);
            assert_eq!(args, vec!["conn-flood", "--to", "10.123.0.1", "--dport", "7400", "--count", "60", "--hold-secs", "22"]);
        }
        other => panic!("unexpected {other:?}"),
    }
    assert!(matches!(run.step(&c, MonitorEvent::Done), MonitorAction::Pause { ms: 13000 }));
    assert!(matches!(run.step(&c, MonitorEvent::Done), MonitorAction::ReadReports { since: 77 }));
    match run.step(&c, MonitorEvent::Reports(vec![])) {
        MonitorAction::Finish { result, stop_workers } => {
            assert!(stop_workers);
            assert_eq!(result.result, "FAIL");
            assert_eq!(result.detail, "no tcp_conn_per_ip breach for the peer IP");
            assert_eq!(result.group, "monitor");
        }
        other => panic!("unexpected {other:?}"),
    }
}

#[test]
fn icmp_and_arp_monitors_run() {
    let c = cfg(ReportConfirm::Local, Mode::Host);
    let mut run = MonitorRun::new(monitor_case_by_id("monitor-icmp-timestamp").unwrap());
    run.step(&c, MonitorEvent::Begin);
    match run.step(&c, MonitorEvent::Clock(3)) {
        MonitorAction::SendTraffic { side, cmd, uid } => {
            assert_eq!(side, Side::Peer);
            assert!(cmd.icmp_timestamp);
            assert_eq!(uid, None);
            assert_eq!(cmd.argv(None), vec!["traffic", "icmp", "--to", "10.123.0.1", "--timeout-ms", "500", "--icmp-type", "timestamp"]);
        }
        other => panic!("unexpected {other:?}"),
    }
    assert!(matches!(run.step(&c, MonitorEvent::Verdict("sent".to_string())), MonitorAction::CollectEvents { wait_ms: 1500, since: 3 }));
    let probe = event("IcmpTimestampProbe", "Alert", "icmp", "10.123.0.2", "10.123.0.1", 0);
    match run.step(&c, MonitorEvent::Events(vec![probe])) {
        MonitorAction::Finish { result, .. } => {
            assert_eq!(result.result, "PASS");
            assert_eq!(result.event_observed, "IcmpTimestampProbe");
        }
        other => panic!("unexpected {other:?}"),
    }

    let mut run = MonitorRun::new(monitor_case_by_id("monitor-arp-spoof").unwrap());
    run.step(&c, MonitorEvent::Begin);
    match run.step(&c, MonitorEvent::Clock(3)) {
        MonitorAction::RunWorker { side, args } => {
            assert_eq!(side, Side::Peer);
            assert_eq!(args, vec!["arp-spoof", "--iface", "fwp0", "--claim-ip", "10.123.0.250", "--count", "6"]);
        }
        other => panic!("unexpected {other:?}"),
    }
    match run.step(&c, MonitorEvent::Failed("no raw socket".to_string())) {
        MonitorAction::Finish { result, stop_workers } => {
            assert!(!stop_workers);
            assert_eq!(result.detail, "arp-spoof failed: no raw socket");
            assert_eq!(result.enforce_observed, "none");
        }
        other => panic!("unexpected {other:?}"),
    }
}

#[test]
fn summary_counts_statuses() {
    let case = case_by_id("default-allow").unwrap();
    let results = vec![
        result(&case, "PASS", String::new()),
        result(&case, "FAIL", String::new()),
        result(&case, "PASS", String::new()),
        result(&case, "SKIP", String::new()),
    ];
    let s = summarize(&results);
    assert_eq!((s.total, s.passed, s.failed, s.skipped), (4, 2, 1, 1));
}

#[test]
fn case_ids_resolve_to_what_they_name() {
    assert!(matches!(target_of_id("monitor-conn-total"), IdTarget::Monitors));
    match target_of_id("ingress-tuple-pass") {
        IdTarget::Flow(case) => assert_eq!(case.id, "ingress-tuple-pass"),
        _ => panic!("a catalog case id names its case"),
    }
    match target_of_id("no-such-case") {
        IdTarget::Unknown(r) => {
            assert_eq!(r.id, "no-such-case");
            assert_eq!(r.result, "FAIL");
            assert_eq!(r.detail, "unknown case id");
        }
        _ => panic!("an unknown id is reported"),
    }
}

#[test]
fn monitor_selection_and_provision_failure() {
    assert_eq!(select_monitors(None).len(), monitor_cases().len());
    let one = select_monitors(Some("monitor-conn-total"));
    assert_eq!(one.len(), 1);
    assert_eq!(one[0].id, "monitor-conn-total");
    assert!(select_monitors(Some("ingress-tuple-pass")).is_empty());
    let failed = monitors_provision_failed(&select_monitors(None), "boom");
    assert_eq!(failed.len(), monitor_cases().len());
    assert!(failed.iter().all(|r| r.result == "FAIL" && r.detail == "provision failed: boom"));
    assert_eq!(failed[0].id, monitor_cases()[0].id);
}
