use fw_verify::catalog::{all_cases, bundle_order, case_by_id, firewall_text, traffic_cycle, Bundle, Enforce, Group};
use fw_verify::config::{Mode, ReportConfirm, RunConfig, VsocApi};
use fw_verify::exec::Endpoint;
use fw_verify::monitor::monitor_cases;
use fw_verify::net::IpAddr;
use fw_verify::verify::{batches, list_row};

fn cfg() -> RunConfig {
    RunConfig {
        mode: Mode::Host,
        target: Endpoint::Local,
        peer: Endpoint::Netns { name: "fwpeer".to_string() },
        target_iface: "fwt0".to_string(),
        peer_iface: "fwp0".to_string(),
        target_ip: IpAddr::V4([10, 123, 0, 1]),
        peer_ip: IpAddr::V4([10, 123, 0, 2]),
        acd: 1,
        fun_fw: 1,
        fun_traffic: 4,
        reload_timeout_secs: 30,
        event_settle_ms: 1500,
        report_confirm: ReportConfirm::Local,
        vsoc: Some(VsocApi {
            base_url: "https://127.0.0.1:8443".to_string(),
            cert: None,
            key: None,
            cacert: None,
        }),
        idps_fw: "idps-fw".to_string(),
        state_db: "/data/idd/idps-fw/state.sqlite3".to_string(),
        app_uid: 2000,
        app_identity_key: "com.demo.browser".to_string(),
        app_pkg: "com.demo.browser".to_string(),
        app_name: "Browser".to_string(),
    }
}

#[test]
fn case_ids_are_unique() {
    let cases = all_cases();
    let mut ids: Vec<&str> = cases.iter().map(|case| case.id).collect();
    let total = ids.len();
    ids.sort_unstable();
    ids.dedup();
    assert_eq!(ids.len(), total, "duplicate case ids in catalog");
}

#[test]
fn every_case_bundle_is_ordered() {
    for case in all_cases() {
        assert!(
            bundle_order().contains(&case.bundle),
            "{} uses an unordered bundle",
            case.id
        );
    }
}

#[test]
fn group_strings_round_trip() {
    for group in [
        Group::Ingress,
        Group::Default,
        Group::Egress,
        Group::App,
        Group::Match,
        Group::Detection,
        Group::Traffic,
        Group::Monitor,
    ] {
        assert_eq!(Group::parse(group.as_str()).unwrap(), group);
    }
}

#[test]
fn traffic_bundle_sets_cycle() {
    assert_eq!(traffic_cycle(Bundle::Traffic), Some(5));
    assert_eq!(traffic_cycle(Bundle::IngressTuple), None);
}

#[test]
fn unknown_group_is_refused() {
    assert_eq!(Group::parse("bogus").unwrap_err().value, "bogus");
    assert!(Group::parse("Ingress").is_err());
}

#[test]
fn catalog_has_thirty_cases_and_ten_bundles() {
    assert_eq!(all_cases().len(), 30);
    assert_eq!(bundle_order().len(), 10);
    assert_eq!(bundle_order()[0], Bundle::IngressTuple);
    assert_eq!(bundle_order()[9], Bundle::Priority);
}

#[test]
fn cases_are_found_by_id() {
    let case = case_by_id("egress-udp-block").unwrap();
    assert_eq!(case.bundle, Bundle::EgressTuple);
    assert_eq!(case.expect_event.as_ref().unwrap().rule_id, Some(4));
    assert!(case_by_id("monitor-arp-spoof").is_none());
    assert!(case_by_id("").is_none());
}

#[test]
fn monitor_ids_never_name_catalog_cases() {
    let cases = all_cases();
    for m in monitor_cases() {
        assert!(cases.iter().all(|c| c.id != m.id));
    }
}

#[test]
fn egress_rule_ids_are_line_numbers() {
    let text = firewall_text(Bundle::EgressTuple, &cfg());
    assert_eq!(
        text,
        "chain=localin,action=P\n\
         sip=10.123.0.1,dip=10.123.0.2,dport=6001,proto=tcp,action=LD,chain=output\n\
         sip=10.123.0.1,dip=10.123.0.2,dport=6002,proto=tcp,action=LP,chain=output\n\
         sip=10.123.0.1,dip=10.123.0.2,dport=6003,proto=udp,action=LD,chain=output\n"
    );
    let lines: Vec<&str> = text.lines().collect();
    for case in all_cases() {
        if case.bundle != Bundle::EgressTuple {
            continue;
        }
        if let Some(e) = &case.expect_event {
            if let (Some(rule), Some(port)) = (e.rule_id, e.match_dport) {
                let line = lines[(rule - 1) as usize];
                assert!(line.contains(&format!("dport={port},proto={}", e.proto)));
            }
        }
    }
}

#[test]
fn match_fields_use_the_peer_network() {
    let text = firewall_text(Bundle::MatchFields, &cfg());
    let lines: Vec<&str> = text.lines().collect();
    assert_eq!(lines.len(), 7);
    assert_eq!(lines[1], "sip=10.123.0.2/32,dip=10.123.0.1,dport=7001,proto=tcp,action=LD,chain=localin");
    assert_eq!(lines[2], "sip=10.123.0.0/24,dip=10.123.0.1,dport=7002,proto=tcp,action=LD,chain=localin");
    assert_eq!(lines[4], "sip=*,sport=8000-8005,dip=10.123.0.1,dport=7200,proto=udp,action=LD,chain=localin");
    assert_eq!(lines[5], "sip=*,dip=10.123.0.1,proto=icmp,action=LD,chain=localin");
}

#[test]
fn app_bundles_name_the_identity_key() {
    assert_eq!(
        firewall_text(Bundle::AppDeny, &cfg()),
        "chain=localin,action=P\nprog=com.demo.browser,action=LD\n"
    );
    assert_eq!(firewall_text(Bundle::Detection, &cfg()), "chain=localin,action=LD\n");
    assert_eq!(firewall_text(Bundle::Priority, &cfg()).lines().count(), 4);
}

#[test]
fn batches_follow_bundle_order() {
    let all = batches(None);
    assert_eq!(all.len(), 10);
    let total: usize = all.iter().map(|b| b.cases.len()).sum();
    assert_eq!(total, 30);
    assert_eq!(all[0].bundle, Bundle::IngressTuple);
    assert!(all.iter().all(|b| b.cases.iter().all(|c| c.bundle == b.bundle)));
    let egress = batches(Some(Group::Egress));
    assert_eq!(egress.len(), 1);
    assert_eq!(egress[0].bundle, Bundle::EgressTuple);
    assert_eq!(egress[0].cases.len(), 3);
    assert!(batches(Some(Group::Monitor)).is_empty());
    let matching = batches(Some(Group::Match));
    assert_eq!(matching.len(), 2);
    assert_eq!(matching[1].bundle, Bundle::Priority);
}

#[test]
fn listing_rows() {
    let row = list_row(&case_by_id("egress-tcp-block").unwrap());
    assert_eq!(row.group, "egress");
    assert_eq!(row.bundle, "egresstuple");
    assert_eq!(row.enforce, "blocked");
    assert_eq!(row.event, "NetworkBlock/Block");
    let none = list_row(&case_by_id("ingress-tuple-pass").unwrap());
    assert_eq!(none.event, "none");
}

#[test]
fn rule_texts_have_the_documented_shape() {
    for bundle in bundle_order() {
        let text = firewall_text(bundle, &cfg());
        assert!(text.ends_with('\n'));
        assert!(text.starts_with("chain=localin,action="));
        for line in text.lines() {
            assert!(!line.is_empty());
            assert!(!line.starts_with('#'));
        }
    }
}

#[test]
fn blocksilent_expects_a_silent_block() {
    let case = case_by_id("ingress-tuple-blocksilent").unwrap();
    assert_eq!(case.expect_enforce, Enforce::Blocked);
    assert!(case.expect_event.is_none());
}

#[test]
fn each_case_runs_once_in_bundle_order() {
    let order = bundle_order();
    let all = batches(None);
    let ranks: Vec<usize> = all.iter().map(|b| order.iter().position(|o| *o == b.bundle).unwrap()).collect();
    assert!(ranks.windows(2).all(|w| w[0] < w[1]));
    for case in all_cases() {
        let seen = all.iter().flat_map(|b| b.cases.iter()).filter(|c| c.id == case.id).count();
        assert_eq!(seen, 1);
    }
}
