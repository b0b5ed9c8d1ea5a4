use fw_verify::adb;
use fw_verify::clock::{epoch_millis, now_ms};
use fw_verify::config::{GlobalArgs, Mode, ReportConfirm, RunConfig, VsocApi};
use fw_verify::depot::{depot_rule_path, rule_plan, RuleMeta, RulePlan};
use fw_verify::environment::{
    debug_id_command, fast_config_text, fwv_conf_text, healthy, restart_commands, setup_fw_config,
    step_result, teardown_steps, topology_plan, Topology,
};
use fw_verify::exec::{parse_inet, parse_json, retry_via_netns_exec, Endpoint, JsonOutputError, ProcessOutput};
use fw_verify::fastprofile::{keystore_present, restart_cmds, restored};
use fw_verify::net::IpAddr;
use fw_verify::peer::listener_argv;
use fw_verify::preflight::{
    agent_check, all_passed, answer_check, check_line, health_check, keystore_line, preflight_probes, vsoc_check, Probe,
};
use fw_verify::provision::{
    cycle_reached, cycle_rule, poll_step, provision_args, require_key_present, reset_commands,
    rule_ver_reached, target_rule_ver, traffic_rule_ver, PollStep,
};
use fw_verify::settings::{config_entries_of, config_key_to_env, config_path};
use fw_verify::target::{firewall_rule_ver, health_cmd, statistics_cmd, HealthSnapshot};
use fw_verify::vsoc::{
    base_args, curl_result, events_args, events_mention, rules_url, upsert_args, upsert_body,
    upsert_outcome, UpsertError, UpsertReply,
};

fn output(code: Option<i32>, stdout: &str, stderr: &str) -> ProcessOutput {
    ProcessOutput { code, stdout: stdout.as_bytes().to_vec(), stderr: stderr.as_bytes().to_vec() }
}

fn global(mode: Mode) -> GlobalArgs {
    GlobalArgs {
        config: None,
        mode,
        peer_netns: "fwpeer".to_string(),
        vsoc_cert: None,
        vsoc_key: None,
        vsoc_cacert: None,
        target_iface: "fwt0".to_string(),
        peer_iface: "fwp0".to_string(),
        target_ip: None,
        peer_ip: None,
        veth_prefix: 24,
        acd: 1,
        fun_fw: 1,
        fun_traffic: 4,
        reload_timeout_secs: 30,
        event_settle_ms: 1500,
        report_confirm: ReportConfirm::Local,
        vsoc_url: None,
        idps_fw: "idps-fw".to_string(),
        state_db: "/data/idd/idps-fw/state.sqlite3".to_string(),
        app_uid: 2000,
        app_identity_key: "com.demo.browser".to_string(),
        app_pkg: "com.demo.browser".to_string(),
        app_name: "Browser".to_string(),
        report: None,
        json: false,
    }
}

const SHOWN: &str = "3: fwt0@if2: <BROADCAST> mtu 1500\n    inet 10.123.0.1/24 scope global fwt0";

#[test]
fn adb_arguments_and_outputs() {
    assert_eq!(adb::shell_argv("emu", "ls /"), vec!["-s", "emu", "shell", "ls /"]);
    let steps = adb::root("emu");
    assert_eq!(steps[0], vec!["-s", "emu", "root"]);
    assert_eq!(steps[1], vec!["-s", "emu", "wait-for-device"]);
    assert_eq!(adb::push_argv("emu", "a.txt", "/tmp/a"), vec!["-s", "emu", "push", "a.txt", "/tmp/a"]);
    let out = output(Some(3), "  device \n", "err");
    assert_eq!(adb::shell_full(&out), (3, "  device \n".to_string(), "err".to_string()));
    assert_eq!(adb::shell(&out), "device");
    assert_eq!(adb::get_state(&out), "device");
    assert!(!adb::remount(&out));
    assert!(adb::remount(&output(Some(0), "", "")));
    assert!(!adb::remount(&output(None, "", "")));
    assert!(adb::push("a", "b", &output(Some(0), "", "")).is_ok());
    let e = adb::push("a", "b", &output(Some(1), "", " no space \n")).unwrap_err();
    assert_eq!((e.local.as_str(), e.remote.as_str(), e.stderr.as_str()), ("a", "b", "no space"));
    assert_eq!(adb::detect_ipv4("emu", "wlan0", SHOWN).unwrap(), "10.123.0.1");
    assert_eq!(adb::detect_ipv4("emu", "wlan0", "nothing").unwrap_err().iface, "wlan0");
}

#[test]
fn shell_outputs_are_decoded() {
    let out = ProcessOutput { code: None, stdout: vec![b'o', b'k', 0xff, b'\n'], stderr: vec![] };
    let (code, stdout, _) = Endpoint::shell_full(&out);
    assert_eq!(code, -1);
    assert_eq!(stdout, "ok\u{fffd}\n");
    assert_eq!(Endpoint::shell(&out), "ok\u{fffd}");
}

#[test]
fn endpoints_and_addresses() {
    let peer = Endpoint::Netns { name: "fwpeer".to_string() };
    assert_eq!(peer.label(), "peer:fwpeer");
    assert_eq!(Endpoint::Local.label(), "target");
    let program = vec!["sh".to_string(), "-c".to_string(), "true".to_string()];
    assert_eq!(peer.program_argv(&program, false), vec!["nsenter", "--net=/run/netns/fwpeer", "--", "sh", "-c", "true"]);
    assert_eq!(peer.program_argv(&program, true), vec!["ip", "netns", "exec", "fwpeer", "sh", "-c", "true"]);
    assert_eq!(Endpoint::Local.program_argv(&program, true), program);
    assert_eq!(Endpoint::agent_argv("/bin/fw-verify", &vec!["now".to_string()]), vec!["/bin/fw-verify", "agent", "now"]);
    assert_eq!(Endpoint::ipv4_query("fwp0"), "ip -4 addr show dev fwp0");
    assert_eq!(parse_inet(SHOWN), Some("10.123.0.1".to_string()));
    assert_eq!(parse_inet("inet 300.1.1.1/24"), None);
    assert_eq!(parse_inet("inet"), None);
    assert_eq!(parse_inet("inet6 ::1/128 inet 01.2.3.4/8"), None);
    let e = peer.detect_ipv4("fwp0", "no address").unwrap_err();
    assert_eq!(e.label, "peer:fwpeer");
}

#[test]
fn json_outputs_are_found() {
    assert_eq!(parse_json("  {\"a\": 1}  ").unwrap()["a"], 1);
    let v = parse_json("log line\n{\"now_ms\": 5}\ntrailing").unwrap();
    assert_eq!(v["now_ms"], 5);
    assert!(matches!(parse_json("no json here"), Err(JsonOutputError::NoJson)));
    assert!(matches!(parse_json("{broken"), Err(JsonOutputError::Invalid)));
}

#[test]
fn configuration_resolves() {
    let mut g = global(Mode::Host);
    g.vsoc_cert = Some("c.crt".to_string());
    g.peer_ip = Some(IpAddr::V4([192, 168, 1, 7]));
    let cfg = RunConfig::resolve(&g, SHOWN, "").unwrap();
    assert!(matches!(cfg.target_ip, IpAddr::V4([10, 123, 0, 1])));
    assert!(matches!(cfg.peer_ip, IpAddr::V4([192, 168, 1, 7])));
    let vsoc = cfg.vsoc.as_ref().unwrap();
    assert_eq!(vsoc.base_url, "https://127.0.0.1:8443");
    assert_eq!(vsoc.cert.as_deref(), Some("c.crt"));
    assert_eq!(cfg.peer_slash24(), "192.168.1.0/24");
    let e = RunConfig::resolve(&g, "", "").unwrap_err();
    assert_eq!((e.iface.as_str(), e.label.as_str()), ("fwt0", "target"));
    let mut a = global(Mode::Android);
    a.target_ip = Some(IpAddr::V4([1, 2, 3, 4]));
    let e = RunConfig::resolve(&a, "", "garbage").unwrap_err();
    assert_eq!((e.iface.as_str(), e.label.as_str()), ("fwp0", "peer:fwpeer"));
    let cfg = RunConfig::resolve(&a, "", SHOWN).unwrap();
    assert!(cfg.vsoc.is_none());
}

#[test]
fn config_files_are_read() {
    let content = "# comment\n; other\n Mode = \"android\"\nPEER_IP=10.9.9.9\nunknown = 1\nno equals\nstate_db = /x=y\n\n";
    let entries = config_entries_of(content);
    assert_eq!(
        entries,
        vec![
            ("FWV_MODE".to_string(), "android".to_string()),
            ("FWV_PEER_IP".to_string(), "10.9.9.9".to_string()),
            ("FWV_STATE_DB".to_string(), "/x=y".to_string()),
        ]
    );
    assert_eq!(config_key_to_env("target"), Some("FWV_TARGET"));
    assert_eq!(config_key_to_env("fw_agent"), Some("FWV_FW_AGENT"));
    assert_eq!(config_key_to_env("veth_prefix"), Some("FWV_VETH_PREFIX"));
    assert_eq!(config_key_to_env("Mode"), None);
    let args = |v: &[&str]| v.iter().map(|s| s.to_string()).collect::<Vec<String>>();
    assert_eq!(config_path(&args(&["fw-verify", "--config", "a.conf", "run-all"])), Some("a.conf".to_string()));
    assert_eq!(config_path(&args(&["fw-verify", "--config=b.conf"])), Some("b.conf".to_string()));
    assert_eq!(config_path(&args(&["fw-verify", "--config=b.conf", "--config"])), None);
    assert_eq!(config_path(&args(&["fw-verify", "list"])), None);
}

#[test]
fn vsoc_requests() {
    let api = VsocApi {
        base_url: "https://vsoc:8443//".to_string(),
        cert: Some("c.crt".to_string()),
        key: Some("k.key".to_string()),
        cacert: None,
    };
    assert_eq!(base_args(&api), vec!["-sS", "--noproxy", "*", "-k", "--max-time", "20", "--cert", "c.crt", "--key", "k.key"]);
    assert_eq!(rules_url(&api.base_url, 1, 4), "https://vsoc:8443/api/rules/1/4");
    assert_eq!(upsert_body("chain=localin,action=P\n"), "{\"content\":\"chain=localin,action=P\\n\",\"enabled\":true}");
    assert_eq!(upsert_body("a\"b\\c\u{1}\té"), "{\"content\":\"a\\\"b\\\\c\\u0001\\té\",\"enabled\":true}");
    let args = upsert_args(&api, 1, 1, "x");
    assert_eq!(&args[10..], &["-X", "PUT", "-H", "Content-Type: application/json", "-d", "{\"content\":\"x\",\"enabled\":true}", "https://vsoc:8443/api/rules/1/1"]);
    assert_eq!(events_args(&api).last().unwrap(), "https://vsoc:8443/api/events?limit=100");
    assert_eq!(curl_result(&output(Some(0), "{}", "")).unwrap(), "{}");
    assert_eq!(curl_result(&output(Some(7), "", " refused\n")).unwrap_err().stderr, "refused");
    assert_eq!(upsert_outcome(1, 1, "{}", Some(UpsertReply { detail: None, ver: Some(9) })).unwrap(), 9);
    assert!(matches!(upsert_outcome(1, 4, "x", None), Err(UpsertError::NotJson { reply }) if reply == "x"));
    assert!(matches!(
        upsert_outcome(1, 4, "{}", Some(UpsertReply { detail: Some("bad".to_string()), ver: Some(1) })),
        Err(UpsertError::Rejected { acd: 1, fun: 4, detail }) if detail == "bad"
    ));
    assert!(matches!(upsert_outcome(1, 4, "{}", Some(UpsertReply { detail: None, ver: None })), Err(UpsertError::MissingVer)));
    assert!(events_mention("[{\"ip\":\"10.123.0.1\"}]", "10.123.0.1"));
    assert!(!events_mention("[]", "10.123.0.1"));
    assert!(events_mention("[]", ""));
}

#[test]
fn provisioning_decisions() {
    assert_eq!(target_rule_ver(-1), 1);
    assert_eq!(target_rule_ver(0), 1);
    assert_eq!(target_rule_ver(41), 42);
    let h = HealthSnapshot { firewall_rule_ver: Some(7), traffic_rule_ver: None, traffic_cycle_secs: Some(5), connected: Some(true), phase: None };
    assert_eq!(firewall_rule_ver(&h), 7);
    assert_eq!(traffic_rule_ver(&Some(h.clone())), -1);
    assert_eq!(traffic_rule_ver(&None), -1);
    assert_eq!(provision_args(1, 4, 3), vec!["provision-rule", "--acd", "1", "--fun", "4", "--ver", "3", "--input", "/data/local/tmp/fw-verify-rule.txt"]);
    assert_eq!(cycle_rule(5), "{\"cycle\":5}");
    assert!(require_key_present(Some(false)).is_err());
    assert!(require_key_present(Some(true)).is_ok());
    assert!(require_key_present(None).is_ok());
    assert!(rule_ver_reached(Some(3), 3));
    assert!(!rule_ver_reached(None, 0));
    assert!(rule_ver_reached(None, -1));
    assert!(cycle_reached(None, 0));
    assert!(!cycle_reached(Some(4), 5));
    assert_eq!(poll_step(true, 10, 0, 0), PollStep::Reached);
    assert_eq!(poll_step(false, 10, 10, 0), PollStep::TimedOut);
    assert_eq!(poll_step(false, 5, 10, 5), PollStep::Report);
    assert_eq!(poll_step(false, 4, 10, 5), PollStep::Wait);
    let (rm, tmp) = reset_commands(1, 1, 4);
    assert_eq!(rm, "rm -f /data/idd/rule/depot/1-1-*.rule* /data/idd/rule/depot/1-4-*.rule*");
    assert_eq!(tmp, "rm -f /data/local/tmp/fw-verify-rule.txt");
    assert_eq!(health_cmd("idps-fw"), "idps-fw health");
    assert_eq!(statistics_cmd("/bin/idps-fw"), "/bin/idps-fw statistics");
}

#[test]
fn depot_metadata() {
    let prev = RuleMeta { ver: 4, major_ver: 0, minor_ver: 2 };
    assert_eq!(rule_plan(0, None, &prev), RulePlan { prot_ver: 1, ver: 5, major_ver: 1, minor_ver: 2 });
    assert_eq!(rule_plan(3, Some(9), &prev).ver, 9);
    let top = RuleMeta { ver: i32::MAX, major_ver: 2, minor_ver: 0 };
    assert_eq!(rule_plan(1, None, &top).ver, i32::MAX);
    assert_eq!(depot_rule_path("/data/idd/rule/depot/", 1, 4, 1), "/data/idd/rule/depot/1-4-1.rule");
}

#[test]
fn environment_plans_and_texts() {
    let g = global(Mode::Host);
    let topo = Topology::from(&g);
    assert!(matches!(topo.peer_ip, IpAddr::V4([10, 123, 0, 2])));
    let down = teardown_steps(&topo);
    assert_eq!(down, vec![vec!["netns", "del", "fwpeer"], vec!["link", "del", "fwt0"]]);
    let plan = topology_plan(&topo);
    assert_eq!(plan.netns_add, vec!["netns", "add", "fwpeer"]);
    assert_eq!(plan.veth_move, vec!["link", "set", "fwp0", "netns", "fwpeer"]);
    assert_eq!(plan.rest[0], vec!["addr", "add", "10.123.0.1/24", "dev", "fwt0"]);
    assert_eq!(plan.rest[3], vec!["netns", "exec", "fwpeer", "ip", "addr", "add", "10.123.0.2/24", "dev", "fwp0"]);
    let args = vec!["link".to_string(), "add".to_string()];
    assert!(step_result("ip", &args, &output(Some(0), "", "")).is_ok());
    let e = step_result("ip", &args, &output(Some(2), "", "RTNETLINK answers: File exists\n")).unwrap_err();
    assert_eq!(e.command, "ip link add");
    assert_eq!(e.stderr, "RTNETLINK answers: File exists");
    let yaml = setup_fw_config(&g, &topo);
    assert!(yaml.starts_with("runtime_config_path: /etc/idd/idps.yaml\nstate_dir: /data/idd/idps-fw\nstate_db_path: /data/idd/idps-fw/state.sqlite3\n"));
    assert!(yaml.contains("tc_ingress_ifaces:\n  - fwt0\n"));
    assert!(yaml.contains("initial_rule_timeout_secs: 30\n"));
    assert!(yaml.contains("  - exact: fwt0\n    category: wifi\n"));
    assert!(yaml.ends_with("    uid: 2000\n    pkg_name: \"com.demo.browser\"\n    app_name: \"Browser\"\n"));
    assert!(fast_config_text("db", "eth1", 10, "k", 1, "p", "n").contains("initial_rule_timeout_secs: 10\n"));
    let conf = fwv_conf_text(&g, &topo);
    assert!(conf.contains("\nmode = host\n"));
    assert!(conf.contains("\ntarget_ip = 10.123.0.1\npeer_ip = 10.123.0.2\n"));
    assert!(conf.ends_with("vsoc_url = https://127.0.0.1:8443\n# set vsoc_cert/vsoc_key to the VSOC mTLS client certificate before running\n"));
    let mut with_cert = global(Mode::Host);
    with_cert.vsoc_cert = Some("c".to_string());
    with_cert.vsoc_key = Some("k".to_string());
    with_cert.vsoc_cacert = Some("a".to_string());
    assert!(fwv_conf_text(&with_cert, &topo).ends_with("vsoc_cert = c\nvsoc_key = k\nvsoc_cacert = a\n"));
    let android = fwv_conf_text(&global(Mode::Android), &topo);
    assert!(android.ends_with("app_name = Browser\n"));
    assert_eq!(restart_commands(Mode::Android, "idps-fw").len(), 2);
    assert_eq!(restart_commands(Mode::Host, "idps-fw")[0].1, vec!["try-restart", "idps-fw"]);
    assert!(healthy(Some(true)));
    assert!(!healthy(None));
    assert_eq!(
        debug_id_command("vin_debug", "VIN1"),
        "printf %s 'VIN1' > /data/idd/vin_debug; chmod 644 /data/idd/vin_debug; restorecon /data/idd/vin_debug 2>/dev/null"
    );
    assert_eq!(restart_cmds("idps-fw"), ("stop idps-fw".to_string(), "start idps-fw".to_string()));
    assert!(keystore_present("yes\n"));
    assert!(!keystore_present("no"));
    assert!(restored("restored"));
}

#[test]
fn preflight_checks() {
    let agent = agent_check("peer", &Err("timed out".to_string()));
    assert_eq!(check_line(&agent), "[FAIL] peer fw-agent: timed out");
    let ok = agent_check("target", &Ok(()));
    assert_eq!(check_line(&ok), "[ok] target fw-agent: responds");
    assert_eq!(health_check(&Ok(Some("Running".to_string()))).info, "phase=Running");
    assert_eq!(health_check(&Ok(None)).info, "phase=?");
    assert!(answer_check("target depot dir", "yes", "yes").pass);
    assert!(!vsoc_check(false).pass);
    assert!(!all_passed(&vec![ok, agent]));
    assert!(all_passed(&vec![]));
    assert_eq!(keystore_line("no"), "[warn] target keystore: no");
    assert_eq!(listener_argv("udp", 6003, 12), vec!["listen", "udp", "--port", "6003", "--duration-secs", "12"]);
}

#[test]
fn clock_reads_the_epoch() {
    assert!(now_ms() > 1_600_000_000_000);
    assert_eq!(epoch_millis(Some(1234)), 1234);
    assert_eq!(epoch_millis(None), 0);
}

#[test]
fn peer_programs_fall_back_to_ip_netns_exec() {
    let peer = Endpoint::Netns { name: "fwpeer".to_string() };
    assert!(retry_via_netns_exec(&peer, true));
    assert!(!retry_via_netns_exec(&peer, false));
    assert!(!retry_via_netns_exec(&Endpoint::Local, true));
}

#[test]
fn preflight_probes_follow_the_mode() {
    let base = vec![Probe::TargetAgent, Probe::PeerAgent, Probe::Health, Probe::DepotDir];
    assert_eq!(preflight_probes(Mode::Android), base);
    let mut host = base.clone();
    host.push(Probe::PeerLink);
    host.push(Probe::VsocApi);
    assert_eq!(preflight_probes(Mode::Host), host);
}
