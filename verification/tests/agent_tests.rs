use fw_verify::agent_cli::{IcmpKind, Proto, TrafficArgs};
use fw_verify::events::{count_report_state, unquote};
use fw_verify::net::IpAddr;
use fw_verify::packet::{
    build_arp_reply, build_fin, build_icmp_echo, build_icmp_timestamp, icmp_checksum,
    is_matching_echo_reply, is_matching_reply,
    tcp_checksum,
};
use fw_verify::traffic::{
    Attempt, AttemptPlan, attempts_per_port, classify_io, next_attempt, parse_port_list, pause_before, run_ports,
    AttemptKind, IoErrorKind, Outcome, PortsError, Tally,
};

#[test]
fn fin_packet_is_well_formed() {
    let src = [10, 0, 0, 1];
    let dst = [10, 0, 0, 2];
    let packet = build_fin(src, dst, 40000, 9011, 1);
    assert_eq!(packet.len(), 20);
    let off_flags = u16::from_be_bytes([packet[12], packet[13]]);
    assert_eq!(off_flags >> 12, 5, "data offset is 5 words");
    assert_eq!(off_flags & 0x01ff, 0x0001, "only the FIN flag is set");
    // Re-summing a segment that already carries its checksum yields zero.
    assert_eq!(tcp_checksum(src, dst, &packet), 0);
}

#[test]
fn icmp_echo_is_well_formed() {
    let packet = build_icmp_echo(0x1234, 1);
    assert_eq!(packet.len(), 16);
    assert_eq!(packet[0], 8, "echo request type");
    // Re-summing a packet that already carries its checksum yields zero.
    assert_eq!(icmp_checksum(&packet), 0);
}

#[test]
fn verdict_reflects_outcomes() {
    let mut tally = Tally::default();
    tally.denied = 1;
    assert_eq!(tally.verdict(), "blocked");
    tally.success = 1;
    assert_eq!(tally.verdict(), "allowed");
}

#[test]
fn unquote_strips_json_quotes() {
    assert_eq!(unquote("\"Block\""), "Block");
    assert_eq!(unquote("\"PortScan\""), "PortScan");
    assert_eq!(unquote("plain"), "plain");
}

#[test]
fn unquote_decodes_escapes_and_keeps_non_strings() {
    assert_eq!(unquote("\"a\\\"b\""), "a\"b");
    assert_eq!(unquote("42"), "42");
    assert_eq!(unquote("\"unterminated"), "\"unterminated");
}

#[test]
fn fin_segment_bytes() {
    let packet = build_fin([10, 0, 0, 1], [10, 0, 0, 2], 40000, 9011, 0x01020304);
    assert_eq!(&packet[0..2], &40000u16.to_be_bytes());
    assert_eq!(&packet[2..4], &9011u16.to_be_bytes());
    assert_eq!(&packet[4..8], &[1, 2, 3, 4]);
    assert_eq!(&packet[14..16], &1024u16.to_be_bytes());
    let checksum = u16::from_be_bytes([packet[16], packet[17]]);
    assert_ne!(checksum, 0);
}

#[test]
fn icmp_echo_carries_ident_seq_and_payload() {
    let packet = build_icmp_echo(0xabcd, 0x0102);
    assert_eq!(&packet[4..6], &[0xab, 0xcd]);
    assert_eq!(&packet[6..8], &[0x01, 0x02]);
    assert_eq!(&packet[8..16], b"fwagentp");
}

#[test]
fn icmp_checksum_of_known_words() {
    // Sum 0x0001 + 0xf203 + 0xf4f5 + 0xf6f7 folds to 0xddf2, complemented 0x220d.
    assert_eq!(icmp_checksum(&[0x00, 0x01, 0xf2, 0x03, 0xf4, 0xf5, 0xf6, 0xf7]), 0x220d);
    // An odd trailing byte is padded with zero.
    assert_eq!(icmp_checksum(&[0x01]), !0x0100u16);
    assert_eq!(icmp_checksum(&[]), 0xffff);
}

#[test]
fn echo_reply_matching() {
    let mut frame = vec![0x45u8; 20];
    frame.extend_from_slice(&[0, 0, 0, 0, 0x12, 0x34, 0, 1]);
    assert!(is_matching_echo_reply(&frame, 0x1234));
    assert!(!is_matching_echo_reply(&frame, 0x1235));
    frame[20] = 8;
    assert!(!is_matching_echo_reply(&frame, 0x1234));
    assert!(!is_matching_echo_reply(&[], 0x1234));
    // A header length past the frame leaves nothing to match.
    assert!(!is_matching_echo_reply(&[0x4f, 0, 0], 0));
}

#[test]
fn arp_reply_frame_layout() {
    let mac = [1, 2, 3, 4, 5, 6];
    let frame = build_arp_reply(mac, [10, 123, 0, 250]);
    assert_eq!(&frame[0..6], &[0xff; 6]);
    assert_eq!(&frame[6..12], &mac);
    assert_eq!(&frame[12..14], &[0x08, 0x06]);
    assert_eq!(&frame[14..16], &[0, 1]);
    assert_eq!(&frame[16..18], &[0x08, 0x00]);
    assert_eq!(frame[18], 6);
    assert_eq!(frame[19], 4);
    assert_eq!(&frame[20..22], &[0, 2]);
    assert_eq!(&frame[22..28], &mac);
    assert_eq!(&frame[28..32], &[10, 123, 0, 250]);
    assert_eq!(&frame[32..38], &[0xff; 6]);
    assert_eq!(&frame[38..42], &[10, 123, 0, 250]);
}

#[test]
fn tally_counts_and_verdicts() {
    let mut tally = Tally::default();
    assert_eq!(tally.verdict(), "unknown");
    tally.record(Outcome::Sent);
    assert_eq!(tally.verdict(), "sent");
    tally.record(Outcome::Refused);
    assert_eq!(tally.verdict(), "refused");
    tally.record(Outcome::Timeout);
    assert_eq!(tally.verdict(), "blocked");
    tally.record(Outcome::Other);
    tally.record(Outcome::Success);
    assert_eq!(tally.verdict(), "allowed");
    assert_eq!(tally.attempts(), 5);
    assert_eq!(tally.timeout, 1);
    assert_eq!(tally.other, 1);
}

#[test]
fn io_errors_classify() {
    assert_eq!(classify_io(IoErrorKind::TimedOut), Outcome::Timeout);
    assert_eq!(classify_io(IoErrorKind::WouldBlock), Outcome::Timeout);
    assert_eq!(classify_io(IoErrorKind::ConnectionRefused), Outcome::Refused);
    assert_eq!(classify_io(IoErrorKind::PermissionDenied), Outcome::Denied);
    assert_eq!(classify_io(IoErrorKind::Other), Outcome::Other);
}

#[test]
fn port_lists_parse() {
    assert_eq!(parse_port_list("22, 80,,443 ").unwrap(), vec![22, 80, 443]);
    assert_eq!(parse_port_list("+8080").unwrap(), vec![8080]);
    assert_eq!(parse_port_list("").unwrap(), Vec::<u16>::new());
    assert_eq!(parse_port_list("65535").unwrap(), vec![65535]);
    assert_eq!(parse_port_list("80,65536").unwrap_err().item, "65536");
    assert_eq!(parse_port_list("80, x1 ,90").unwrap_err().item, " x1 ");
    assert_eq!(parse_port_list("-1").unwrap_err().item, "-1");
    assert_eq!(parse_port_list("+").unwrap_err().item, "+");
}

fn traffic_args(proto: Proto, dport: Option<u16>, dports: Option<&str>) -> TrafficArgs {
    TrafficArgs {
        proto,
        to: IpAddr::V4([10, 0, 0, 1]),
        dport,
        dports: dports.map(str::to_string),
        sport: None,
        count: 1,
        interval_ms: 0,
        timeout_ms: 1500,
        await_reply: false,
        fin_only: false,
        icmp_type: IcmpKind::Echo,
        uid: None,
    }
}

#[test]
fn run_ports_choose_the_destination() {
    let list = traffic_args(Proto::Tcp, Some(1), Some("5,6"));
    assert_eq!(run_ports(&list).unwrap(), vec![5, 6]);
    let single = traffic_args(Proto::Udp, Some(53), None);
    assert_eq!(run_ports(&single).unwrap(), vec![53]);
    let icmp = traffic_args(Proto::Icmp, None, None);
    assert_eq!(run_ports(&icmp).unwrap(), vec![0]);
    let missing = traffic_args(Proto::Tcp, None, None);
    assert!(matches!(run_ports(&missing), Err(PortsError::Missing)));
    let invalid = traffic_args(Proto::Tcp, None, Some("7,zz"));
    assert!(matches!(run_ports(&invalid), Err(PortsError::Invalid(e)) if e.item == "zz"));
}

#[test]
fn attempts_advance_sequence_numbers() {
    assert_eq!(next_attempt(Proto::Tcp, true, IcmpKind::Echo, 7), (AttemptKind::Fin, 8));
    assert_eq!(next_attempt(Proto::Tcp, false, IcmpKind::Echo, 7), (AttemptKind::Connect, 7));
    assert_eq!(next_attempt(Proto::Udp, true, IcmpKind::Timestamp, 7), (AttemptKind::Datagram, 7));
    assert_eq!(next_attempt(Proto::Icmp, false, IcmpKind::Echo, u16::MAX), (AttemptKind::Echo, 0));
    assert_eq!(next_attempt(Proto::Icmp, false, IcmpKind::Timestamp, 4), (AttemptKind::Timestamp, 5));
    assert_eq!(attempts_per_port(0), 1);
    assert_eq!(attempts_per_port(4), 4);
    assert!(!pause_before(true, 100));
    assert!(!pause_before(false, 0));
    assert!(pause_before(false, 100));
}

#[test]
fn report_states_are_counted() {
    let states: Vec<String> = ["sent", "pending", "sent", "failed"].iter().map(|s| s.to_string()).collect();
    assert_eq!(count_report_state(&states, "sent"), 2);
    assert_eq!(count_report_state(&states, "pending"), 1);
    assert_eq!(count_report_state(&states, "acked"), 0);
}

#[test]
fn attempt_plans_walk_ports_and_rounds() {
    let mut args = traffic_args(Proto::Icmp, None, None);
    args.count = 2;
    args.interval_ms = 10;
    let mut plan = AttemptPlan::new(&args, vec![0, 9]);
    let mut seen = Vec::new();
    while let Some(a) = plan.next() {
        seen.push(a);
    }
    assert_eq!(
        seen,
        vec![
            Attempt { port: 0, kind: AttemptKind::Echo, seq: 1, pause: false },
            Attempt { port: 0, kind: AttemptKind::Echo, seq: 2, pause: true },
            Attempt { port: 9, kind: AttemptKind::Echo, seq: 3, pause: true },
            Attempt { port: 9, kind: AttemptKind::Echo, seq: 4, pause: true },
        ]
    );
    let tcp = traffic_args(Proto::Tcp, Some(80), None);
    let mut plan = AttemptPlan::new(&tcp, vec![80]);
    assert_eq!(plan.next(), Some(Attempt { port: 80, kind: AttemptKind::Connect, seq: 0, pause: false }));
    assert_eq!(plan.next(), None);
}

#[test]
fn icmp_timestamp_request_is_well_formed() {
    let packet = build_icmp_timestamp(0x1234, 3);
    assert_eq!(packet.len(), 20);
    assert_eq!(packet[0], 13, "timestamp request type");
    assert_eq!(&packet[4..8], &[0x12, 0x34, 0, 3]);
    assert_eq!(icmp_checksum(&packet), 0);
}

#[test]
fn timestamp_plans_send_timestamp_requests() {
    let mut args = traffic_args(Proto::Icmp, None, None);
    args.icmp_type = IcmpKind::Timestamp;
    let mut plan = AttemptPlan::new(&args, vec![0]);
    assert_eq!(plan.next(), Some(Attempt { port: 0, kind: AttemptKind::Timestamp, seq: 1, pause: false }));
    assert_eq!(plan.next(), None);
    let mut reply = vec![0x45u8; 20];
    reply.extend_from_slice(&[14, 0, 0, 0, 0x12, 0x34]);
    assert!(is_matching_reply(&reply, 14, 0x1234));
    assert!(!is_matching_reply(&reply, 0, 0x1234));
}
