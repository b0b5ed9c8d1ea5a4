//! The worker's arguments, as plain values. Paths are carried as strings.

use vstd::prelude::*;

use crate::net::IpAddr;

verus! {

/// `provision-rule` arguments.
#[derive(Debug, Clone)]
pub struct ProvisionArgs {
    /// Access-control domain id.
    pub acd: i32,
    /// Function id (1 = firewall, 4 = traffic policy).
    pub fun: i32,
    /// Protocol version.
    pub prot_ver: i32,
    /// Explicit rule version. When omitted the current depot version is bumped by one.
    pub ver: Option<i32>,
    /// Plaintext rule file to encrypt and store.
    pub input: String,
    /// idps-server runtime config path (provides depot/default paths + shipped keys).
    pub config: String,
    /// Keystore directory used to derive the runtime AES key from VIN/DSN.
    pub keystore: String,
}

/// Shared arguments for the event/report queries.
#[derive(Debug, Clone)]
pub struct EventQueryArgs {
    /// idps-fw SQLite state database.
    pub db: String,
    /// Only consider events with `event_time_ms` strictly greater than this.
    pub since: i64,
}

/// Transport for generated traffic.
#[derive(Debug, Clone, Copy, PartialEq, Eq, Structural)]
pub enum Proto {
    /// TCP connect attempt.
    Tcp,
    /// UDP datagram probe.
    Udp,
    /// ICMP request.
    Icmp,
}

/// ICMP message kind (for `proto icmp`).
#[derive(Debug, Clone, Copy, PartialEq, Eq, Structural)]
pub enum IcmpKind {
    /// Echo request (type 8).
    Echo,
    /// Timestamp request (type 13) — vendor probe event 232.
    Timestamp,
}

/// `traffic` arguments.
#[derive(Debug, Clone)]
pub struct TrafficArgs {
    pub proto: Proto,
    pub to: IpAddr,
    pub dport: Option<u16>,
    pub dports: Option<String>,
    pub sport: Option<u16>,
    pub count: u32,
    pub interval_ms: u64,
    pub timeout_ms: u64,
    pub await_reply: bool,
    pub fin_only: bool,
    pub icmp_type: IcmpKind,
    /// Run the traffic as this uid (privilege dropped first).
    pub uid: Option<u32>,
}

/// `conn-flood` arguments: open and hold many concurrent TCP connections.
#[derive(Debug, Clone)]
pub struct ConnFloodArgs {
    pub to: IpAddr,
    pub dport: u16,
    pub count: u32,
    pub hold_secs: u64,
    pub timeout_ms: u64,
}

/// `arp-spoof` arguments: emit gratuitous ARP replies for an IP.
#[derive(Debug, Clone)]
pub struct ArpSpoofArgs {
    pub iface: String,
    pub claim_ip: [u8; 4],
    pub count: u32,
}

/// Shared arguments for the side-channel report query.
#[derive(Debug, Clone)]
pub struct ReportQueryArgs {
    /// idps-fw SQLite state database.
    pub db: String,
    /// Only consider outbox rows with `created_at_ms` strictly greater than this.
    pub since: i64,
    /// Optional report-type filter (e.g. `tcp_conn_total`, `tcp_conn_per_ip`, `arp_spoof`).
    pub report_type: Option<String>,
}

/// Transport for the listener.
#[derive(Debug, Clone, Copy, PartialEq, Eq, Structural)]
pub enum ListenProto {
    /// TCP accept loop.
    Tcp,
    /// UDP echo loop.
    Udp,
}

/// `listen` arguments.
#[derive(Debug, Clone)]
pub struct ListenArgs {
    pub proto: ListenProto,
    pub port: u16,
    pub duration_secs: u64,
    pub hold: bool,
}

} // verus!
