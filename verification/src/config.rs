//! The resolved runtime configuration of a test session, and the options it
//! is resolved from.

use vstd::prelude::*;

use crate::exec::{endpoint_label, inet_address, parse_inet, DetectError, Endpoint};
use crate::net::{ip_text, ipv4_octets, ipv4_text, parse_ipv4, push_ipv4, IpAddr};
use crate::text::{chars_of, push_str};

verus! {

/// How thoroughly to confirm an event reached idps-server.
#[derive(Debug, Clone, Copy, PartialEq, Eq, Structural)]
pub enum ReportConfirm {
    /// Confirm via idps-fw local outbox state (`report_state = 'sent'`).
    Local,
    /// Additionally grep idps-server logcat for the received report.
    Server,
    /// Additionally poll the VSOC dashboard `/api/events` endpoint.
    Vsoc,
}

/// How firewall rules are delivered to idps-fw.
#[derive(Debug, Clone, Copy, PartialEq, Eq, Structural)]
pub enum Mode {
    /// Write the encrypted depot directly (Android device under test).
    Android,
    /// Deliver rules through the VSOC dashboard API (host).
    Host,
}

/// VSOC dashboard connection details for host-mode rule delivery (mTLS).
#[derive(Debug, Clone)]
pub struct VsocApi {
    pub base_url: String,
    pub cert: Option<String>,
    pub key: Option<String>,
    pub cacert: Option<String>,
}

/// The options every device-touching subcommand shares, after defaults,
/// environment and config file have been applied. Paths are strings.
#[derive(Debug, Clone)]
pub struct GlobalArgs {
    pub config: Option<String>,
    pub mode: Mode,
    pub peer_netns: String,
    pub vsoc_cert: Option<String>,
    pub vsoc_key: Option<String>,
    pub vsoc_cacert: Option<String>,
    pub target_iface: String,
    pub peer_iface: String,
    pub target_ip: Option<IpAddr>,
    pub peer_ip: Option<IpAddr>,
    pub veth_prefix: u8,
    pub acd: i32,
    pub fun_fw: i32,
    pub fun_traffic: i32,
    pub reload_timeout_secs: u64,
    pub event_settle_ms: u64,
    pub report_confirm: ReportConfirm,
    pub vsoc_url: Option<String>,
    pub idps_fw: String,
    pub state_db: String,
    pub app_uid: u32,
    pub app_identity_key: String,
    pub app_pkg: String,
    pub app_name: String,
    pub report: Option<String>,
    pub json: bool,
}

/// Fully resolved configuration shared by every case.
#[derive(Debug, Clone)]
pub struct RunConfig {
    pub mode: Mode,
    pub target: Endpoint,
    pub peer: Endpoint,
    pub target_iface: String,
    pub peer_iface: String,
    pub target_ip: IpAddr,
    pub peer_ip: IpAddr,
    pub acd: i32,
    pub fun_fw: i32,
    pub fun_traffic: i32,
    pub reload_timeout_secs: u64,
    pub event_settle_ms: u64,
    pub report_confirm: ReportConfirm,
    pub vsoc: Option<VsocApi>,
    pub idps_fw: String,
    pub state_db: String,
    pub app_uid: u32,
    pub app_identity_key: String,
    pub app_pkg: String,
    pub app_name: String,
}

/// The VSOC dashboard used when none is given.
pub open spec fn default_vsoc_url() -> Seq<char> {
    "https://127.0.0.1:8443"@
}

/// The address an explicit option or a detected `inet` line stands for.
pub open spec fn resolves_to(explicit: Option<IpAddr>, shown: Seq<char>, ip: IpAddr) -> bool {
    match explicit {
        Some(e) => ip == e,
        None => match inet_address(shown) {
            Some(a) => ip matches IpAddr::V4(o) && o@ == ipv4_octets(a).unwrap(),
            None => false,
        },
    }
}

/// Whether an address can be had: given, or detected in `shown`.
pub open spec fn resolvable(explicit: Option<IpAddr>, shown: Seq<char>) -> bool {
    explicit is Some || inet_address(shown) is Some
}

/// The VSOC connection of a session: host mode only, at the given URL or
/// the default one.
pub open spec fn vsoc_of(g: GlobalArgs, v: Option<VsocApi>) -> bool {
    match g.mode {
        Mode::Android => v is None,
        Mode::Host => v matches Some(api) && api.base_url@ == match g.vsoc_url {
            Some(u) => u@,
            None => default_vsoc_url(),
        } && api.cert == g.vsoc_cert && api.key == g.vsoc_key && api.cacert == g.vsoc_cacert,
    }
}

/// The configuration fields carried over from the options unchanged.
pub open spec fn carries(g: GlobalArgs, c: RunConfig) -> bool {
    &&& c.mode == g.mode
    &&& c.target == Endpoint::Local
    &&& c.peer == (Endpoint::Netns { name: g.peer_netns })
    &&& c.target_iface == g.target_iface
    &&& c.peer_iface == g.peer_iface
    &&& c.acd == g.acd
    &&& c.fun_fw == g.fun_fw
    &&& c.fun_traffic == g.fun_traffic
    &&& c.reload_timeout_secs == g.reload_timeout_secs
    &&& c.event_settle_ms == g.event_settle_ms
    &&& c.report_confirm == g.report_confirm
    &&& c.idps_fw == g.idps_fw
    &&& c.state_db == g.state_db
    &&& c.app_uid == g.app_uid
    &&& c.app_identity_key == g.app_identity_key
    &&& c.app_pkg == g.app_pkg
    &&& c.app_name == g.app_name
}

fn clone_opt(o: &Option<String>) -> (r: Option<String>)
    ensures
        r == *o,
{
    match o {
        Some(s) => Some(s.clone()),
        None => None,
    }
}

fn clone_ip(ip: &IpAddr) -> (r: IpAddr)
    ensures
        r == *ip,
{
    match ip {
        IpAddr::V4(o) => IpAddr::V4(*o),
        IpAddr::V6(t) => IpAddr::V6(t.clone()),
    }
}

/// The address of one side: `explicit` when given, else the one detected in
/// `shown`, the trimmed output of `ip -4 addr show dev <iface>` on that side.
fn resolve_ip(explicit: &Option<IpAddr>, endpoint: &Endpoint, iface: &str, shown: &str) -> (r:
    Result<IpAddr, DetectError>)
    ensures
        resolvable(*explicit, shown@) ==> (r matches Ok(ip) && resolves_to(*explicit, shown@, ip)),
        !resolvable(*explicit, shown@) ==> (r matches Err(e) && e.iface@ == iface@ && e.label@
            == endpoint_label(*endpoint)),
{
    match explicit {
        Some(ip) => Ok(clone_ip(ip)),
        None => match endpoint.detect_ipv4(iface, shown) {
            Ok(addr) => {
                let a = chars_of(addr.as_str());
                match parse_ipv4(&a) {
                    Some(o) => Ok(IpAddr::V4(o)),
                    None => Err(DetectError { iface: iface.to_string(), label: endpoint.label() }),
                }
            },
            Err(e) => Err(e),
        },
    }
}

impl RunConfig {
    /// Resolve endpoints and addresses. The TARGET is the local root
    /// namespace; the PEER is the far veth end in `peer_netns`. An address
    /// not given is the one detected in `target_shown` / `peer_shown`, the
    /// output of `ip -4 addr show dev <iface>` on that side. Host mode
    /// delivers rules through the VSOC API; Android mode writes the depot.
    pub fn resolve(global: &GlobalArgs, target_shown: &str, peer_shown: &str) -> (r: Result<
        RunConfig,
        DetectError,
    >)
        ensures
            !resolvable(global.target_ip, target_shown@) ==> (r matches Err(e) && e.iface@
                == global.target_iface@ && e.label@ == "target"@),
            resolvable(global.target_ip, target_shown@) && !resolvable(global.peer_ip, peer_shown@)
                ==> (r matches Err(e) && e.iface@ == global.peer_iface@ && e.label@ == "peer:"@
                + global.peer_netns@),
            resolvable(global.target_ip, target_shown@) && resolvable(global.peer_ip, peer_shown@)
                ==> (r matches Ok(c) && carries(*global, c) && resolves_to(
                global.target_ip,
                target_shown@,
                c.target_ip,
            ) && resolves_to(global.peer_ip, peer_shown@, c.peer_ip) && vsoc_of(*global, c.vsoc)),
    {
        let target = Endpoint::Local;
        let peer = Endpoint::Netns { name: global.peer_netns.clone() };
        let target_ip = match resolve_ip(&global.target_ip, &target, global.target_iface.as_str(), target_shown) {
            Ok(ip) => ip,
            Err(e) => return Err(e),
        };
        let peer_ip = match resolve_ip(&global.peer_ip, &peer, global.peer_iface.as_str(), peer_shown) {
            Ok(ip) => ip,
            Err(e) => return Err(e),
        };
        let vsoc = match global.mode {
            Mode::Host => {
                let base_url = match &global.vsoc_url {
                    Some(u) => u.clone(),
                    None => "https://127.0.0.1:8443".to_string(),
                };
                Some(VsocApi {
                    base_url,
                    cert: clone_opt(&global.vsoc_cert),
                    key: clone_opt(&global.vsoc_key),
                    cacert: clone_opt(&global.vsoc_cacert),
                })
            },
            Mode::Android => None,
        };
        Ok(RunConfig {
            mode: global.mode,
            target,
            peer,
            target_iface: global.target_iface.clone(),
            peer_iface: global.peer_iface.clone(),
            target_ip,
            peer_ip,
            acd: global.acd,
            fun_fw: global.fun_fw,
            fun_traffic: global.fun_traffic,
            reload_timeout_secs: global.reload_timeout_secs,
            event_settle_ms: global.event_settle_ms,
            report_confirm: global.report_confirm,
            vsoc,
            idps_fw: global.idps_fw.clone(),
            state_db: global.state_db.clone(),
            app_uid: global.app_uid,
            app_identity_key: global.app_identity_key.clone(),
            app_pkg: global.app_pkg.clone(),
            app_name: global.app_name.clone(),
        })
    }

    /// `/24` network address of the PEER, used for CIDR match-field cases.
    pub fn peer_slash24(&self) -> (s: String)
        ensures
            s@ == slash24_of(self.peer_ip),
    {
        match &self.peer_ip {
            IpAddr::V4(o) => {
                let mut s = String::new();
                push_ipv4(&mut s, [o[0], o[1], o[2], 0]);
                push_str(&mut s, "/24");
                s
            },
            IpAddr::V6(t) => {
                let mut s = t.clone();
                push_str(&mut s, "/128");
                s
            },
        }
    }
}

/// The network an address names in CIDR match fields: an IPv4 address's
/// `/24`, an IPv6 address itself as a `/128`.
pub open spec fn slash24_of(ip: IpAddr) -> Seq<char> {
    match ip {
        IpAddr::V4(o) => ipv4_text(seq![o[0], o[1], o[2], 0u8]) + "/24"@,
        IpAddr::V6(t) => t@ + "/128"@,
    }
}

} // verus!
