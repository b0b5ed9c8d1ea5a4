//! VSOC dashboard API client for host-mode rule delivery.
//!
//! In host mode rules reach idps-fw the production way: the rule is upserted
//! into VSOC, idps-server cloud-syncs it into its depot, and idps-fw loads
//! it. The dashboard API is HTTPS with mutual TLS and is driven through the
//! system `curl` (which also bypasses any localhost HTTP proxy). This module
//! builds curl's arguments and reads its replies; running curl is left to
//! the caller.

use vstd::prelude::*;

use crate::config::{RunConfig, VsocApi};
use crate::exec::{lossy_text, output_parts, strs, ProcessOutput};
use crate::text::{contains, dec, int_dec, push_int, push_str, str_contains, trim, trim_str};

verus! {

/// Host mode needs the VSOC API, and it is not configured.
#[derive(Debug)]
pub struct NotConfigured;

/// The VSOC API of a session.
pub fn api(cfg: &RunConfig) -> (r: Result<&VsocApi, NotConfigured>)
    ensures
        match cfg.vsoc {
            Some(v) => r == Ok::<&VsocApi, NotConfigured>(&v),
            None => r is Err,
        },
{
    match &cfg.vsoc {
        Some(v) => Ok(v),
        None => Err(NotConfigured),
    }
}

/// An optional flag with its value.
pub open spec fn opt_pair(flag: Seq<char>, v: Option<String>) -> Seq<Seq<char>> {
    match v {
        Some(s) => seq![flag, s@],
        None => Seq::empty(),
    }
}

/// Common curl arguments: silent, fail on HTTP errors, never a proxy for
/// the loopback dashboard, a 20 s limit, and the client certificate, key
/// and CA when configured.
pub open spec fn base_args_of(v: VsocApi) -> Seq<Seq<char>> {
    seq!["-sS"@, "--noproxy"@, "*"@, "-k"@, "--max-time"@, "20"@] + opt_pair("--cert"@, v.cert)
        + opt_pair("--key"@, v.key) + opt_pair("--cacert"@, v.cacert)
}

fn push_pair(args: &mut Vec<String>, flag: &str, v: &Option<String>)
    ensures
        strs(final(args)@) == strs(old(args)@) + opt_pair(flag@, *v),
{
    let ghost start = strs(args@);
    match v {
        Some(s) => {
            args.push(flag.to_string());
            args.push(s.clone());
            assert(strs(args@) =~= start + opt_pair(flag@, *v));
        },
        None => {
            assert(strs(args@) =~= start + opt_pair(flag@, *v));
        },
    }
}

/// Common curl arguments for the dashboard `vsoc`.
pub fn base_args(vsoc: &VsocApi) -> (args: Vec<String>)
    ensures
        strs(args@) == base_args_of(*vsoc),
{
    let mut args = vec![
        "-sS".to_string(),
        "--noproxy".to_string(),
        "*".to_string(),
        "-k".to_string(),
        "--max-time".to_string(),
        "20".to_string(),
    ];
    assert(strs(args@) =~= seq!["-sS"@, "--noproxy"@, "*"@, "-k"@, "--max-time"@, "20"@]);
    push_pair(&mut args, "--cert", &vsoc.cert);
    push_pair(&mut args, "--key", &vsoc.key);
    push_pair(&mut args, "--cacert", &vsoc.cacert);
    args
}

/// `s` without its trailing `/` characters, as `trim_end_matches('/')`.
pub open spec fn trim_slashes(s: Seq<char>) -> Seq<char>
    decreases s.len(),
{
    if s.len() > 0 && s.last() == '/' {
        trim_slashes(s.drop_last())
    } else {
        s
    }
}

/// `base` without its trailing `/` characters.
pub fn trimmed_base(base: &str) -> (s: String)
    ensures
        s@ == trim_slashes(base@),
{
    let v = crate::text::chars_of(base);
    let mut n = v.len();
    assert(v@.take(n as int) =~= v@);
    while n > 0 && v[n - 1] == '/'
        invariant
            n <= v.len(),
            v@ == base@,
            trim_slashes(base@) == trim_slashes(v@.take(n as int)),
        decreases n,
    {
        assert(v@.take(n as int).drop_last() =~= v@.take(n - 1));
        n = n - 1;
    }
    assert(trim_slashes(v@.take(n as int)) == v@.take(n as int));
    let mut out: Vec<char> = Vec::new();
    let mut i: usize = 0;
    while i < n
        invariant
            i <= n,
            n <= v.len(),
            out@ == v@.take(i as int),
        decreases n - i,
    {
        out.push(v[i]);
        assert(out@ =~= v@.take(i + 1));
        i = i + 1;
    }
    crate::text::string_of(&out)
}

/// The URL of rule `fun` of access-control domain `acd`.
pub open spec fn rule_url(base: Seq<char>, acd: i32, fun: i32) -> Seq<char> {
    trim_slashes(base) + "/api/rules/"@ + int_dec(acd as int) + "/"@ + int_dec(fun as int)
}

/// The URL of rule `fun` of access-control domain `acd`.
pub fn rules_url(base: &str, acd: i32, fun: i32) -> (url: String)
    ensures
        url@ == rule_url(base@, acd, fun),
{
    let mut url = trimmed_base(base);
    push_str(&mut url, "/api/rules/");
    push_int(&mut url, acd as i64);
    push_str(&mut url, "/");
    push_int(&mut url, fun as i64);
    url
}

/// The URL of the dashboard's latest events.
pub fn events_url(base: &str) -> (url: String)
    ensures
        url@ == trim_slashes(base@) + "/api/events?limit=100"@,
{
    let mut url = trimmed_base(base);
    push_str(&mut url, "/api/events?limit=100");
    url
}

/// The lowercase hexadecimal digit of `d < 16`.
pub open spec fn hex_digit(d: nat) -> char {
    if d < 10 {
        (48 + d) as char
    } else {
        (87 + d) as char
    }
}

/// How a character is written inside a JSON string: quote and backslash
/// escaped, the control characters below U+0020 escaped (by their short
/// form where JSON has one, else as `\u00XX` in lowercase hex), all else
/// as it is.
pub open spec fn json_escaped(c: char) -> Seq<char> {
    let u = c as u32;
    if c == '"' {
        seq!['\\', '"']
    } else if c == '\\' {
        seq!['\\', '\\']
    } else if u == 0x08 {
        seq!['\\', 'b']
    } else if u == 0x09 {
        seq!['\\', 't']
    } else if u == 0x0a {
        seq!['\\', 'n']
    } else if u == 0x0c {
        seq!['\\', 'f']
    } else if u == 0x0d {
        seq!['\\', 'r']
    } else if u < 0x20 {
        seq!['\\', 'u', '0', '0', hex_digit((u / 16) as nat), hex_digit((u % 16) as nat)]
    } else {
        seq![c]
    }
}

/// The characters of `s`, each written as inside a JSON string.
pub open spec fn json_escaped_all(s: Seq<char>) -> Seq<char>
    decreases s.len(),
{
    if s.len() == 0 {
        Seq::empty()
    } else {
        json_escaped_all(s.drop_last()) + json_escaped(s.last())
    }
}

/// The JSON string literal of `s`.
pub open spec fn json_quoted(s: Seq<char>) -> Seq<char> {
    seq!['"'] + json_escaped_all(s) + seq!['"']
}

/// `serde_json::to_string` of a `str`: the JSON string literal of `s`.
/// Claimed: it is `json_quoted(s)`, as the escape table of serde_json's
/// serializer writes it; serializing a `str` cannot fail.
#[verifier::external_body]
fn json_string_of(s: &str) -> (r: String)
    ensures
        r@ == json_quoted(s@),
{
    match serde_json::to_string(s) {
        Ok(t) => t,
        Err(_) => String::new(),
    }
}

/// The JSON body that upserts rule `content`, enabled.
pub open spec fn upsert_body_of(content: Seq<char>) -> Seq<char> {
    "{\"content\":"@ + json_quoted(content) + ",\"enabled\":true}"@
}

/// The JSON body that upserts rule `content`, enabled.
pub fn upsert_body(content: &str) -> (body: String)
    ensures
        body@ == upsert_body_of(content@),
{
    let mut body = "{\"content\":".to_string();
    push_str(&mut body, json_string_of(content).as_str());
    push_str(&mut body, ",\"enabled\":true}");
    body
}

/// The curl arguments that upsert rule `fun` with `content`.
pub open spec fn upsert_args_of(v: VsocApi, acd: i32, fun: i32, content: Seq<char>) -> Seq<Seq<char>> {
    base_args_of(v) + seq![
        "-X"@,
        "PUT"@,
        "-H"@,
        "Content-Type: application/json"@,
        "-d"@,
        upsert_body_of(content),
        rule_url(v.base_url@, acd, fun),
    ]
}

/// The curl arguments that upsert rule `fun` with `content`.
pub fn upsert_args(vsoc: &VsocApi, acd: i32, fun: i32, content: &str) -> (args: Vec<String>)
    ensures
        strs(args@) == upsert_args_of(*vsoc, acd, fun, content@),
{
    let mut args = base_args(vsoc);
    let ghost start = strs(args@);
    let tail = vec![
        "-X".to_string(),
        "PUT".to_string(),
        "-H".to_string(),
        "Content-Type: application/json".to_string(),
        "-d".to_string(),
        upsert_body(content),
        rules_url(vsoc.base_url.as_str(), acd, fun),
    ];
    let mut tail = tail;
    let ghost t = strs(tail@);
    args.append(&mut tail);
    assert(strs(args@) =~= start + t);
    assert(t =~= seq![
        "-X"@,
        "PUT"@,
        "-H"@,
        "Content-Type: application/json"@,
        "-d"@,
        upsert_body_of(content@),
        rule_url(vsoc.base_url@, acd, fun),
    ]);
    args
}

/// The curl arguments that list the dashboard's latest events.
pub fn events_args(vsoc: &VsocApi) -> (args: Vec<String>)
    ensures
        strs(args@) == base_args_of(*vsoc).push(trim_slashes(vsoc.base_url@) + "/api/events?limit=100"@),
{
    let mut args = base_args(vsoc);
    let ghost start = strs(args@);
    args.push(events_url(vsoc.base_url.as_str()));
    assert(strs(args@) =~= start.push(trim_slashes(vsoc.base_url@) + "/api/events?limit=100"@));
    args
}

/// curl did not succeed: its trimmed stderr.
#[derive(Debug)]
pub struct CurlFailed {
    pub stderr: String,
}

/// What a curl run gives: its stdout when it exited with status zero, else
/// its trimmed stderr as the error.
pub fn curl_result(out: &ProcessOutput) -> (r: Result<String, CurlFailed>)
    ensures
        out.code == Some(0i32) ==> (r matches Ok(s) && s@ == lossy_text(out.stdout@)),
        out.code != Some(0i32) ==> (r matches Err(e) && e.stderr@ == trim(lossy_text(out.stderr@))),
{
    let (code, stdout, stderr) = output_parts(out);
    let ok = match out.code {
        Some(c) => c == 0,
        None => false,
    };
    if ok {
        Ok(stdout)
    } else {
        Err(CurlFailed { stderr: trim_str(stderr.as_str()) })
    }
}

/// What the upsert reply holds: `detail` when it is a string, `ver` when it
/// is a signed number.
#[derive(Debug, Clone)]
pub struct UpsertReply {
    pub detail: Option<String>,
    pub ver: Option<i64>,
}

/// Why an upsert did not yield a rule version.
#[derive(Debug)]
pub enum UpsertError {
    /// The reply was not JSON; the trimmed reply.
    NotJson { reply: String },
    /// VSOC rejected the rule with this detail.
    Rejected { acd: i32, fun: i32, detail: String },
    /// The reply carries no version.
    MissingVer,
}

/// The version an upsert reply gives: `None` when the trimmed stdout
/// `reply` was not JSON, else a rejection when it carries a detail, else its
/// version.
pub fn upsert_outcome(acd: i32, fun: i32, reply: &str, parsed: Option<UpsertReply>) -> (r: Result<i64, UpsertError>)
    ensures
        match parsed {
            None => r matches Err(UpsertError::NotJson { reply: t }) && t@ == reply@,
            Some(p) => match p.detail {
                Some(d) => r matches Err(UpsertError::Rejected { acd: a, fun: f, detail: e })
                    && a == acd && f == fun && e@ == d@,
                None => match p.ver {
                    Some(v) => r == Ok::<i64, UpsertError>(v),
                    None => r matches Err(UpsertError::MissingVer),
                },
            },
        },
{
    match parsed {
        None => Err(UpsertError::NotJson { reply: reply.to_string() }),
        Some(p) => match p.detail {
            Some(d) => Err(UpsertError::Rejected { acd, fun, detail: d }),
            None => match p.ver {
                Some(v) => Ok(v),
                None => Err(UpsertError::MissingVer),
            },
        },
    }
}

/// Whether the dashboard's events (curl's stdout) mention `needle`.
pub fn events_mention(stdout: &str, needle: &str) -> (b: bool)
    ensures
        b == contains(stdout@, needle@),
{
    str_contains(stdout, needle)
}

} // verus!
