//! The two sides of a single-device test and how commands reach them.
//!
//! The TARGET is the root network namespace the tool runs in; the PEER is
//! the far end of a veth pair parked in a network namespace. Commands for the
//! PEER enter the namespace with `nsenter --net=/run/netns/<ns>`, falling
//! back to `ip netns exec <ns>` when `nsenter` is absent. Worker steps run as
//! a re-executed `<exe> agent <sub>` whose single JSON line is parsed back.
//! Running the processes is left to the caller; this module decides what
//! runs and reads what came back.

use vstd::prelude::*;

use crate::json::{json_from_str, json_text_valid, json_value_of};
use crate::net::{ipv4_octets, parse_ipv4};
use crate::text::{
    chars_of, chars_eq, push_str, split_by, split_chars, string_of, trim, trim_chars, views,
    ws_split, ws_tokens,
};

verus! {

/// What a finished process left: its exit code (none when a signal ended
/// it) and the bytes it wrote.
#[derive(Debug, Clone)]
pub struct ProcessOutput {
    pub code: Option<i32>,
    pub stdout: Vec<u8>,
    pub stderr: Vec<u8>,
}

/// The text `String::from_utf8_lossy` makes of `bytes`.
pub uninterp spec fn lossy_text(bytes: Seq<u8>) -> Seq<char>;

/// `String::from_utf8_lossy`: decodes `bytes`, replacing invalid sequences
/// with U+FFFD. Claimed: the result is `lossy_text` of the bytes, and valid
/// UTF-8 decodes to its characters.
#[verifier::external_body]
pub(crate) fn utf8_lossy(bytes: &Vec<u8>) -> (s: String)
    ensures
        s@ == lossy_text(bytes@),
        vstd::utf8::valid_utf8(bytes@) ==> s@ == vstd::utf8::decode_utf8(bytes@),
{
    String::from_utf8_lossy(bytes).to_string()
}

/// The exit code, `-1` when there is none.
pub open spec fn exit_code(code: Option<i32>) -> i32 {
    match code {
        Some(c) => c,
        None => -1i32,
    }
}

/// `(exit_code, stdout, stderr)` of a finished process.
pub fn output_parts(out: &ProcessOutput) -> (r: (i32, String, String))
    ensures
        r.0 == exit_code(out.code),
        r.1@ == lossy_text(out.stdout@),
        r.2@ == lossy_text(out.stderr@),
{
    let code = match out.code {
        Some(c) => c,
        None => -1,
    };
    (code, utf8_lossy(&out.stdout), utf8_lossy(&out.stderr))
}

/// Trimmed standard output of a finished process.
pub fn trimmed_stdout(out: &ProcessOutput) -> (s: String)
    ensures
        s@ == trim(lossy_text(out.stdout@)),
{
    let text = utf8_lossy(&out.stdout);
    let t = trim_chars(&chars_of(text.as_str()));
    string_of(&t)
}

/// Whether the process exited with status zero.
pub open spec fn succeeded(out: ProcessOutput) -> bool {
    out.code == Some(0i32)
}

/// One side of a test (TARGET or PEER) and how to run commands on it.
#[derive(Debug, Clone)]
pub enum Endpoint {
    /// The local root namespace — the TARGET, where the orchestrator runs.
    Local,
    /// The PEER, reached by entering network namespace `name`.
    Netns { name: String },
}

/// The views of a vector of strings.
pub open spec fn strs(v: Seq<String>) -> Seq<Seq<char>> {
    v.map_values(|s: String| s@)
}

/// The label of an endpoint for diagnostics.
pub open spec fn endpoint_label(e: Endpoint) -> Seq<char> {
    match e {
        Endpoint::Local => "target"@,
        Endpoint::Netns { name } => "peer:"@ + name@,
    }
}

/// The argv that runs `program` inside network namespace `name` via nsenter.
pub open spec fn nsenter_argv(name: Seq<char>, program: Seq<Seq<char>>) -> Seq<Seq<char>> {
    seq!["nsenter"@, "--net=/run/netns/"@ + name, "--"@] + program
}

/// The argv that runs `program` inside network namespace `name` via iproute2.
pub open spec fn ip_netns_argv(name: Seq<char>, program: Seq<Seq<char>>) -> Seq<Seq<char>> {
    seq!["ip"@, "netns"@, "exec"@, name] + program
}

/// The argv of a re-executed worker: `<exe> agent <args...>`.
pub open spec fn agent_argv_of(exe: Seq<char>, args: Seq<Seq<char>>) -> Seq<Seq<char>> {
    seq![exe, "agent"@] + args
}

fn string_vec_from(prefix: Vec<String>, rest: &Vec<String>) -> (v: Vec<String>)
    ensures
        strs(v@) == strs(prefix@) + strs(rest@),
{
    let mut v = prefix;
    let ghost start = strs(v@);
    let mut i: usize = 0;
    while i < rest.len()
        invariant
            i <= rest.len(),
            strs(v@) == start + strs(rest@.take(i as int)),
        decreases rest.len() - i,
    {
        let e = rest[i].clone();
        assert(e@ == rest@[i as int]@);
        let ghost old_v = v@;
        v.push(e);
        assert(strs(v@) =~= strs(old_v).push(e@));
        assert(strs(rest@.take(i + 1)) =~= strs(rest@.take(i as int)).push(rest@[i as int]@));
        assert(strs(v@) =~= start + strs(rest@.take(i + 1)));
        i = i + 1;
    }
    assert(rest@.take(rest.len() as int) =~= rest@);
    v
}

impl Endpoint {
    /// Human label for diagnostics.
    pub fn label(&self) -> (s: String)
        ensures
            s@ == endpoint_label(*self),
    {
        match self {
            Endpoint::Local => "target".to_string(),
            Endpoint::Netns { name } => {
                let mut s = "peer:".to_string();
                push_str(&mut s, name.as_str());
                s
            },
        }
    }

    /// The argv that runs `program` on this side: as it is on the TARGET;
    /// on the PEER through `nsenter`, or through `ip netns exec` when
    /// `fallback` is set (nsenter was not found).
    pub fn program_argv(&self, program: &Vec<String>, fallback: bool) -> (argv: Vec<String>)
        ensures
            strs(argv@) == match *self {
                Endpoint::Local => strs(program@),
                Endpoint::Netns { name } => if fallback {
                    ip_netns_argv(name@, strs(program@))
                } else {
                    nsenter_argv(name@, strs(program@))
                },
            },
    {
        match self {
            Endpoint::Local => {
                let v = string_vec_from(Vec::new(), program);
                assert(strs(v@) =~= strs(program@));
                v
            },
            Endpoint::Netns { name } => {
                if fallback {
                    let prefix = vec!["ip".to_string(), "netns".to_string(), "exec".to_string(), name.clone()];
                    let v = string_vec_from(prefix, program);
                    assert(strs(v@) =~= ip_netns_argv(name@, strs(program@)));
                    v
                } else {
                    let mut ns = "--net=/run/netns/".to_string();
                    push_str(&mut ns, name.as_str());
                    let prefix = vec!["nsenter".to_string(), ns, "--".to_string()];
                    let v = string_vec_from(prefix, program);
                    assert(strs(v@) =~= nsenter_argv(name@, strs(program@)));
                    v
                }
            },
        }
    }

    /// The argv of a shell snippet: `sh -c <cmd>`.
    pub fn shell_program(cmd: &str) -> (argv: Vec<String>)
        ensures
            strs(argv@) == seq!["sh"@, "-c"@, cmd@],
    {
        let v = vec!["sh".to_string(), "-c".to_string(), cmd.to_string()];
        assert(strs(v@) =~= seq!["sh"@, "-c"@, cmd@]);
        v
    }

    /// `(exit_code, stdout, stderr)` of a shell snippet run to completion on
    /// a side (`shell_program` gives its argv); the exit code is `-1` when a
    /// signal ended it.
    pub fn shell_full(out: &ProcessOutput) -> (r: (i32, String, String))
        ensures
            r.0 == exit_code(out.code),
            r.1@ == lossy_text(out.stdout@),
            r.2@ == lossy_text(out.stderr@),
    {
        output_parts(out)
    }

    /// The trimmed stdout of a shell snippet run to completion on a side.
    pub fn shell(out: &ProcessOutput) -> (s: String)
        ensures
            s@ == trim(lossy_text(out.stdout@)),
    {
        trimmed_stdout(out)
    }

    /// Build the argv for a re-executed `<exe> agent <args...>` worker.
    pub fn agent_argv(exe: &str, args: &Vec<String>) -> (argv: Vec<String>)
        ensures
            strs(argv@) == agent_argv_of(exe@, strs(args@)),
    {
        let prefix = vec![exe.to_string(), "agent".to_string()];
        let v = string_vec_from(prefix, args);
        assert(strs(v@) =~= agent_argv_of(exe@, strs(args@)));
        v
    }

    /// The shell command that lists the IPv4 addresses of `iface`.
    pub fn ipv4_query(iface: &str) -> (cmd: String)
        ensures
            cmd@ == "ip -4 addr show dev "@ + iface@,
    {
        let mut cmd = "ip -4 addr show dev ".to_string();
        push_str(&mut cmd, iface);
        cmd
    }

    /// Detect the IPv4 bound to `iface` on this side from the trimmed output
    /// of `ipv4_query(iface)`.
    pub fn detect_ipv4(&self, iface: &str, shown: &str) -> (r: Result<String, DetectError>)
        ensures
            match inet_address(shown@) {
                Some(a) => r matches Ok(s) && s@ == a,
                None => r matches Err(e) && e.iface@ == iface@ && e.label@ == endpoint_label(*self),
            },
    {
        match parse_inet(shown) {
            Some(a) => Ok(a),
            None => Err(DetectError { iface: iface.to_string(), label: self.label() }),
        }
    }
}

/// No IPv4 address could be read for an interface.
#[derive(Debug)]
pub struct DetectError {
    pub iface: String,
    pub label: String,
}

/// The first index at which `toks` holds `t`, if any.
pub open spec fn first_index_of(toks: Seq<Seq<char>>, t: Seq<char>) -> Option<int>
    decreases toks.len(),
{
    if toks.len() == 0 {
        None
    } else if toks[0] == t {
        Some(0)
    } else {
        match first_index_of(toks.drop_first(), t) {
            Some(i) => Some(i + 1),
            None => None,
        }
    }
}

/// The address in `inet 10.0.0.1/24 ...`: the token after the first `inet`
/// token, cut at its first `/`, when that is a dotted-quad IPv4 address.
pub open spec fn inet_address(out: Seq<char>) -> Option<Seq<char>> {
    let toks = ws_tokens(out);
    match first_index_of(toks, "inet"@) {
        Some(i) => if i + 1 < toks.len() {
            let addr = split_by(toks[i + 1], '/')[0];
            if ipv4_octets(addr) is Some {
                Some(addr)
            } else {
                None
            }
        } else {
            None
        },
        None => None,
    }
}

proof fn lemma_first_index_of(toks: Seq<Seq<char>>, t: Seq<char>, i: int)
    requires
        0 <= i <= toks.len(),
        forall|k: int| 0 <= k < i ==> toks[k] != t,
    ensures
        i < toks.len() && toks[i] == t ==> first_index_of(toks, t) == Some(i),
        i == toks.len() ==> first_index_of(toks, t) is None,
    decreases toks.len(),
{
    if i > 0 {
        lemma_first_index_of(toks.drop_first(), t, i - 1);
    } else if toks.len() > 0 && toks[0] != t {
        lemma_first_index_of(toks.drop_first(), t, 0);
    }
}

/// Parse `inet 10.0.0.1/24 ...` to the bare address.
pub fn parse_inet(out: &str) -> (r: Option<String>)
    ensures
        match inet_address(out@) {
            Some(a) => r matches Some(s) && s@ == a,
            None => r is None,
        },
{
    let toks = ws_split(&chars_of(out));
    let inet = chars_of("inet");
    let mut i: usize = 0;
    while i < toks.len()
        invariant
            i <= toks.len(),
            views(toks@) == ws_tokens(out@),
            inet@ == "inet"@,
            forall|k: int| 0 <= k < i ==> views(toks@)[k] != "inet"@,
        decreases toks.len() - i,
    {
        if chars_eq(&toks[i], &inet) {
            proof {
                lemma_first_index_of(views(toks@), "inet"@, i as int);
            }
            if i + 1 >= toks.len() {
                return None;
            }
            assert(views(toks@)[i as int] == "inet"@);
            let parts = split_chars(&toks[i + 1], '/');
            proof {
                crate::text::lemma_split_by_nonempty(toks@[i + 1]@, '/');
            }
            assert(views(toks@)[i + 1] == toks@[i + 1]@);
            let addr = &parts[0];
            assert(addr@ == views(parts@)[0]);
            assert(addr@ == split_by(ws_tokens(out@)[i + 1], '/')[0]);
            return match parse_ipv4(addr) {
                Some(_) => Some(string_of(addr)),
                None => None,
            };
        }
        i = i + 1;
    }
    proof {
        lemma_first_index_of(views(toks@), "inet"@, i as int);
    }
    None
}

/// The last line of `out` whose trimmed text starts with `{` or `[`,
/// trimmed.
pub open spec fn last_json_line(out: Seq<char>) -> Option<Seq<char>> {
    last_json_piece(split_by(out, '\n'))
}

/// The last trimmed piece that starts with `{` or `[`.
pub open spec fn last_json_piece(pieces: Seq<Seq<char>>) -> Option<Seq<char>>
    decreases pieces.len(),
{
    if pieces.len() == 0 {
        None
    } else {
        let t = trim(pieces.last());
        if t.len() > 0 && (t[0] == '{' || t[0] == '[') {
            Some(t)
        } else {
            last_json_piece(pieces.drop_last())
        }
    }
}

/// Why command output held no JSON.
#[derive(Debug)]
pub enum JsonOutputError {
    /// No line starts with `{` or `[`.
    NoJson,
    /// The last such line is not valid JSON.
    Invalid,
}

/// Parse JSON from command output: the whole trimmed buffer, else the last
/// JSON-looking line.
pub fn parse_json(stdout: &str) -> (r: Result<serde_json::Value, JsonOutputError>)
    ensures
        json_text_valid(trim(stdout@)) ==> r == Ok::<serde_json::Value, JsonOutputError>(
            json_value_of(trim(stdout@)),
        ),
        !json_text_valid(trim(stdout@)) ==> match last_json_line(stdout@) {
            None => r matches Err(JsonOutputError::NoJson),
            Some(l) => (r is Ok <==> json_text_valid(l)) && (r matches Ok(v) ==> v == json_value_of(l))
                && (r is Err ==> r matches Err(JsonOutputError::Invalid)),
        },
{
    let whole = string_of(&trim_chars(&chars_of(stdout)));
    assert(whole@ == trim(stdout@));
    if let Some(v) = json_from_str(whole.as_str()) {
        return Ok(v);
    }
    assert(!json_text_valid(trim(stdout@)));
    let pieces = split_chars(&chars_of(stdout), '\n');
    let mut k: usize = pieces.len();
    assert(views(pieces@).take(k as int) =~= views(pieces@));
    while k > 0
        invariant
            k <= pieces.len(),
            views(pieces@) == split_by(stdout@, '\n'),
            last_json_piece(views(pieces@)) == last_json_piece(views(pieces@).take(k as int)),
            !json_text_valid(trim(stdout@)),
        decreases k,
    {
        let t = trim_chars(&pieces[k - 1]);
        let ghost pre = views(pieces@).take(k as int);
        assert(pre.last() == pieces@[k - 1]@);
        assert(pre.drop_last() =~= views(pieces@).take(k - 1));
        if t.len() > 0 && (t[0] == '{' || t[0] == '[') {
            let line = string_of(&t);
            return match json_from_str(line.as_str()) {
                Some(v) => Ok(v),
                None => Err(JsonOutputError::Invalid),
            };
        }
        k = k - 1;
    }
    Err(JsonOutputError::NoJson)
}

/// Whether a program that could not be started on `endpoint` is started
/// again through `ip netns exec`: only on the PEER side, and only when the
/// first launcher (`nsenter`) was not found.
pub fn retry_via_netns_exec(endpoint: &Endpoint, launcher_missing: bool) -> (r: bool)
    ensures
        r == (launcher_missing && endpoint is Netns),
{
    match endpoint {
        Endpoint::Netns { .. } => launcher_missing,
        Endpoint::Local => false,
    }
}

} // verus!
