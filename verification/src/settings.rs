//! The `--config <file>` format: lines of `key = value`, `#` and `;`
//! comments. Each known key maps to its `FWV_*` environment variable, which
//! the command line layer then applies as a default (precedence: flag >
//! environment > config file > built-in default).

use vstd::prelude::*;

use crate::text::{chars_of, split_by, split_chars, str_eq, string_of, trim, trim_chars, views};

verus! {

/// The environment variable of a config-file key.
pub open spec fn env_of(key: Seq<char>) -> Option<Seq<char>> {
    if key == "mode"@ {
        Some("FWV_MODE"@)
    } else if key == "target_serial"@ || key == "target"@ {
        Some("FWV_TARGET"@)
    } else if key == "peer_serial"@ || key == "peer"@ {
        Some("FWV_PEER"@)
    } else if key == "peer_netns"@ {
        Some("FWV_PEER_NETNS"@)
    } else if key == "vsoc_cert"@ {
        Some("FWV_VSOC_CERT"@)
    } else if key == "vsoc_key"@ {
        Some("FWV_VSOC_KEY"@)
    } else if key == "vsoc_cacert"@ {
        Some("FWV_VSOC_CACERT"@)
    } else if key == "target_iface"@ {
        Some("FWV_TARGET_IFACE"@)
    } else if key == "peer_iface"@ {
        Some("FWV_PEER_IFACE"@)
    } else if key == "target_ip"@ {
        Some("FWV_TARGET_IP"@)
    } else if key == "peer_ip"@ {
        Some("FWV_PEER_IP"@)
    } else if key == "acd"@ {
        Some("FWV_ACD"@)
    } else if key == "fun_fw"@ {
        Some("FWV_FUN_FW"@)
    } else if key == "fun_traffic"@ {
        Some("FWV_FUN_TRAFFIC"@)
    } else if key == "reload_timeout_secs"@ {
        Some("FWV_RELOAD_TIMEOUT_SECS"@)
    } else if key == "event_settle_ms"@ {
        Some("FWV_EVENT_SETTLE_MS"@)
    } else if key == "report_confirm"@ {
        Some("FWV_REPORT_CONFIRM"@)
    } else if key == "vsoc_url"@ {
        Some("FWV_VSOC_URL"@)
    } else if key == "fw_agent"@ {
        Some("FWV_FW_AGENT"@)
    } else if key == "idps_fw"@ {
        Some("FWV_IDPS_FW"@)
    } else if key == "state_db"@ {
        Some("FWV_STATE_DB"@)
    } else if key == "app_uid"@ {
        Some("FWV_APP_UID"@)
    } else if key == "app_identity_key"@ {
        Some("FWV_APP_IDENTITY_KEY"@)
    } else if key == "app_pkg"@ {
        Some("FWV_APP_PKG"@)
    } else if key == "app_name"@ {
        Some("FWV_APP_NAME"@)
    } else if key == "veth_prefix"@ {
        Some("FWV_VETH_PREFIX"@)
    } else {
        None
    }
}

/// Map a config-file key to its `FWV_*` environment variable.
pub fn config_key_to_env(key: &str) -> (r: Option<&'static str>)
    ensures
        match env_of(key@) {
            Some(e) => r matches Some(s) && s@ == e,
            None => r is None,
        },
{
    if str_eq(key, "mode") {
        Some("FWV_MODE")
    } else if str_eq(key, "target_serial") || str_eq(key, "target") {
        Some("FWV_TARGET")
    } else if str_eq(key, "peer_serial") || str_eq(key, "peer") {
        Some("FWV_PEER")
    } else if str_eq(key, "peer_netns") {
        Some("FWV_PEER_NETNS")
    } else if str_eq(key, "vsoc_cert") {
        Some("FWV_VSOC_CERT")
    } else if str_eq(key, "vsoc_key") {
        Some("FWV_VSOC_KEY")
    } else if str_eq(key, "vsoc_cacert") {
        Some("FWV_VSOC_CACERT")
    } else if str_eq(key, "target_iface") {
        Some("FWV_TARGET_IFACE")
    } else if str_eq(key, "peer_iface") {
        Some("FWV_PEER_IFACE")
    } else if str_eq(key, "target_ip") {
        Some("FWV_TARGET_IP")
    } else if str_eq(key, "peer_ip") {
        Some("FWV_PEER_IP")
    } else if str_eq(key, "acd") {
        Some("FWV_ACD")
    } else if str_eq(key, "fun_fw") {
        Some("FWV_FUN_FW")
    } else if str_eq(key, "fun_traffic") {
        Some("FWV_FUN_TRAFFIC")
    } else if str_eq(key, "reload_timeout_secs") {
        Some("FWV_RELOAD_TIMEOUT_SECS")
    } else if str_eq(key, "event_settle_ms") {
        Some("FWV_EVENT_SETTLE_MS")
    } else if str_eq(key, "report_confirm") {
        Some("FWV_REPORT_CONFIRM")
    } else if str_eq(key, "vsoc_url") {
        Some("FWV_VSOC_URL")
    } else if str_eq(key, "fw_agent") {
        Some("FWV_FW_AGENT")
    } else if str_eq(key, "idps_fw") {
        Some("FWV_IDPS_FW")
    } else if str_eq(key, "state_db") {
        Some("FWV_STATE_DB")
    } else if str_eq(key, "app_uid") {
        Some("FWV_APP_UID")
    } else if str_eq(key, "app_identity_key") {
        Some("FWV_APP_IDENTITY_KEY")
    } else if str_eq(key, "app_pkg") {
        Some("FWV_APP_PKG")
    } else if str_eq(key, "app_name") {
        Some("FWV_APP_NAME")
    } else if str_eq(key, "veth_prefix") {
        Some("FWV_VETH_PREFIX")
    } else {
        None
    }
}

/// The ASCII lowercase of a character.
pub open spec fn ascii_lower(c: char) -> char {
    if 'A' <= c <= 'Z' {
        ((c as u32) + 32) as char
    } else {
        c
    }
}

/// The ASCII lowercase of a text, as `to_ascii_lowercase`.
pub open spec fn lower(s: Seq<char>) -> Seq<char> {
    s.map_values(|c: char| ascii_lower(c))
}

/// `s` without its leading and trailing `"` characters, as
/// `trim_matches('"')`.
pub open spec fn unquote_edges(s: Seq<char>) -> Seq<char>
    decreases s.len(),
{
    if s.len() > 0 && s[0] == '"' {
        unquote_edges(s.drop_first())
    } else if s.len() > 0 && s.last() == '"' {
        unquote_edges(s.drop_last())
    } else {
        s
    }
}

/// The index of the first `c` in `s`, if any.
pub open spec fn index_of(s: Seq<char>, c: char) -> Option<int>
    decreases s.len(),
{
    if s.len() == 0 {
        None
    } else if s[0] == c {
        Some(0)
    } else {
        match index_of(s.drop_first(), c) {
            Some(i) => Some(i + 1),
            None => None,
        }
    }
}

/// The setting one config line makes: none for a blank or comment line, a
/// line without `=`, or an unknown key; else the key's variable and the
/// trimmed, unquoted value. Keys are trimmed and matched case-insensitively.
pub open spec fn entry_of(line: Seq<char>) -> Option<(Seq<char>, Seq<char>)> {
    let t = trim(line);
    if t.len() == 0 || t[0] == '#' || t[0] == ';' {
        None
    } else {
        match index_of(t, '=') {
            None => None,
            Some(i) => match env_of(lower(trim(t.take(i)))) {
                Some(env) => Some((env, unquote_edges(trim(t.skip(i + 1))))),
                None => None,
            },
        }
    }
}

/// The settings the lines make, in order.
pub open spec fn entries_of(lines: Seq<Seq<char>>) -> Seq<(Seq<char>, Seq<char>)>
    decreases lines.len(),
{
    if lines.len() == 0 {
        Seq::empty()
    } else {
        let prev = entries_of(lines.drop_last());
        match entry_of(lines.last()) {
            Some(e) => prev.push(e),
            None => prev,
        }
    }
}

/// The settings a config file makes, in file order.
pub open spec fn config_entries(content: Seq<char>) -> Seq<(Seq<char>, Seq<char>)> {
    entries_of(split_by(content, '\n'))
}

fn lower_chars(s: &Vec<char>) -> (r: Vec<char>)
    ensures
        r@ == lower(s@),
{
    let mut r: Vec<char> = Vec::new();
    let mut i: usize = 0;
    while i < s.len()
        invariant
            i <= s.len(),
            r@ == lower(s@.take(i as int)),
        decreases s.len() - i,
    {
        let c = s[i];
        let l = if 'A' <= c && c <= 'Z' {
            ((c as u8) + 32) as char
        } else {
            c
        };
        r.push(l);
        assert(r@ =~= lower(s@.take(i + 1)));
        i = i + 1;
    }
    assert(s@.take(s.len() as int) =~= s@);
    r
}

fn strip_quotes(s: &Vec<char>) -> (r: Vec<char>)
    ensures
        r@ == unquote_edges(s@),
{
    let mut lo: usize = 0;
    let mut hi: usize = s.len();
    assert(s@.subrange(0, hi as int) =~= s@);
    while lo < hi && (s[lo] == '"' || s[hi - 1] == '"')
        invariant
            lo <= hi <= s.len(),
            unquote_edges(s@) == unquote_edges(s@.subrange(lo as int, hi as int)),
        decreases hi - lo,
    {
        let ghost cur = s@.subrange(lo as int, hi as int);
        if s[lo] == '"' {
            assert(cur.drop_first() =~= s@.subrange(lo + 1, hi as int));
            lo = lo + 1;
        } else {
            assert(cur.drop_last() =~= s@.subrange(lo as int, hi - 1));
            hi = hi - 1;
        }
    }
    let mut r: Vec<char> = Vec::new();
    let mut i: usize = lo;
    while i < hi
        invariant
            lo <= i <= hi <= s.len(),
            r@ == s@.subrange(lo as int, i as int),
        decreases hi - i,
    {
        r.push(s[i]);
        assert(r@ =~= s@.subrange(lo as int, i + 1));
        i = i + 1;
    }
    r
}

fn find_char(s: &Vec<char>, c: char) -> (r: Option<usize>)
    ensures
        r matches Some(u) ==> u < s@.len() && index_of(s@, c) == Some(u as int),
        r is None ==> index_of(s@, c) is None,
{
    let mut i: usize = 0;
    assert(s@.skip(0) =~= s@);
    while i < s.len()
        invariant
            i <= s.len(),
            index_of(s@, c) == match index_of(s@.skip(i as int), c) {
                Some(j) => Some(j + i),
                None => None,
            },
        decreases s.len() - i,
    {
        assert(s@.skip(i as int).drop_first() =~= s@.skip(i + 1));
        if s[i] == c {
            return Some(i);
        }
        i = i + 1;
    }
    assert(s@.skip(i as int).len() == 0);
    None
}

proof fn lemma_index_of_skip0(s: Seq<char>, c: char)
    ensures
        s.skip(0) == s,
{
    assert(s.skip(0) =~= s);
}

fn slice_chars(s: &Vec<char>, lo: usize, hi: usize) -> (r: Vec<char>)
    requires
        lo <= hi <= s@.len(),
    ensures
        r@ == s@.subrange(lo as int, hi as int),
{
    let mut r: Vec<char> = Vec::new();
    let mut i: usize = lo;
    while i < hi
        invariant
            lo <= i <= hi <= s.len(),
            r@ == s@.subrange(lo as int, i as int),
        decreases hi - i,
    {
        r.push(s[i]);
        assert(r@ =~= s@.subrange(lo as int, i + 1));
        i = i + 1;
    }
    r
}

/// The setting one config line makes.
fn line_entry(line: &Vec<char>) -> (r: Option<(String, String)>)
    ensures
        match entry_of(line@) {
            Some(e) => r matches Some(p) && p.0@ == e.0 && p.1@ == e.1,
            None => r is None,
        },
{
    let t = trim_chars(line);
    if t.len() == 0 || t[0] == '#' || t[0] == ';' {
        return None;
    }
    proof {
        lemma_index_of_skip0(t@, '=');
    }
    match find_char(&t, '=') {
        None => None,
        Some(i) => {
            let key_part = slice_chars(&t, 0, i);
            assert(key_part@ == t@.take(i as int));
            let value_part = slice_chars(&t, i + 1, t.len());
            assert(value_part@ == t@.skip(i + 1));
            let key = string_of(&lower_chars(&trim_chars(&key_part)));
            let value = string_of(&strip_quotes(&trim_chars(&value_part)));
            match config_key_to_env(key.as_str()) {
                Some(env) => Some((env.to_string(), value)),
                None => None,
            }
        },
    }
}

/// The settings a config file makes, in file order: `(variable, value)`.
pub fn config_entries_of(content: &str) -> (r: Vec<(String, String)>)
    ensures
        r@.map_values(|p: (String, String)| (p.0@, p.1@)) == config_entries(content@),
{
    let lines = split_chars(&chars_of(content), '\n');
    let ghost all = views(lines@);
    let mut r: Vec<(String, String)> = Vec::new();
    let mut i: usize = 0;
    while i < lines.len()
        invariant
            i <= lines.len(),
            all == views(lines@),
            all == split_by(content@, '\n'),
            r@.map_values(|p: (String, String)| (p.0@, p.1@)) == entries_of(all.take(i as int)),
        decreases lines.len() - i,
    {
        assert(all.take(i + 1).drop_last() =~= all.take(i as int));
        assert(all.take(i + 1).last() == lines@[i as int]@);
        let ghost before = r@;
        match line_entry(&lines[i]) {
            Some(p) => {
                r.push(p);
                assert(r@.map_values(|p: (String, String)| (p.0@, p.1@)) =~= before.map_values(
                    |p: (String, String)| (p.0@, p.1@),
                ).push(entry_of(lines@[i as int]@).unwrap()));
            },
            None => {},
        }
        i = i + 1;
    }
    assert(all.take(lines.len() as int) =~= all);
    r
}

/// The config file the arguments from `i` on name, `acc` being what the
/// earlier ones named: after `--config` the next argument (none when it is
/// the last), after `--config=` the rest of that argument; a later mention
/// overrides an earlier one.
pub open spec fn scan_config(args: Seq<Seq<char>>, i: int, acc: Option<Seq<char>>) -> Option<Seq<char>>
    decreases args.len() - i,
{
    if i < 0 || i >= args.len() {
        acc
    } else {
        let a = args[i];
        let p = "--config="@;
        let next = if a == "--config"@ {
            if i + 1 < args.len() {
                Some(args[i + 1])
            } else {
                None
            }
        } else if a.len() >= p.len() && a.take(p.len() as int) == p {
            Some(a.skip(p.len() as int))
        } else {
            acc
        };
        scan_config(args, i + 1, next)
    }
}

/// The config file the command line names, if any.
pub open spec fn config_path_of(args: Seq<Seq<char>>) -> Option<Seq<char>> {
    scan_config(args, 0, None)
}

/// The config file the command line `args` names, if any.
pub fn config_path(args: &Vec<String>) -> (r: Option<String>)
    ensures
        match config_path_of(args@.map_values(|s: String| s@)) {
            Some(p) => r matches Some(s) && s@ == p,
            None => r is None,
        },
{
    let ghost all = args@.map_values(|s: String| s@);
    let flag = chars_of("--config");
    let prefix = chars_of("--config=");
    let mut path: Option<String> = None;
    let mut i: usize = 0;
    while i < args.len()
        invariant
            i <= args.len(),
            all == args@.map_values(|s: String| s@),
            flag@ == "--config"@,
            prefix@ == "--config="@,
            config_path_of(all) == scan_config(
                all,
                i as int,
                match path {
                    Some(s) => Some(s@),
                    None => None,
                },
            ),
        decreases args.len() - i,
    {
        let a = chars_of(args[i].as_str());
        assert(all[i as int] == a@);
        if crate::text::chars_eq(&a, &flag) {
            path = if i + 1 < args.len() {
                Some(args[i + 1].clone())
            } else {
                None
            };
        } else if prefix.len() <= a.len() && crate::text::chars_eq(&slice_chars(&a, 0, prefix.len()), &prefix) {
            path = Some(string_of(&slice_chars(&a, prefix.len(), a.len())));
            assert(a@.skip(prefix@.len() as int) =~= a@.subrange(prefix@.len() as int, a@.len() as int));
        }
        i = i + 1;
    }
    path
}

} // verus!
