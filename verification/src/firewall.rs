//! Windows Firewall rules of the agent: the `netsh` argument lists that add and
//! remove its block rules, and the reading of the rule listing. Running
//! `netsh` is left to the caller.
use vstd::prelude::*;
use crate::intel::{ip_literal, is_ip, lines_of, str_lines};
use crate::text::{
    chars_of, concat, has_prefix, str_starts_with, str_trim, str_trim_start, string_of, trim,
    trim_start, views,
};
use crate::winpath::{file_name, file_name_of};

verus! {

/// Every rule the agent creates is named with this prefix.
pub const RULE_PREFIX: &'static str = "HispanShield-Block-";

/// The name of the rule blocking an address.
pub open spec fn ip_rule_name(ip: Seq<char>) -> Seq<char> {
    RULE_PREFIX@ + ip
}

/// The message for an address that does not parse as an IP address.
pub open spec fn invalid_ip_message(ip: Seq<char>) -> Seq<char> {
    "Invalid IP address: "@ + ip
}

/// The `netsh` arguments adding the rule that blocks outbound traffic to `ip`.
pub open spec fn block_ip_args(ip: Seq<char>) -> Seq<Seq<char>> {
    seq![
        "advfirewall"@,
        "firewall"@,
        "add"@,
        "rule"@,
        "name="@ + ip_rule_name(ip),
        "dir=out"@,
        "action=block"@,
        "remoteip="@ + ip,
        "enable=yes"@,
        "profile=any"@,
        "description=HispanShield auto-block"@,
    ]
}

/// The `netsh` arguments deleting the rule that blocks `ip`.
pub open spec fn unblock_ip_args(ip: Seq<char>) -> Seq<Seq<char>> {
    seq!["advfirewall"@, "firewall"@, "delete"@, "rule"@, "name="@ + ip_rule_name(ip)]
}

fn strings(items: Vec<&str>) -> (r: Vec<String>)
    ensures
        views(r@) == items@.map_values(|s: &str| s@),
{
    let mut r: Vec<String> = Vec::new();
    let mut i: usize = 0;
    while i < items.len()
        invariant
            i <= items.len(),
            views(r@) =~= items@.take(i as int).map_values(|s: &str| s@),
        decreases items.len() - i,
    {
        let x = String::from_str(items[i]);
        let ghost before = r@;
        r.push(x);
        assert(items@.take(i + 1).drop_last() =~= items@.take(i as int));
        assert(views(r@) =~= views(before).push(items@[i as int]@));
        i += 1;
    }
    assert(items@.take(items.len() as int) =~= items@);
    r
}

/// The `netsh` arguments that block outbound traffic to `ip`, or the error
/// when `ip` is not an IP address (checked first, so nothing reaches the shell).
pub fn block_ip_command(ip: &str) -> (r: Result<Vec<String>, String>)
    ensures
        match r {
            Ok(args) => ip_literal(ip@) && views(args@) == block_ip_args(ip@),
            Err(msg) => !ip_literal(ip@) && msg@ == invalid_ip_message(ip@),
        },
{
    if !is_ip(ip) {
        return Err(concat("Invalid IP address: ", ip));
    }
    let rule = concat(RULE_PREFIX, ip);
    let name = concat("name=", rule.as_str());
    let remote = concat("remoteip=", ip);
    let items = vec![
        "advfirewall",
        "firewall",
        "add",
        "rule",
        name.as_str(),
        "dir=out",
        "action=block",
        remote.as_str(),
        "enable=yes",
        "profile=any",
        "description=HispanShield auto-block",
    ];
    let r = strings(items);
    assert(views(r@) =~= block_ip_args(ip@));
    Ok(r)
}

/// The `netsh` arguments that delete the rule blocking `ip`, or the error when
/// `ip` is not an IP address.
pub fn unblock_ip_command(ip: &str) -> (r: Result<Vec<String>, String>)
    ensures
        match r {
            Ok(args) => ip_literal(ip@) && views(args@) == unblock_ip_args(ip@),
            Err(msg) => !ip_literal(ip@) && msg@ == invalid_ip_message(ip@),
        },
{
    if !is_ip(ip) {
        return Err(concat("Invalid IP address: ", ip));
    }
    let rule = concat(RULE_PREFIX, ip);
    let name = concat("name=", rule.as_str());
    let items = vec!["advfirewall", "firewall", "delete", "rule", name.as_str()];
    let r = strings(items);
    assert(views(r@) =~= unblock_ip_args(ip@));
    Ok(r)
}

/// The message when `netsh` fails to block `ip`.
pub fn block_ip_failure(ip: &str) -> (r: String)
    ensures
        r@ == "netsh failed to block IP "@ + ip@,
{
    concat("netsh failed to block IP ", ip)
}

/// `s` without its double quotes.
pub open spec fn without_quotes(s: Seq<char>) -> Seq<char>
    decreases s.len(),
{
    if s.len() == 0 {
        seq![]
    } else if s.last() == '"' {
        without_quotes(s.drop_last())
    } else {
        without_quotes(s.drop_last()).push(s.last())
    }
}

fn strip_quotes(s: &str) -> (r: String)
    ensures
        r@ == without_quotes(s@),
{
    let v = chars_of(s);
    let mut out: Vec<char> = Vec::new();
    let mut i: usize = 0;
    while i < v.len()
        invariant
            i <= v.len(),
            v@ == s@,
            out@ == without_quotes(v@.take(i as int)),
        decreases v.len() - i,
    {
        assert(v@.take(i + 1).drop_last() =~= v@.take(i as int));
        if v[i] != '"' {
            out.push(v[i]);
        }
        i += 1;
    }
    assert(v@.take(v.len() as int) =~= v@);
    string_of(out.as_slice())
}

/// The name of the rules blocking a program: the prefix, `prog-` and the
/// program's file name (`unknown` when the path has none).
pub open spec fn program_rule_name(path: Seq<char>) -> Seq<char> {
    RULE_PREFIX@ + "prog-"@ + match file_name_of(path) {
        Some(n) => n,
        None => "unknown"@,
    }
}

/// The `netsh` arguments adding the rule that blocks `path` in direction `dir`.
pub open spec fn block_program_args(path: Seq<char>, dir: Seq<char>) -> Seq<Seq<char>> {
    seq![
        "advfirewall"@,
        "firewall"@,
        "add"@,
        "rule"@,
        "name="@ + program_rule_name(path) + "-"@ + dir,
        "dir="@ + dir,
        "action=block"@,
        "program="@ + without_quotes(path),
        "enable=yes"@,
        "profile=any"@,
        "description=HispanShield auto-block program"@,
    ]
}

fn program_args(rule: &str, safe_path: &str, dir: &str, path: Ghost<Seq<char>>) -> (r: Vec<String>)
    requires
        rule@ == program_rule_name(path@),
        safe_path@ == without_quotes(path@),
    ensures
        views(r@) == block_program_args(path@, dir@),
{
    let named = concat(rule, "-");
    let named = concat(named.as_str(), dir);
    let name = concat("name=", named.as_str());
    let direction = concat("dir=", dir);
    let program = concat("program=", safe_path);
    let items = vec![
        "advfirewall",
        "firewall",
        "add",
        "rule",
        name.as_str(),
        direction.as_str(),
        "action=block",
        program.as_str(),
        "enable=yes",
        "profile=any",
        "description=HispanShield auto-block program",
    ];
    assert(name@ =~= "name="@ + program_rule_name(path@) + "-"@ + dir@);
    let r = strings(items);
    assert(views(r@) =~= block_program_args(path@, dir@));
    r
}

/// The two `netsh` argument lists (inbound, then outbound) that block all
/// traffic of the program at `path`, or the error for an empty path.
pub fn block_program_commands(path: &str) -> (r: Result<Vec<Vec<String>>, String>)
    ensures
        match r {
            Ok(cmds) => {
                &&& path@.len() > 0
                &&& cmds@.len() == 2
                &&& views(cmds@[0]@) == block_program_args(path@, "in"@)
                &&& views(cmds@[1]@) == block_program_args(path@, "out"@)
            },
            Err(msg) => path@.len() == 0 && msg@ == "Empty program path"@,
        },
{
    let v = chars_of(path);
    if v.len() == 0 {
        return Err(String::from_str("Empty program path"));
    }
    let safe_path = strip_quotes(path);
    let name = match file_name(path) {
        Some(n) => n,
        None => String::from_str("unknown"),
    };
    let prefixed = concat(RULE_PREFIX, "prog-");
    let rule = concat(prefixed.as_str(), name.as_str());
    assert(rule@ =~= program_rule_name(path@));
    let inbound = program_args(rule.as_str(), safe_path.as_str(), "in", Ghost(path@));
    let outbound = program_args(rule.as_str(), safe_path.as_str(), "out", Ghost(path@));
    let mut cmds: Vec<Vec<String>> = Vec::new();
    cmds.push(inbound);
    cmds.push(outbound);
    Ok(cmds)
}

/// The message when `netsh` fails to block `path` in direction `dir`.
pub fn block_program_failure(path: &str, dir: &str) -> (r: String)
    ensures
        r@ == "netsh failed to block program "@ + path@ + " direction "@ + dir@,
{
    let m = concat("netsh failed to block program ", path);
    let m = concat(m.as_str(), " direction ");
    concat(m.as_str(), dir)
}

/// The `netsh` arguments deleting every rule of the agent.
pub fn remove_all_rules_command() -> (r: Vec<String>)
    ensures
        views(r@) == seq![
            "advfirewall"@,
            "firewall"@,
            "delete"@,
            "rule"@,
            "name="@ + RULE_PREFIX@ + "*"@,
        ],
{
    let pat = concat(RULE_PREFIX, "*");
    let name = concat("name=", pat.as_str());
    let items = vec!["advfirewall", "firewall", "delete", "rule", name.as_str()];
    assert(name@ =~= "name="@ + RULE_PREFIX@ + "*"@);
    let r = strings(items);
    assert(views(r@) =~= seq![
        "advfirewall"@,
        "firewall"@,
        "delete"@,
        "rule"@,
        "name="@ + RULE_PREFIX@ + "*"@,
    ]);
    r
}

/// The `netsh` arguments listing every rule of the agent, verbosely.
pub fn list_rules_command() -> (r: Vec<String>)
    ensures
        views(r@) == seq![
            "advfirewall"@,
            "firewall"@,
            "show"@,
            "rule"@,
            "name="@ + RULE_PREFIX@ + "*"@,
            "verbose"@,
        ],
{
    let pat = concat(RULE_PREFIX, "*");
    let name = concat("name=", pat.as_str());
    let items = vec!["advfirewall", "firewall", "show", "rule", name.as_str(), "verbose"];
    assert(name@ =~= "name="@ + RULE_PREFIX@ + "*"@);
    let r = strings(items);
    assert(views(r@) =~= seq![
        "advfirewall"@,
        "firewall"@,
        "show"@,
        "rule"@,
        "name="@ + RULE_PREFIX@ + "*"@,
        "verbose"@,
    ]);
    r
}

/// Every rule the agent creates is named with `RULE_PREFIX`, so the pattern
/// that deletes and lists the agent's rules (`RULE_PREFIX*`) covers each of them.
pub proof fn lemma_created_rules_carry_prefix(ip: Seq<char>, path: Seq<char>, dir: Seq<char>)
    ensures
        has_prefix(ip_rule_name(ip), RULE_PREFIX@),
        has_prefix(program_rule_name(path) + "-"@ + dir, RULE_PREFIX@),
{
    let a = ip_rule_name(ip);
    assert(a.subrange(0, RULE_PREFIX@.len() as int) =~= RULE_PREFIX@);
    let b = program_rule_name(path) + "-"@ + dir;
    assert(b.subrange(0, RULE_PREFIX@.len() as int) =~= RULE_PREFIX@);
}

/// Unblocking an address deletes the very rule that blocking it added: both
/// commands name the same rule.
pub proof fn lemma_unblock_names_the_blocked_rule(ip: Seq<char>)
    ensures
        unblock_ip_args(ip)[4] == block_ip_args(ip)[4],
        unblock_ip_args(ip)[2] == "delete"@,
        block_ip_args(ip)[2] == "add"@,
{
}

/// `s` with every leading copy of `p` (non-empty) removed.
pub open spec fn strip_leading(s: Seq<char>, p: Seq<char>) -> Seq<char>
    decreases s.len(),
{
    if p.len() > 0 && has_prefix(s, p) {
        strip_leading(s.subrange(p.len() as int, s.len() as int), p)
    } else {
        s
    }
}

fn strip_leading_copies(s: &str, p: &str) -> (r: String)
    requires
        p@.len() > 0,
    ensures
        r@ == strip_leading(s@, p@),
{
    let v = chars_of(s);
    let pv = chars_of(p);
    let mut i: usize = 0;
    assert(v@.subrange(0, v@.len() as int) =~= v@);
    loop
        invariant
            i <= v.len(),
            v@ == s@,
            pv@ == p@,
            pv@.len() > 0,
            strip_leading(v@.subrange(i as int, v@.len() as int), pv@) == strip_leading(v@, pv@),
        decreases v.len() - i,
    {
        let rest = crate::text::sub_chars(v.as_slice(), i, v.len());
        if !crate::text::chars_starts_with(rest.as_slice(), pv.as_slice()) {
            let r = string_of(rest.as_slice());
            return r;
        }
        let ghost t = v@.subrange(i as int, v@.len() as int);
        assert(t.subrange(pv@.len() as int, t.len() as int) =~= v@.subrange(
            i + pv@.len(),
            v@.len() as int,
        ));
        i = i + pv.len();
    }
}

/// The rule name a listing line gives, when it is a `Rule Name:` line.
pub open spec fn rule_line(l: Seq<char>) -> Seq<Seq<char>> {
    if has_prefix(str_trim_start(l), "Rule Name:"@) {
        seq![str_trim(strip_leading(l, "Rule Name:"@))]
    } else {
        seq![]
    }
}

/// The rule names of a listing, from its lines, in order.
pub open spec fn rule_names_of(lines: Seq<Seq<char>>) -> Seq<Seq<char>>
    decreases lines.len(),
{
    if lines.len() == 0 {
        seq![]
    } else {
        rule_names_of(lines.drop_last()) + rule_line(lines.last())
    }
}

/// The names of the rules in a `netsh ... show rule ... verbose` listing: each
/// line whose text after leading blanks starts with `Rule Name:` gives the rest
/// of that line, trimmed.
pub fn parse_rule_names(listing: &str) -> (r: Vec<String>)
    ensures
        views(r@) == rule_names_of(str_lines(listing@)),
{
    let lines = lines_of(listing);
    let ghost ls = views(lines@);
    let mut out: Vec<String> = Vec::new();
    let mut i: usize = 0;
    while i < lines.len()
        invariant
            i <= lines.len(),
            ls == views(lines@),
            ls == str_lines(listing@),
            views(out@) == rule_names_of(ls.take(i as int)),
        decreases lines.len() - i,
    {
        let l = lines[i].as_str();
        assert(ls.take(i + 1).drop_last() =~= ls.take(i as int));
        assert(ls.take(i + 1).last() == l@);
        let lead = trim_start(l);
        if str_starts_with(lead.as_str(), "Rule Name:") {
            proof {
                reveal_strlit("Rule Name:");
            }
            let stripped = strip_leading_copies(l, "Rule Name:");
            let name = trim(stripped.as_str());
            let ghost before = out@;
            out.push(name);
            assert(views(out@) =~= views(before) + seq![name@]);
        } else {
            assert(views(out@) =~= views(out@) + Seq::<Seq<char>>::empty());
        }
        i += 1;
    }
    assert(ls.take(lines.len() as int) =~= ls);
    out
}

} // verus!
