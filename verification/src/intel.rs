//! Threat-intelligence feeds: parsing each feed format into normalised IOCs,
//! classifying raw indicators, and the bookkeeping of a feed update.
use vstd::prelude::*;
use vstd::utf8::encode_utf8;
use crate::config::{FeedConfig, FeedType, FeedsConfig};
use crate::hashing::{checksum_of_text, text_checksum};
use crate::records::{FeedStatusRow, IocEntry, IocView, ioc_views, opt_string_view};
use crate::text::{
    chars_of, chars_starts_with, concat, has_prefix, lowercase, str_eq, str_lowercase,
    str_starts_with, str_trim, string_of, sub_chars, trim, views,
};

verus! {

/// `c` is an ASCII hexadecimal digit.
pub open spec fn is_hex_digit(c: char) -> bool {
    ('0' <= c && c <= '9') || ('a' <= c && c <= 'f') || ('A' <= c && c <= 'F')
}

/// Every character of `s` is an ASCII hexadecimal digit.
pub open spec fn all_hex(s: Seq<char>) -> bool {
    forall|i: int| 0 <= i < s.len() ==> is_hex_digit(#[trigger] s[i])
}

/// What `s.parse::<core::net::IpAddr>().is_ok()` gives: `s` is an IPv4 or IPv6 address literal.
pub uninterp spec fn ip_literal(s: Seq<char>) -> bool;

/// `str::parse::<core::net::IpAddr>` succeeds; the answer is named `ip_literal`.
#[verifier::external_body]
fn parses_as_ip(s: &str) -> (r: bool)
    ensures
        r == ip_literal(s@),
{
    s.parse::<core::net::IpAddr>().is_ok()
}

/// The string is an IP address literal.
pub fn is_ip(s: &str) -> (r: bool)
    ensures
        r == ip_literal(s@),
{
    parses_as_ip(s)
}

/// `s` consists of ASCII hexadecimal digits only.
fn all_hex_of(s: &str) -> (r: bool)
    ensures
        r == all_hex(s@),
{
    let v = chars_of(s);
    let mut i: usize = 0;
    while i < v.len()
        invariant
            v@ == s@,
            i <= v.len(),
            forall|k: int| 0 <= k < i ==> is_hex_digit(#[trigger] v@[k]),
        decreases v.len() - i,
    {
        let c = v[i];
        if !(('0' <= c && c <= '9') || ('a' <= c && c <= 'f') || ('A' <= c && c <= 'F')) {
            return false;
        }
        i += 1;
    }
    true
}

/// The IOC type of a raw indicator: an IP literal, a hash by its hex length,
/// a URL by its scheme, or else a domain. (A string of hex digits is ASCII, so
/// its length in characters is its length in bytes.)
pub open spec fn ioc_type_of(v: Seq<char>) -> Seq<char> {
    if ip_literal(v) {
        "ip"@
    } else if v.len() == 64 && all_hex(v) {
        "sha256"@
    } else if v.len() == 40 && all_hex(v) {
        "sha1"@
    } else if v.len() == 32 && all_hex(v) {
        "md5"@
    } else if has_prefix(v, "http://"@) || has_prefix(v, "https://"@) {
        "url"@
    } else {
        "domain"@
    }
}

/// An indicator's inferred type: an IP literal is an `ip`; otherwise a string
/// of 64, 40 or 32 hex digits is a `sha256`, `sha1` or `md5`; otherwise a value
/// starting with `http://` or `https://` is a `url`; anything else is a
/// `domain`. Every inferred type is one of the model's IOC types.
pub proof fn lemma_inferred_type(v: Seq<char>)
    ensures
        ip_literal(v) ==> ioc_type_of(v) == "ip"@,
        !ip_literal(v) && all_hex(v) && v.len() == 64 ==> ioc_type_of(v) == "sha256"@,
        !ip_literal(v) && all_hex(v) && v.len() == 40 ==> ioc_type_of(v) == "sha1"@,
        !ip_literal(v) && all_hex(v) && v.len() == 32 ==> ioc_type_of(v) == "md5"@,
        !ip_literal(v) && !(all_hex(v) && (v.len() == 64 || v.len() == 40 || v.len() == 32))
            && (has_prefix(v, "http://"@) || has_prefix(v, "https://"@)) ==> ioc_type_of(v)
            == "url"@,
        !ip_literal(v) && !(all_hex(v) && (v.len() == 64 || v.len() == 40 || v.len() == 32))
            && !has_prefix(v, "http://"@) && !has_prefix(v, "https://"@) ==> ioc_type_of(v)
            == "domain"@,
        ioc_type_names().contains(ioc_type_of(v)),
{
    let names = ioc_type_names();
    assert(names[0] == "ip"@);
    assert(names[1] == "domain"@);
    assert(names[2] == "url"@);
    assert(names[3] == "sha256"@);
    assert(names[4] == "sha1"@);
    assert(names[5] == "md5"@);
}

/// Infer the IOC type of a raw indicator.
pub fn infer_ioc_type(value: &str) -> (r: &'static str)
    ensures
        r@ == ioc_type_of(value@),
{
    if is_ip(value) {
        return "ip";
    }
    let hex = all_hex_of(value);
    let n = chars_of(value).len();
    if n == 64 && hex {
        return "sha256";
    }
    if n == 40 && hex {
        return "sha1";
    }
    if n == 32 && hex {
        return "md5";
    }
    if str_starts_with(value, "http://") || str_starts_with(value, "https://") {
        return "url";
    }
    "domain"
}

/// `s` with every leading copy of `p` removed (`str::trim_start_matches`).
pub open spec fn strip_prefixes(s: Seq<char>, p: Seq<char>) -> Seq<char>
    decreases s.len(),
{
    if p.len() > 0 && has_prefix(s, p) {
        strip_prefixes(s.subrange(p.len() as int, s.len() as int), p)
    } else {
        s
    }
}

/// Index of the first `c` in `s`, or the length of `s`.
pub open spec fn first_index_of(s: Seq<char>, c: char) -> int
    decreases s.len(),
{
    if s.len() == 0 {
        0
    } else if s[0] == c {
        0
    } else {
        1 + first_index_of(s.subrange(1, s.len() as int), c)
    }
}

/// The part of `s` before its first `c` (the first item of `str::split(c)`).
pub open spec fn before_char(s: Seq<char>, c: char) -> Seq<char> {
    s.subrange(0, first_index_of(s, c))
}

proof fn lemma_first_index_bounds(s: Seq<char>, c: char)
    ensures
        0 <= first_index_of(s, c) <= s.len(),
        forall|k: int| 0 <= k < first_index_of(s, c) ==> s[k] != c,
        first_index_of(s, c) < s.len() ==> s[first_index_of(s, c)] == c,
    decreases s.len(),
{
    if s.len() > 0 && s[0] != c {
        let t = s.subrange(1, s.len() as int);
        lemma_first_index_bounds(t, c);
        assert forall|k: int| 0 <= k < first_index_of(s, c) implies s[k] != c by {
            if k > 0 {
                assert(s[k] == t[k - 1]);
            }
        }
    }
}

proof fn lemma_first_index_scan(s: Seq<char>, c: char, i: int)
    requires
        0 <= i <= s.len(),
        forall|k: int| 0 <= k < i ==> s[k] != c,
    ensures
        i == s.len() || s[i] == c ==> first_index_of(s, c) == i,
    decreases s.len(),
{
    if s.len() > 0 && i > 0 {
        let t = s.subrange(1, s.len() as int);
        assert forall|k: int| 0 <= k < i - 1 implies t[k] != c by {
            assert(t[k] == s[k + 1]);
        }
        lemma_first_index_scan(t, c, i - 1);
        if i < s.len() && s[i] == c {
            assert(t[i - 1] == s[i]);
        }
    }
}

/// The part of `s` before its first `c`.
fn chars_before(s: &[char], c: char) -> (r: Vec<char>)
    ensures
        r@ == before_char(s@, c),
{
    let mut i: usize = 0;
    while i < s.len() && s[i] != c
        invariant
            i <= s.len(),
            forall|k: int| 0 <= k < i ==> s@[k] != c,
        decreases s.len() - i,
    {
        i += 1;
    }
    proof {
        lemma_first_index_scan(s@, c, i as int);
    }
    sub_chars(s, 0, i)
}

/// The part of `s` before its first `c`.
pub fn split_first(s: &str, c: char) -> (r: String)
    ensures
        r@ == before_char(s@, c),
{
    let v = chars_of(s);
    let b = chars_before(v.as_slice(), c);
    string_of(b.as_slice())
}

fn strip_prefixes_of(s: &[char], p: &[char]) -> (r: Vec<char>)
    ensures
        r@ == strip_prefixes(s@, p@),
{
    let mut start: usize = 0;
    assert(s@.subrange(0, s.len() as int) =~= s@);
    if p.len() == 0 {
        return sub_chars(s, 0, s.len());
    }
    loop
        invariant
            start <= s.len(),
            p.len() > 0,
            strip_prefixes(s@.subrange(start as int, s.len() as int), p@) == strip_prefixes(
                s@,
                p@,
            ),
        decreases s.len() - start,
    {
        let rest = sub_chars(s, start, s.len());
        if chars_starts_with(rest.as_slice(), p) {
            assert(rest@.subrange(p.len() as int, rest@.len() as int) =~= s@.subrange(
                start + p.len(),
                s.len() as int,
            ));
            start = start + p.len();
        } else {
            return rest;
        }
    }
}

/// The host named by a URL: the scheme prefixes removed, then the part before
/// the first `/` and the first `?`; a bracketed IPv6 host is what lies between
/// the opening bracket and the first closing one (brackets and port dropped),
/// any other host loses its port. `None` when nothing is left.
pub open spec fn host_of_url(url: Seq<char>) -> Option<Seq<char>> {
    let u = strip_prefixes(strip_prefixes(url, "http://"@), "https://"@);
    let h = before_char(before_char(u, '/'), '?');
    let host = if has_prefix(h, "["@) {
        before_char(h.subrange(1, h.len() as int), ']')
    } else {
        before_char(h, ':')
    };
    if host.len() == 0 {
        None
    } else {
        Some(host)
    }
}

/// Extract the host (domain or IP) from a URL.
pub fn extract_host_from_url(url: &str) -> (r: Option<String>)
    ensures
        match r {
            Some(h) => host_of_url(url@) == Some(h@),
            None => host_of_url(url@) is None,
        },
{
    let s = chars_of(url);
    let http = chars_of("http://");
    let https = chars_of("https://");
    let u1 = strip_prefixes_of(s.as_slice(), http.as_slice());
    let u2 = strip_prefixes_of(u1.as_slice(), https.as_slice());
    let h1 = chars_before(u2.as_slice(), '/');
    let h = chars_before(h1.as_slice(), '?');
    proof {
        reveal_strlit("[");
        assert("["@.len() == 1 && "["@[0] == '[');
        if h@.len() > 0 && h@[0] == '[' {
            assert(h@.subrange(0, 1) =~= "["@);
        }
        if has_prefix(h@, "["@) {
            assert(h@.subrange(0, 1)[0] == h@[0]);
        }
        assert(has_prefix(h@, "["@) <==> (h@.len() > 0 && h@[0] == '['));
    }
    let host = if h.len() > 0 && h[0] == '[' {
        let inner = sub_chars(h.as_slice(), 1, h.len());
        chars_before(inner.as_slice(), ']')
    } else {
        chars_before(h.as_slice(), ':')
    };
    if host.len() == 0 {
        None
    } else {
        Some(string_of(host.as_slice()))
    }
}


/// Length in bytes of the UTF-8 encoding of `s`.
pub open spec fn utf8_len(s: Seq<char>) -> nat {
    encode_utf8(s).len()
}

/// The byte length of a string.
fn byte_len(s: &str) -> (r: usize)
    ensures
        r == utf8_len(s@),
{
    s.as_bytes().len()
}

// ---------------------------------------------------------------------------
// Outside parsers and the clock
// ---------------------------------------------------------------------------

/// The records that `csv::Reader` yields for `data`, built with
/// `ReaderBuilder::new().comment(Some(comment)).flexible(flexible)`: the first
/// record is a header and is not yielded, fields are not trimmed, and a record
/// that fails to parse is `None`.
pub uninterp spec fn csv_records(data: Seq<char>, comment: u8, flexible: bool) -> Seq<
    Option<Seq<Seq<char>>>,
>;

/// The character views of parsed CSV records.
pub open spec fn record_views(v: Seq<Option<Vec<String>>>) -> Seq<Option<Seq<Seq<char>>>> {
    v.map_values(
        |o: Option<Vec<String>>|
            match o {
                Some(r) => Some(views(r@)),
                None => None,
            },
    )
}

/// Reads every record with the `csv` crate; the result is named `csv_records`.
#[verifier::external_body]
fn read_csv(data: &str, comment: u8, flexible: bool) -> (r: Vec<Option<Vec<String>>>)
    ensures
        record_views(r@) == csv_records(data@, comment, flexible),
{
    let mut rdr = csv::ReaderBuilder::new().comment(Some(comment)).flexible(flexible).from_reader(
        data.as_bytes(),
    );
    let mut out = Vec::new();
    for rec in rdr.records() {
        out.push(
            match rec {
                Ok(r) => Some(r.iter().map(|f| f.to_string()).collect()),
                Err(_) => None,
            },
        );
    }
    out
}

/// Index of the first `c` in `s`, if any.
pub open spec fn find_char(s: Seq<char>, c: char) -> Option<int>
    decreases s.len(),
{
    if s.len() == 0 {
        None
    } else if s[0] == c {
        Some(0)
    } else {
        match find_char(s.subrange(1, s.len() as int), c) {
            Some(k) => Some(k + 1),
            None => None,
        }
    }
}

/// A line without the carriage return that ends it, if any.
pub open spec fn without_cr(l: Seq<char>) -> Seq<char> {
    if l.len() > 0 && l.last() == '\r' {
        l.drop_last()
    } else {
        l
    }
}

/// The lines of a string as `str::lines` documents them: split at `\n` or
/// `\r\n`, the final line ending optional (a bare `\r` ends no line).
pub open spec fn str_lines(s: Seq<char>) -> Seq<Seq<char>>
    decreases s.len(),
{
    if s.len() == 0 {
        seq![]
    } else {
        match find_char(s, '\n') {
            None => seq![s],
            Some(k) => if 0 <= k < s.len() {
                seq![without_cr(s.subrange(0, k))] + str_lines(s.subrange(k + 1, s.len() as int))
            } else {
                seq![]
            },
        }
    }
}

/// `str::lines`, collected, as `str_lines` states it.
#[verifier::external_body]
pub(crate) fn lines_of(s: &str) -> (r: Vec<String>)
    ensures
        views(r@) == str_lines(s@),
{
    s.lines().map(|l| l.to_string()).collect()
}

/// The value of a non-empty run of ASCII decimal digits.
pub open spec fn digits_value(d: Seq<char>) -> int
    decreases d.len(),
{
    if d.len() == 0 {
        0
    } else {
        digits_value(d.drop_last()) * 10 + (d.last() as int - '0' as int)
    }
}

/// Every character is an ASCII decimal digit.
pub open spec fn all_digits(d: Seq<char>) -> bool {
    forall|k: int| 0 <= k < d.len() ==> '0' <= #[trigger] d[k] && d[k] <= '9'
}

/// What `str::parse::<i64>` gives, as its documentation states it: an
/// optional `+` or `-` sign, then one or more ASCII digits, whose value must
/// fit in an `i64`; anything else (blanks included) is an error (`None`).
pub open spec fn i64_parse(s: Seq<char>) -> Option<i64> {
    let signed = s.len() > 0 && (s[0] == '+' || s[0] == '-');
    let digits = if signed {
        s.subrange(1, s.len() as int)
    } else {
        s
    };
    let v = if signed && s[0] == '-' {
        -digits_value(digits)
    } else {
        digits_value(digits)
    };
    if digits.len() > 0 && all_digits(digits) && i64::MIN <= v <= i64::MAX {
        Some(v as i64)
    } else {
        None
    }
}

/// `str::parse::<i64>`, as `i64_parse` states it.
#[verifier::external_body]
fn parse_i64(s: &str) -> (r: Option<i64>)
    ensures
        r == i64_parse(s@),
{
    s.parse::<i64>().ok()
}

/// A JSON document as the agent reads it. A number keeps its `i64` and its
/// `u64` readings (each `None` where `serde_json`'s `as_i64` / `as_u64` give
/// none, as for fractions); object keys are unique.
#[derive(Debug)]
pub enum JsonValue {
    Null,
    Bool(bool),
    Number(Option<i64>, Option<u64>),
    Str(String),
    Array(Vec<JsonValue>),
    Object(Vec<(String, JsonValue)>),
}

#[verifier::external_type_specification]
#[verifier::external_body]
pub struct ExSerdeJsonValue(serde_json::Value);

/// Moves a `serde_json::Value` into a `JsonValue`, variant by variant.
#[verifier::external_body]
fn json_from_value(v: serde_json::Value) -> JsonValue {
    match v {
        serde_json::Value::Null => JsonValue::Null,
        serde_json::Value::Bool(b) => JsonValue::Bool(b),
        serde_json::Value::Number(n) => JsonValue::Number(n.as_i64(), n.as_u64()),
        serde_json::Value::String(s) => JsonValue::Str(s),
        serde_json::Value::Array(a) => JsonValue::Array(a.into_iter().map(json_from_value).collect()),
        serde_json::Value::Object(m) => JsonValue::Object(
            m.into_iter().map(|(k, x)| (k, json_from_value(x))).collect(),
        ),
    }
}

/// What `serde_json::from_str::<serde_json::Value>` gives for `data`, as a
/// `JsonValue` (`None` when `data` is not JSON).
pub uninterp spec fn json_document(data: Seq<char>) -> Option<JsonValue>;

/// Parses JSON with `serde_json`; the result is named `json_document`.
#[verifier::external_body]
pub(crate) fn parse_json(data: &str) -> (r: Option<JsonValue>)
    ensures
        r == json_document(data@),
{
    match serde_json::from_str::<serde_json::Value>(data) {
        Ok(v) => Some(json_from_value(v)),
        Err(_) => None,
    }
}

// ---------------------------------------------------------------------------
// JSON access
// ---------------------------------------------------------------------------

/// The value stored under `key` in the entries of an object, if any.
pub open spec fn entries_member(entries: Seq<(String, JsonValue)>, key: Seq<char>) -> Option<JsonValue>
    decreases entries.len(),
{
    if entries.len() == 0 {
        None
    } else if entries[0].0@ == key {
        Some(entries[0].1)
    } else {
        entries_member(entries.subrange(1, entries.len() as int), key)
    }
}

/// The value stored under `key` in the entries of an object, or `Null`.
pub open spec fn entries_get(entries: Seq<(String, JsonValue)>, key: Seq<char>) -> JsonValue {
    match entries_member(entries, key) {
        Some(x) => x,
        None => JsonValue::Null,
    }
}

/// `v.get(key)` as `serde_json` answers it: the member of an object, if any.
pub open spec fn json_member(v: JsonValue, key: Seq<char>) -> Option<JsonValue> {
    match v {
        JsonValue::Object(entries) => entries_member(entries@, key),
        _ => None,
    }
}

/// `v[key]` as `serde_json` indexes: the member of an object, else `Null`.
pub open spec fn json_get(v: JsonValue, key: Seq<char>) -> JsonValue {
    match v {
        JsonValue::Object(entries) => entries_get(entries@, key),
        _ => JsonValue::Null,
    }
}

/// The string held by a JSON value.
pub open spec fn json_str(v: JsonValue) -> Option<Seq<char>> {
    match v {
        JsonValue::Str(s) => Some(s@),
        _ => None,
    }
}

fn entries_lookup<'a>(entries: &'a Vec<(String, JsonValue)>, key: &str) -> (r: Option<&'a JsonValue>)
    ensures
        match r {
            Some(x) => entries_member(entries@, key@) == Some(*x),
            None => entries_member(entries@, key@) is None,
        },
{
    let mut i: usize = 0;
    assert(entries@.subrange(0, entries@.len() as int) =~= entries@);
    while i < entries.len()
        invariant
            i <= entries.len(),
            entries_member(entries@.subrange(i as int, entries@.len() as int), key@)
                == entries_member(entries@, key@),
        decreases entries.len() - i,
    {
        let ghost rest = entries@.subrange(i as int, entries@.len() as int);
        assert(rest[0] == entries@[i as int]);
        if str_eq(entries[i].0.as_str(), key) {
            return Some(&entries[i].1);
        }
        assert(rest.subrange(1, rest.len() as int) =~= entries@.subrange(
            i + 1,
            entries@.len() as int,
        ));
        i += 1;
    }
    None
}

/// `v.get(key)`: the member of an object, if it has one.
pub fn json_lookup<'a>(v: &'a JsonValue, key: &str) -> (r: Option<&'a JsonValue>)
    ensures
        match r {
            Some(x) => json_member(*v, key@) == Some(*x),
            None => json_member(*v, key@) is None,
        },
{
    match v {
        JsonValue::Object(entries) => entries_lookup(entries, key),
        _ => None,
    }
}

/// `v[key]`: the member of an object, `None` standing for `Null`.
fn get_member<'a>(v: &'a JsonValue, key: &str) -> (r: Option<&'a JsonValue>)
    ensures
        match r {
            Some(x) => *x == json_get(*v, key@),
            None => json_get(*v, key@) == JsonValue::Null,
        },
{
    json_lookup(v, key)
}

fn member_str(v: &JsonValue, key: &str) -> (r: Option<String>)
    ensures
        match r {
            Some(s) => json_str(json_get(*v, key@)) == Some(s@),
            None => json_str(json_get(*v, key@)) is None,
        },
{
    match get_member(v, key) {
        Some(JsonValue::Str(s)) => Some(s.clone()),
        _ => None,
    }
}

// ---------------------------------------------------------------------------
// IOC building
// ---------------------------------------------------------------------------

/// The IOC with the given fields and no row id.
pub open spec fn ioc_spec(
    ty: Seq<char>,
    value: Seq<char>,
    source: Seq<char>,
    confidence: int,
    first_seen: Option<Seq<char>>,
    last_seen: Option<Seq<char>>,
    tags: Option<Seq<char>>,
    allow: bool,
) -> IocView {
    IocView {
        id: None,
        ioc_type: ty,
        value,
        source,
        confidence,
        first_seen,
        last_seen,
        tags,
        is_allowlist: allow,
    }
}

/// The sequence holding `x` when `c` holds, else the empty one.
pub open spec fn ioc_if(c: bool, x: IocView) -> Seq<IocView> {
    if c {
        seq![x]
    } else {
        seq![]
    }
}

/// The concatenation of `f` over `xs`, in order.
pub open spec fn flat_map<A>(xs: Seq<A>, f: spec_fn(A) -> Seq<IocView>) -> Seq<IocView>
    decreases xs.len(),
{
    if xs.len() == 0 {
        seq![]
    } else {
        flat_map(xs.drop_last(), f) + f(xs.last())
    }
}

proof fn lemma_flat_map_step<A>(xs: Seq<A>, f: spec_fn(A) -> Seq<IocView>, i: int)
    requires
        0 <= i < xs.len(),
    ensures
        flat_map(xs.take(i + 1), f) == flat_map(xs.take(i), f) + f(xs[i]),
{
    assert(xs.take(i + 1).drop_last() =~= xs.take(i));
}

fn clone_opt(o: &Option<String>) -> (r: Option<String>)
    ensures
        opt_string_view(r) == opt_string_view(*o),
{
    match o {
        Some(s) => Some(s.clone()),
        None => None,
    }
}

fn make_ioc(
    ty: &str,
    value: String,
    source: &str,
    confidence: i64,
    first_seen: Option<String>,
    now: &str,
    tags: Option<String>,
    allow: bool,
) -> (r: IocEntry)
    ensures
        r@ == ioc_spec(
            ty@,
            value@,
            source@,
            confidence as int,
            opt_string_view(first_seen),
            Some(now@),
            opt_string_view(tags),
            allow,
        ),
{
    IocEntry {
        id: None,
        ioc_type: String::from_str(ty),
        value,
        source: String::from_str(source),
        confidence,
        first_seen,
        last_seen: Some(String::from_str(now)),
        tags,
        is_allowlist: allow,
    }
}

fn push_ioc(out: &mut Vec<IocEntry>, e: IocEntry)
    ensures
        ioc_views(final(out)@) == ioc_views(old(out)@).push(e@),
{
    out.push(e);
    assert(ioc_views(out@) =~= ioc_views(old(out)@).push(e@));
}

fn append_iocs(out: &mut Vec<IocEntry>, more: Vec<IocEntry>)
    ensures
        ioc_views(final(out)@) == ioc_views(old(out)@) + ioc_views(more@),
{
    let ghost m = more@;
    let mut more = more;
    out.append(&mut more);
    assert(out@ =~= old(out)@ + m);
    assert(ioc_views(out@) =~= ioc_views(old(out)@) + ioc_views(m));
}

/// Field `i` of a record, or `d` when the record is shorter.
pub open spec fn field_or(rec: Seq<Seq<char>>, i: int, d: Seq<char>) -> Seq<char> {
    if 0 <= i < rec.len() {
        rec[i]
    } else {
        d
    }
}

fn get_field(rec: &Vec<String>, i: usize, d: &str) -> (r: String)
    ensures
        r@ == field_or(views(rec@), i as int, d@),
{
    if i < rec.len() {
        rec[i].clone()
    } else {
        String::from_str(d)
    }
}

/// Field `i` of a record, trimmed.
fn trimmed_field(rec: &Vec<String>, i: usize, d: &str) -> (r: String)
    ensures
        r@ == str_trim(field_or(views(rec@), i as int, d@)),
{
    let f = get_field(rec, i, d);
    trim(f.as_str())
}

/// `"["` + `t` + `"]"` with `t` quoted: a JSON array holding one string.
pub open spec fn one_tag(t: Seq<char>) -> Seq<char> {
    "[\""@ + t + "\"]"@
}

fn one_tag_of(t: &str) -> (r: String)
    ensures
        r@ == one_tag(t@),
{
    let a = concat("[\"", t);
    concat(a.as_str(), "\"]")
}


// ---------------------------------------------------------------------------
// CSV feeds
// ---------------------------------------------------------------------------

/// The byte that starts a comment line in the CSV feeds: ASCII `#`.
pub const COMMENT_BYTE: u8 = 35;

/// The column layouts of the CSV feeds.
#[derive(Debug, Clone, Copy, PartialEq, Eq, Structural)]
pub enum CsvLayout {
    /// MalwareBazaar: sha256_hash, md5_hash, sha1_hash, first_seen, ...
    MalwareBazaar,
    /// ThreatFox: first_seen_utc, ioc_id, ioc_value, ioc_type, threat_type, ..., confidence_level
    ThreatFox,
    /// URLhaus: id, dateadded, url, url_status, last_online, threat, tags, ...
    UrlHaus,
    /// A generic feed: type, value
    Custom,
}

/// The IOCs of one MalwareBazaar record: each hash column whose lowercased,
/// trimmed value has the length of its hash kind.
pub open spec fn malwarebazaar_record(rec: Seq<Seq<char>>, source: Seq<char>, now: Seq<char>) -> Seq<
    IocView,
> {
    let sha256 = str_lowercase(str_trim(field_or(rec, 0, ""@)));
    let md5 = str_lowercase(str_trim(field_or(rec, 1, ""@)));
    let sha1 = str_lowercase(str_trim(field_or(rec, 2, ""@)));
    let first = str_trim(field_or(rec, 3, ""@));
    let tags = Some("[\"malware\"]"@);
    ioc_if(
        utf8_len(sha256) == 64,
        ioc_spec("sha256"@, sha256, source, 80, Some(first), Some(now), tags, false),
    ) + ioc_if(
        utf8_len(md5) == 32,
        ioc_spec("md5"@, md5, source, 75, Some(first), Some(now), tags, false),
    ) + ioc_if(
        utf8_len(sha1) == 40,
        ioc_spec("sha1"@, sha1, source, 75, Some(first), Some(now), tags, false),
    )
}

/// The IOC type a ThreatFox `ioc_type` column names, when it is one the agent keeps
/// (other than `ip:port`).
pub open spec fn threatfox_type(t: Seq<char>) -> Option<Seq<char>> {
    if t == "domain"@ {
        Some("domain"@)
    } else if t == "url"@ {
        Some("url"@)
    } else if t == "sha256_hash"@ {
        Some("sha256"@)
    } else if t == "md5_hash"@ {
        Some("md5"@)
    } else if t == "sha1_hash"@ {
        Some("sha1"@)
    } else {
        None
    }
}

/// The IOC type names of the normalised model.
pub open spec fn ioc_type_names() -> Seq<Seq<char>> {
    seq!["ip"@, "domain"@, "url"@, "sha256"@, "sha1"@, "md5"@, "yara_rule"@]
}

/// A confidence limited to the range 0..=100.
pub open spec fn clamp_confidence(n: int) -> int {
    if n < 0 {
        0
    } else if n > 100 {
        100
    } else {
        n
    }
}

/// Clamping keeps a confidence that is already in 0..=100 and otherwise gives
/// the nearer bound.
pub proof fn lemma_clamp_confidence(n: int)
    ensures
        0 <= n <= 100 ==> clamp_confidence(n) == n,
        n < 0 ==> clamp_confidence(n) == 0,
        n > 100 ==> clamp_confidence(n) == 100,
{
}

fn known_ioc_type(t: &str) -> (r: bool)
    ensures
        r == ioc_type_names().contains(t@),
{
    let names: Vec<&str> = vec!["ip", "domain", "url", "sha256", "sha1", "md5", "yara_rule"];
    assert(crate::text::str_views(names@) =~= ioc_type_names());
    crate::text::list_contains(&names, t)
}

fn clamp_confidence_of(n: i64) -> (r: i64)
    ensures
        r as int == clamp_confidence(n as int),
{
    if n < 0 {
        0
    } else if n > 100 {
        100
    } else {
        n
    }
}

/// A MalwareBazaar row yields, in this order, a `sha256` IOC of its SHA-256
/// column (confidence 80), an `md5` IOC of its MD5 column and a `sha1` IOC of
/// its SHA-1 column (confidence 75 each), each only when that column (trimmed,
/// lowercased) has the hash's length: 64, 32 or 40 bytes. A hash never goes
/// under another kind.
pub proof fn lemma_malwarebazaar_hash_kinds(rec: Seq<Seq<char>>, source: Seq<char>, now: Seq<char>)
    ensures
        ({
            let r = malwarebazaar_record(rec, source, now);
            let sha256 = str_lowercase(str_trim(field_or(rec, 0, ""@)));
            let md5 = str_lowercase(str_trim(field_or(rec, 1, ""@)));
            let sha1 = str_lowercase(str_trim(field_or(rec, 2, ""@)));
            &&& r.len() == (if utf8_len(sha256) == 64 { 1int } else { 0 }) + (if utf8_len(md5) == 32 {
                1int
            } else {
                0
            }) + (if utf8_len(sha1) == 40 { 1int } else { 0 })
            &&& forall|i: int|
                0 <= i < r.len() ==> {
                    ||| (#[trigger] r[i]).ioc_type == "sha256"@ && r[i].value == sha256
                        && utf8_len(sha256) == 64 && r[i].confidence == 80
                    ||| r[i].ioc_type == "md5"@ && r[i].value == md5 && utf8_len(md5) == 32
                        && r[i].confidence == 75
                    ||| r[i].ioc_type == "sha1"@ && r[i].value == sha1 && utf8_len(sha1) == 40
                        && r[i].confidence == 75
                }
            &&& utf8_len(sha256) == 64 ==> r[0].ioc_type == "sha256"@ && r[0].value == sha256
        }),
{
}

/// A URLhaus row that is offline, or has no URL, yields nothing. Any other row
/// yields first a `url` IOC of its trimmed URL (confidence 75), then, when the
/// URL names a host, an IOC of that host (confidence 65), typed `ip` exactly
/// when the host is an IP literal and `domain` otherwise.
pub proof fn lemma_urlhaus_rows(rec: Seq<Seq<char>>, source: Seq<char>, now: Seq<char>)
    ensures
        ({
            let r = urlhaus_record(rec, source, now);
            let url = str_trim(field_or(rec, 2, ""@));
            let status = str_lowercase(str_trim(field_or(rec, 3, ""@)));
            &&& (url.len() == 0 || status == "offline"@) ==> r.len() == 0
            &&& !(url.len() == 0 || status == "offline"@) ==> {
                &&& r.len() == 1 + (if host_of_url(url) is Some { 1int } else { 0 })
                &&& r[0].ioc_type == "url"@
                &&& r[0].value == url
                &&& r[0].confidence == 75
                &&& (host_of_url(url) matches Some(h) ==> {
                    &&& r[1].value == h
                    &&& r[1].confidence == 65
                    &&& r[1].ioc_type == (if ip_literal(h) { "ip"@ } else { "domain"@ })
                })
            }
        }),
{
}

/// The IOC of one ThreatFox record: an `ip:port` value keeps its address part;
/// the confidence column defaults to 50 and is limited to 0..=100.
pub open spec fn threatfox_record(rec: Seq<Seq<char>>, source: Seq<char>, now: Seq<char>) -> Seq<
    IocView,
> {
    let first = str_trim(field_or(rec, 0, ""@));
    let value = str_trim(field_or(rec, 2, ""@));
    let raw_type = str_lowercase(str_trim(field_or(rec, 3, ""@)));
    let threat = str_trim(field_or(rec, 4, ""@));
    let confidence: int = match i64_parse(str_trim(field_or(rec, 6, "50"@))) {
        Some(n) => clamp_confidence(n as int),
        None => 50,
    };
    let tags = Some(one_tag(threat));
    if value.len() == 0 {
        seq![]
    } else if raw_type == "ip:port"@ {
        seq![
            ioc_spec(
                "ip"@,
                before_char(value, ':'),
                source,
                confidence,
                Some(first),
                Some(now),
                tags,
                false,
            ),
        ]
    } else {
        match threatfox_type(raw_type) {
            Some(t) => seq![
                ioc_spec(t, value, source, confidence, Some(first), Some(now), tags, false),
            ],
            None => seq![],
        }
    }
}

/// A ThreatFox row keeps the kind of its indicator: a row with a value whose
/// type column reads `md5_hash`, `sha1_hash` or `sha256_hash` (any case, any
/// surrounding blanks) yields one IOC of type `md5`, `sha1` or `sha256`, and one
/// whose type reads `domain` or `url` yields one of that type, each with the
/// row's trimmed value and confidence.
pub proof fn lemma_threatfox_keeps_kind(rec: Seq<Seq<char>>, source: Seq<char>, now: Seq<char>, kind: Seq<char>)
    requires
        kind == "md5"@ || kind == "sha1"@ || kind == "sha256"@ || kind == "domain"@ || kind
            == "url"@,
        str_lowercase(str_trim(field_or(rec, 3, ""@))) == (if kind == "domain"@ || kind == "url"@ {
            kind
        } else {
            kind + "_hash"@
        }),
        str_trim(field_or(rec, 2, ""@)).len() > 0,
    ensures
        threatfox_record(rec, source, now).len() == 1,
        threatfox_record(rec, source, now)[0].ioc_type == kind,
        threatfox_record(rec, source, now)[0].value == str_trim(field_or(rec, 2, ""@)),
        threatfox_record(rec, source, now)[0].confidence == match i64_parse(
            str_trim(field_or(rec, 6, "50"@)),
        ) {
            Some(n) => clamp_confidence(n as int),
            None => 50,
        },
{
    reveal_strlit("md5");
    reveal_strlit("sha1");
    reveal_strlit("sha256");
    reveal_strlit("domain");
    reveal_strlit("url");
    reveal_strlit("_hash");
    reveal_strlit("md5_hash");
    reveal_strlit("sha1_hash");
    reveal_strlit("sha256_hash");
    reveal_strlit("ip:port");
    let raw = str_lowercase(str_trim(field_or(rec, 3, ""@)));
    if kind == "md5"@ {
        assert("md5"@[0] != "url"@[0]);
        assert(raw =~= "md5_hash"@);
    } else if kind == "sha1"@ {
        assert(raw =~= "sha1_hash"@);
    } else if kind == "sha256"@ {
        assert("sha256"@[0] != "domain"@[0]);
        assert(raw =~= "sha256_hash"@);
    }
    assert(raw != "ip:port"@) by {
        assert(raw.len() != 7 || raw[0] != 'i');
    }
}

/// The tags URLhaus entries carry: the threat and the tag column.
pub open spec fn two_tags(a: Seq<char>, b: Seq<char>) -> Seq<char> {
    "[\""@ + a + "\",\""@ + b + "\"]"@
}

/// The IOCs of one URLhaus record: the URL unless offline, then its host.
pub open spec fn urlhaus_record(rec: Seq<Seq<char>>, source: Seq<char>, now: Seq<char>) -> Seq<
    IocView,
> {
    let date = str_trim(field_or(rec, 1, ""@));
    let url = str_trim(field_or(rec, 2, ""@));
    let status = str_lowercase(str_trim(field_or(rec, 3, ""@)));
    let threat = str_trim(field_or(rec, 5, "malware"@));
    let tags = str_trim(field_or(rec, 6, ""@));
    if url.len() == 0 || status == "offline"@ {
        seq![]
    } else {
        seq![
            ioc_spec(
                "url"@,
                url,
                source,
                75,
                Some(date),
                Some(now),
                Some(two_tags(threat, tags)),
                false,
            ),
        ] + match host_of_url(url) {
            Some(h) => seq![
                ioc_spec(
                    if ip_literal(h) {
                        "ip"@
                    } else {
                        "domain"@
                    },
                    h,
                    source,
                    65,
                    Some(date),
                    Some(now),
                    Some(one_tag(threat)),
                    false,
                ),
            ],
            None => seq![],
        }
    }
}

/// The IOC of one generic CSV record: a type column naming one of the model's
/// IOC types and a non-empty value column.
pub open spec fn custom_record(rec: Seq<Seq<char>>, source: Seq<char>, now: Seq<char>) -> Seq<
    IocView,
> {
    let ty = str_trim(field_or(rec, 0, ""@));
    let value = str_trim(field_or(rec, 1, ""@));
    if !ioc_type_names().contains(ty) || value.len() == 0 {
        seq![]
    } else {
        seq![ioc_spec(ty, value, source, 60, None, Some(now), None, false)]
    }
}

/// The IOCs of one record (none for a record that failed to parse).
pub open spec fn layout_record(
    layout: CsvLayout,
    rec: Option<Seq<Seq<char>>>,
    source: Seq<char>,
    now: Seq<char>,
) -> Seq<IocView> {
    match rec {
        None => seq![],
        Some(r) => match layout {
            CsvLayout::MalwareBazaar => malwarebazaar_record(r, source, now),
            CsvLayout::ThreatFox => threatfox_record(r, source, now),
            CsvLayout::UrlHaus => urlhaus_record(r, source, now),
            CsvLayout::Custom => custom_record(r, source, now),
        },
    }
}

/// `layout_record` for a fixed layout, source and time.
pub open spec fn layout_fn(layout: CsvLayout, source: Seq<char>, now: Seq<char>) -> spec_fn(
    Option<Seq<Seq<char>>>,
) -> Seq<IocView> {
    |r: Option<Seq<Seq<char>>>| layout_record(layout, r, source, now)
}

/// The IOCs of all records of a CSV feed, in order.
pub open spec fn csv_feed_iocs(
    layout: CsvLayout,
    recs: Seq<Option<Seq<Seq<char>>>>,
    source: Seq<char>,
    now: Seq<char>,
) -> Seq<IocView> {
    flat_map(recs, layout_fn(layout, source, now))
}

fn malwarebazaar_record_of(rec: &Vec<String>, source: &str, now: &str) -> (r: Vec<IocEntry>)
    ensures
        ioc_views(r@) == malwarebazaar_record(views(rec@), source@, now@),
{
    let sha256_t = trimmed_field(rec, 0, "");
    let sha256 = lowercase(sha256_t.as_str());
    let md5_t = trimmed_field(rec, 1, "");
    let md5 = lowercase(md5_t.as_str());
    let sha1_t = trimmed_field(rec, 2, "");
    let sha1 = lowercase(sha1_t.as_str());
    let first = trimmed_field(rec, 3, "");
    let mut out: Vec<IocEntry> = Vec::new();
    let ghost tags = Some("[\"malware\"]"@);
    if byte_len(sha256.as_str()) == 64 {
        let e = make_ioc(
            "sha256",
            sha256,
            source,
            80,
            Some(first.clone()),
            now,
            Some(String::from_str("[\"malware\"]")),
            false,
        );
        push_ioc(&mut out, e);
    }
    if byte_len(md5.as_str()) == 32 {
        let e = make_ioc(
            "md5",
            md5,
            source,
            75,
            Some(first.clone()),
            now,
            Some(String::from_str("[\"malware\"]")),
            false,
        );
        push_ioc(&mut out, e);
    }
    if byte_len(sha1.as_str()) == 40 {
        let e = make_ioc(
            "sha1",
            sha1,
            source,
            75,
            Some(first.clone()),
            now,
            Some(String::from_str("[\"malware\"]")),
            false,
        );
        push_ioc(&mut out, e);
    }
    assert(ioc_views(out@) =~= malwarebazaar_record(views(rec@), source@, now@));
    out
}

fn threatfox_type_of(t: &str) -> (r: Option<&'static str>)
    ensures
        match r {
            Some(x) => threatfox_type(t@) == Some(x@),
            None => threatfox_type(t@) is None,
        },
{
    if str_eq(t, "domain") {
        Some("domain")
    } else if str_eq(t, "url") {
        Some("url")
    } else if str_eq(t, "sha256_hash") {
        Some("sha256")
    } else if str_eq(t, "md5_hash") {
        Some("md5")
    } else if str_eq(t, "sha1_hash") {
        Some("sha1")
    } else {
        None
    }
}

fn threatfox_record_of(rec: &Vec<String>, source: &str, now: &str) -> (r: Vec<IocEntry>)
    ensures
        ioc_views(r@) == threatfox_record(views(rec@), source@, now@),
{
    let first = trimmed_field(rec, 0, "");
    let value = trimmed_field(rec, 2, "");
    let raw_t = trimmed_field(rec, 3, "");
    let raw_type = lowercase(raw_t.as_str());
    let threat = trimmed_field(rec, 4, "");
    let conf_s = trimmed_field(rec, 6, "50");
    let confidence: i64 = match parse_i64(conf_s.as_str()) {
        Some(n) => clamp_confidence_of(n),
        None => 50,
    };
    let mut out: Vec<IocEntry> = Vec::new();
    if value.as_str().is_empty() {
        assert(ioc_views(out@) =~= threatfox_record(views(rec@), source@, now@));
        return out;
    }
    if str_eq(raw_type.as_str(), "ip:port") {
        let ip = split_first(value.as_str(), ':');
        let e = make_ioc("ip", ip, source, confidence, Some(first), now, Some(one_tag_of(threat.as_str())), false);
        push_ioc(&mut out, e);
    } else {
        match threatfox_type_of(raw_type.as_str()) {
            Some(t) => {
                let e = make_ioc(
                    t,
                    value,
                    source,
                    confidence,
                    Some(first),
                    now,
                    Some(one_tag_of(threat.as_str())),
                    false,
                );
                push_ioc(&mut out, e);
            },
            None => {},
        }
    }
    assert(ioc_views(out@) =~= threatfox_record(views(rec@), source@, now@));
    out
}

fn two_tags_of(a: &str, b: &str) -> (r: String)
    ensures
        r@ == two_tags(a@, b@),
{
    let x = concat("[\"", a);
    let y = concat(x.as_str(), "\",\"");
    let z = concat(y.as_str(), b);
    concat(z.as_str(), "\"]")
}

fn urlhaus_record_of(rec: &Vec<String>, source: &str, now: &str) -> (r: Vec<IocEntry>)
    ensures
        ioc_views(r@) == urlhaus_record(views(rec@), source@, now@),
{
    let date = trimmed_field(rec, 1, "");
    let url = trimmed_field(rec, 2, "");
    let status_t = trimmed_field(rec, 3, "");
    let status = lowercase(status_t.as_str());
    let threat = trimmed_field(rec, 5, "malware");
    let tags = trimmed_field(rec, 6, "");
    let mut out: Vec<IocEntry> = Vec::new();
    if url.as_str().is_empty() || str_eq(status.as_str(), "offline") {
        assert(ioc_views(out@) =~= urlhaus_record(views(rec@), source@, now@));
        return out;
    }
    let host = extract_host_from_url(url.as_str());
    let e = make_ioc(
        "url",
        url.clone(),
        source,
        75,
        Some(date.clone()),
        now,
        Some(two_tags_of(threat.as_str(), tags.as_str())),
        false,
    );
    push_ioc(&mut out, e);
    match host {
        Some(h) => {
            let ty = if is_ip(h.as_str()) {
                "ip"
            } else {
                "domain"
            };
            let e2 = make_ioc(
                ty,
                h,
                source,
                65,
                Some(date),
                now,
                Some(one_tag_of(threat.as_str())),
                false,
            );
            push_ioc(&mut out, e2);
        },
        None => {},
    }
    assert(ioc_views(out@) =~= urlhaus_record(views(rec@), source@, now@));
    out
}

fn custom_record_of(rec: &Vec<String>, source: &str, now: &str) -> (r: Vec<IocEntry>)
    ensures
        ioc_views(r@) == custom_record(views(rec@), source@, now@),
{
    let ty = trimmed_field(rec, 0, "");
    let value = trimmed_field(rec, 1, "");
    let mut out: Vec<IocEntry> = Vec::new();
    if known_ioc_type(ty.as_str()) && !value.as_str().is_empty() {
        let e = make_ioc(ty.as_str(), value, source, 60, None, now, None, false);
        push_ioc(&mut out, e);
    }
    assert(ioc_views(out@) =~= custom_record(views(rec@), source@, now@));
    out
}

/// The IOCs of parsed CSV records under a layout, each stamped with `now` as
/// last seen, in record order.
pub fn iocs_from_records(
    layout: CsvLayout,
    records: &Vec<Option<Vec<String>>>,
    source: &str,
    now: &str,
) -> (r: Vec<IocEntry>)
    ensures
        ioc_views(r@) == csv_feed_iocs(layout, record_views(records@), source@, now@),
{
    let ghost recs = record_views(records@);
    let ghost f = layout_fn(layout, source@, now@);
    let mut out: Vec<IocEntry> = Vec::new();
    let mut i: usize = 0;
    while i < records.len()
        invariant
            i <= records.len(),
            recs == record_views(records@),
            f == layout_fn(layout, source@, now@),
            ioc_views(out@) == flat_map(recs.take(i as int), f),
        decreases records.len() - i,
    {
        let more: Vec<IocEntry> = match &records[i] {
            None => Vec::new(),
            Some(rec) => match layout {
                CsvLayout::MalwareBazaar => malwarebazaar_record_of(rec, source, now),
                CsvLayout::ThreatFox => threatfox_record_of(rec, source, now),
                CsvLayout::UrlHaus => urlhaus_record_of(rec, source, now),
                CsvLayout::Custom => custom_record_of(rec, source, now),
            },
        };
        assert(ioc_views(more@) =~= f(recs[i as int]));
        append_iocs(&mut out, more);
        proof {
            lemma_flat_map_step(recs, f, i as int);
        }
        i += 1;
    }
    assert(recs.take(records.len() as int) =~= recs);
    out
}


// ---------------------------------------------------------------------------
// Line and JSON feeds
// ---------------------------------------------------------------------------

/// A line that is neither a `#` comment nor blank.
pub open spec fn keep_line(l: Seq<char>) -> bool {
    !(l.len() > 0 && l[0] == '#') && str_trim(l).len() > 0
}

/// A plain-text feed line: a line starting with `#` or holding only blanks
/// yields nothing. Otherwise a Feodo Tracker line yields one `ip` IOC of the
/// trimmed text before its first comma (when that is not empty), confidence 85,
/// a blocking entry; a custom text line yields one IOC of its trimmed text,
/// typed by `ioc_type_of`, confidence 60, a blocking entry.
pub proof fn lemma_text_lines(l: Seq<char>, source: Seq<char>, now: Seq<char>)
    ensures
        (l.len() > 0 && l[0] == '#') || str_trim(l).len() == 0 ==> line_iocs(
            LineLayout::Feodo,
            l,
            source,
            now,
        ).len() == 0 && line_iocs(LineLayout::CustomTxt, l, source, now).len() == 0,
        !(l.len() > 0 && l[0] == '#') && str_trim(l).len() > 0 ==> {
            let t = line_iocs(LineLayout::CustomTxt, l, source, now);
            &&& t.len() == 1
            &&& t[0].value == str_trim(l)
            &&& t[0].ioc_type == ioc_type_of(str_trim(l))
            &&& t[0].confidence == 60
            &&& !t[0].is_allowlist
        },
        !(l.len() > 0 && l[0] == '#') && str_trim(before_char(l, ',')).len() > 0
            && str_trim(l).len() > 0 ==> {
            let f = line_iocs(LineLayout::Feodo, l, source, now);
            &&& f.len() == 1
            &&& f[0].value == str_trim(before_char(l, ','))
            &&& f[0].ioc_type == "ip"@
            &&& f[0].confidence == 85
            &&& !f[0].is_allowlist
        },
{
}

/// The line layouts of the plain-text feeds.
#[derive(Debug, Clone, Copy, PartialEq, Eq, Structural)]
pub enum LineLayout {
    /// Feodo Tracker: an IP address, optionally followed by `,` and more columns.
    Feodo,
    /// A generic list: one indicator per line, its type inferred.
    CustomTxt,
}

/// The IOC one line yields.
pub open spec fn line_iocs(layout: LineLayout, l: Seq<char>, source: Seq<char>, now: Seq<char>) -> Seq<
    IocView,
> {
    match layout {
        LineLayout::Feodo => {
            let ip = str_trim(before_char(l, ','));
            ioc_if(
                keep_line(l) && ip.len() > 0,
                ioc_spec(
                    "ip"@,
                    ip,
                    source,
                    85,
                    None,
                    Some(now),
                    Some("[\"c2\",\"botnet\"]"@),
                    false,
                ),
            )
        },
        LineLayout::CustomTxt => {
            let v = str_trim(l);
            ioc_if(keep_line(l), ioc_spec(ioc_type_of(v), v, source, 60, None, Some(now), None, false))
        },
    }
}

/// `line_iocs` for a fixed layout, source and time.
pub open spec fn line_fn(layout: LineLayout, source: Seq<char>, now: Seq<char>) -> spec_fn(
    Seq<char>,
) -> Seq<IocView> {
    |l: Seq<char>| line_iocs(layout, l, source, now)
}

fn line_iocs_of(layout: LineLayout, line: &str, source: &str, now: &str) -> (r: Vec<IocEntry>)
    ensures
        ioc_views(r@) == line_iocs(layout, line@, source@, now@),
{
    let mut out: Vec<IocEntry> = Vec::new();
    let v = chars_of(line);
    let comment = v.len() > 0 && v[0] == '#';
    let t = trim(line);
    let keep = !comment && !t.as_str().is_empty();
    match layout {
        LineLayout::Feodo => {
            let head = split_first(line, ',');
            let ip = trim(head.as_str());
            if keep && !ip.as_str().is_empty() {
                let e = make_ioc(
                    "ip",
                    ip,
                    source,
                    85,
                    None,
                    now,
                    Some(String::from_str("[\"c2\",\"botnet\"]")),
                    false,
                );
                push_ioc(&mut out, e);
            }
        },
        LineLayout::CustomTxt => {
            if keep {
                let ty = infer_ioc_type(t.as_str());
                let e = make_ioc(ty, t, source, 60, None, now, None, false);
                push_ioc(&mut out, e);
            }
        },
    }
    assert(ioc_views(out@) =~= line_iocs(layout, line@, source@, now@));
    out
}

/// The IOCs of the lines of a text feed, each stamped with `now` as last seen, in order.
pub fn iocs_from_lines(layout: LineLayout, lines: &Vec<String>, source: &str, now: &str) -> (r: Vec<
    IocEntry,
>)
    ensures
        ioc_views(r@) == flat_map(views(lines@), line_fn(layout, source@, now@)),
{
    let ghost ls = views(lines@);
    let ghost f = line_fn(layout, source@, now@);
    let mut out: Vec<IocEntry> = Vec::new();
    let mut i: usize = 0;
    while i < lines.len()
        invariant
            i <= lines.len(),
            ls == views(lines@),
            f == line_fn(layout, source@, now@),
            ioc_views(out@) == flat_map(ls.take(i as int), f),
        decreases lines.len() - i,
    {
        let more = line_iocs_of(layout, lines[i].as_str(), source, now);
        append_iocs(&mut out, more);
        proof {
            lemma_flat_map_step(ls, f, i as int);
        }
        i += 1;
    }
    assert(ls.take(lines.len() as int) =~= ls);
    out
}

/// A MISP warninglist's type is read as the model's: `hostname` and `domain`
/// entries are domains, `ip`, `url` and `sha256` entries keep their type, and
/// any other list is read as domains.
pub proof fn lemma_misp_types(t: Seq<char>)
    ensures
        t == "hostname"@ || t == "domain"@ ==> misp_type(t) == "domain"@,
        t == "ip"@ ==> misp_type(t) == "ip"@,
        t == "url"@ ==> misp_type(t) == "url"@,
        t == "sha256"@ ==> misp_type(t) == "sha256"@,
        !(t == "hostname"@ || t == "domain"@ || t == "ip"@ || t == "url"@ || t == "sha256"@)
            ==> misp_type(t) == "domain"@,
{
    reveal_strlit("hostname");
    reveal_strlit("domain");
    reveal_strlit("ip");
    reveal_strlit("url");
    reveal_strlit("sha256");
}

/// The IOC type a MISP warninglist `type` names.
pub open spec fn misp_type(t: Seq<char>) -> Seq<char> {
    if t == "hostname"@ || t == "domain"@ {
        "domain"@
    } else if t == "ip"@ {
        "ip"@
    } else if t == "url"@ {
        "url"@
    } else if t == "sha256"@ {
        "sha256"@
    } else {
        "domain"@
    }
}

fn misp_type_of(t: &str) -> (r: &'static str)
    ensures
        r@ == misp_type(t@),
{
    if str_eq(t, "hostname") || str_eq(t, "domain") {
        "domain"
    } else if str_eq(t, "ip") {
        "ip"
    } else if str_eq(t, "url") {
        "url"
    } else if str_eq(t, "sha256") {
        "sha256"
    } else {
        "domain"
    }
}

/// The allowlist IOC one MISP list item yields: a non-blank string.
pub open spec fn misp_item(it: JsonValue, ty: Seq<char>, source: Seq<char>, now: Seq<char>) -> Seq<
    IocView,
> {
    match it {
        JsonValue::Str(s) => ioc_if(
            str_trim(s@).len() > 0,
            ioc_spec(
                ty,
                str_trim(s@),
                source,
                90,
                None,
                Some(now),
                Some("[\"allowlist\"]"@),
                true,
            ),
        ),
        _ => seq![],
    }
}

/// `misp_item` for a fixed type, source and time.
pub open spec fn misp_fn(ty: Seq<char>, source: Seq<char>, now: Seq<char>) -> spec_fn(JsonValue) -> Seq<
    IocView,
> {
    |it: JsonValue| misp_item(it, ty, source, now)
}

/// The IOCs of a MISP warninglist document: its `list` items, typed by its
/// `type` member (`hostname` when absent).
pub open spec fn misp_iocs(doc: Option<JsonValue>, source: Seq<char>, now: Seq<char>) -> Seq<
    IocView,
> {
    match doc {
        None => seq![],
        Some(j) => {
            let t = match json_str(json_get(j, "type"@)) {
                Some(x) => x,
                None => "hostname"@,
            };
            match json_get(j, "list"@) {
                JsonValue::Array(items) => flat_map(items@, misp_fn(misp_type(t), source, now)),
                _ => seq![],
            }
        },
    }
}

fn misp_item_of(it: &JsonValue, ty: &str, source: &str, now: &str) -> (r: Vec<IocEntry>)
    ensures
        ioc_views(r@) == misp_item(*it, ty@, source@, now@),
{
    let mut out: Vec<IocEntry> = Vec::new();
    match it {
        JsonValue::Str(s) => {
            let v = trim(s.as_str());
            if !v.as_str().is_empty() {
                let e = make_ioc(
                    ty,
                    v,
                    source,
                    90,
                    None,
                    now,
                    Some(String::from_str("[\"allowlist\"]")),
                    true,
                );
                push_ioc(&mut out, e);
            }
        },
        _ => {},
    }
    assert(ioc_views(out@) =~= misp_item(*it, ty@, source@, now@));
    out
}

/// The IOCs of a parsed MISP warninglist, each stamped with `now`, in list order.
pub fn iocs_from_misp(doc: &Option<JsonValue>, source: &str, now: &str) -> (r: Vec<IocEntry>)
    ensures
        ioc_views(r@) == misp_iocs(*doc, source@, now@),
{
    let mut out: Vec<IocEntry> = Vec::new();
    match doc {
        None => {
            assert(ioc_views(out@) =~= misp_iocs(*doc, source@, now@));
            out
        },
        Some(j) => {
            let list_type = match member_str(j, "type") {
                Some(x) => x,
                None => String::from_str("hostname"),
            };
            let ty = misp_type_of(list_type.as_str());
            match get_member(j, "list") {
                Some(JsonValue::Array(items)) => {
                    let ghost f = misp_fn(ty@, source@, now@);
                    let mut i: usize = 0;
                    while i < items.len()
                        invariant
                            i <= items.len(),
                            f == misp_fn(ty@, source@, now@),
                            ioc_views(out@) == flat_map(items@.take(i as int), f),
                        decreases items.len() - i,
                    {
                        let more = misp_item_of(&items[i], ty, source, now);
                        append_iocs(&mut out, more);
                        proof {
                            lemma_flat_map_step(items@, f, i as int);
                        }
                        i += 1;
                    }
                    assert(items@.take(items.len() as int) =~= items@);
                    out
                },
                _ => {
                    assert(ioc_views(out@) =~= misp_iocs(*doc, source@, now@));
                    out
                },
            }
        },
    }
}

/// The confidence of a custom JSON item: its integer `confidence` limited to
/// 0..=100, else 60.
pub open spec fn json_confidence(it: JsonValue) -> int {
    match json_get(it, "confidence"@) {
        JsonValue::Number(Some(n), _) => clamp_confidence(n as int),
        _ => 60,
    }
}

/// The tags of a custom JSON item: its string `tags` as a one-element JSON
/// array, else none.
pub open spec fn json_tags(it: JsonValue) -> Option<Seq<char>> {
    match json_str(json_get(it, "tags"@)) {
        Some(t) => Some(one_tag(t)),
        None => None,
    }
}

/// The allowlist marker of a custom JSON item: its boolean `allowlist`, else false.
pub open spec fn json_allowlist(it: JsonValue) -> bool {
    match json_get(it, "allowlist"@) {
        JsonValue::Bool(b) => b,
        _ => false,
    }
}

/// The IOC one custom JSON item yields: a string `type` naming one of the
/// model's IOC types and a non-blank string `value`.
pub open spec fn custom_json_item(it: JsonValue, source: Seq<char>, now: Seq<char>) -> Seq<IocView> {
    match (json_str(json_get(it, "type"@)), json_str(json_get(it, "value"@))) {
        (Some(t0), Some(v0)) => ioc_if(
            ioc_type_names().contains(str_trim(t0)) && str_trim(v0).len() > 0,
            ioc_spec(
                str_trim(t0),
                str_trim(v0),
                source,
                json_confidence(it),
                None,
                Some(now),
                json_tags(it),
                json_allowlist(it),
            ),
        ),
        _ => seq![],
    }
}

/// `custom_json_item` for a fixed source and time.
pub open spec fn custom_json_fn(source: Seq<char>, now: Seq<char>) -> spec_fn(JsonValue) -> Seq<
    IocView,
> {
    |it: JsonValue| custom_json_item(it, source, now)
}

/// The IOCs of a custom JSON feed: the items of its top-level array.
pub open spec fn custom_json_iocs(doc: Option<JsonValue>, source: Seq<char>, now: Seq<char>) -> Seq<
    IocView,
> {
    match doc {
        Some(JsonValue::Array(items)) => flat_map(items@, custom_json_fn(source, now)),
        _ => seq![],
    }
}

fn custom_json_item_of(it: &JsonValue, source: &str, now: &str) -> (r: Vec<IocEntry>)
    ensures
        ioc_views(r@) == custom_json_item(*it, source@, now@),
{
    let mut out: Vec<IocEntry> = Vec::new();
    let t0 = member_str(it, "type");
    let v0 = member_str(it, "value");
    match (t0, v0) {
        (Some(t0), Some(v0)) => {
            let t = trim(t0.as_str());
            let v = trim(v0.as_str());
            if known_ioc_type(t.as_str()) && !v.as_str().is_empty() {
                let confidence: i64 = match get_member(it, "confidence") {
                    Some(JsonValue::Number(Some(n), _)) => clamp_confidence_of(*n),
                    _ => 60,
                };
                let allow: bool = match get_member(it, "allowlist") {
                    Some(JsonValue::Bool(b)) => *b,
                    _ => false,
                };
                let tags = match member_str(it, "tags") {
                    Some(t) => Some(one_tag_of(t.as_str())),
                    None => None,
                };
                let e = make_ioc(t.as_str(), v, source, confidence, None, now, tags, allow);
                push_ioc(&mut out, e);
            }
        },
        _ => {},
    }
    assert(ioc_views(out@) =~= custom_json_item(*it, source@, now@));
    out
}

/// The IOCs of a parsed custom JSON feed, each stamped with `now`, in array order.
pub fn iocs_from_custom_json(doc: &Option<JsonValue>, source: &str, now: &str) -> (r: Vec<IocEntry>)
    ensures
        ioc_views(r@) == custom_json_iocs(*doc, source@, now@),
{
    let mut out: Vec<IocEntry> = Vec::new();
    match doc {
        Some(JsonValue::Array(items)) => {
            let ghost f = custom_json_fn(source@, now@);
            let mut i: usize = 0;
            while i < items.len()
                invariant
                    i <= items.len(),
                    f == custom_json_fn(source@, now@),
                    ioc_views(out@) == flat_map(items@.take(i as int), f),
                decreases items.len() - i,
            {
                let more = custom_json_item_of(&items[i], source, now);
                append_iocs(&mut out, more);
                proof {
                    lemma_flat_map_step(items@, f, i as int);
                }
                i += 1;
            }
            assert(items@.take(items.len() as int) =~= items@);
            out
        },
        _ => {
            assert(ioc_views(out@) =~= custom_json_iocs(*doc, source@, now@));
            out
        },
    }
}


// ---------------------------------------------------------------------------
// Feeds
// ---------------------------------------------------------------------------

/// The IOCs a feed body yields under its feed type, each stamped with `now`.
/// CSV bodies are read with `#` comments and flexible record lengths.
/// Types without a parser yield nothing.
pub open spec fn feed_iocs(ty: FeedType, body: Seq<char>, source: Seq<char>, now: Seq<char>) -> Seq<
    IocView,
> {
    match ty {
        FeedType::MalwareBazaar => csv_feed_iocs(
            CsvLayout::MalwareBazaar,
            csv_records(body, COMMENT_BYTE, true),
            source,
            now,
        ),
        FeedType::ThreatFox => csv_feed_iocs(
            CsvLayout::ThreatFox,
            csv_records(body, COMMENT_BYTE, true),
            source,
            now,
        ),
        FeedType::UrlHaus => csv_feed_iocs(
            CsvLayout::UrlHaus,
            csv_records(body, COMMENT_BYTE, true),
            source,
            now,
        ),
        FeedType::CustomCsv => csv_feed_iocs(
            CsvLayout::Custom,
            csv_records(body, COMMENT_BYTE, true),
            source,
            now,
        ),
        FeedType::FeodoTracker => flat_map(str_lines(body), line_fn(LineLayout::Feodo, source, now)),
        FeedType::CustomTxt => flat_map(str_lines(body), line_fn(LineLayout::CustomTxt, source, now)),
        FeedType::MispWarninglist => misp_iocs(json_document(body), source, now),
        FeedType::CustomJson => custom_json_iocs(json_document(body), source, now),
        _ => seq![],
    }
}

/// Parse a feed body under its feed type, stamping every IOC with `now`.
pub fn feed_iocs_at(feed_type: FeedType, body: &str, source: &str, now: &str) -> (r: Vec<IocEntry>)
    ensures
        ioc_views(r@) == feed_iocs(feed_type, body@, source@, now@),
{
    match feed_type {
        FeedType::MalwareBazaar => {
            let recs = read_csv(body, COMMENT_BYTE, true);
            iocs_from_records(CsvLayout::MalwareBazaar, &recs, source, now)
        },
        FeedType::ThreatFox => {
            let recs = read_csv(body, COMMENT_BYTE, true);
            iocs_from_records(CsvLayout::ThreatFox, &recs, source, now)
        },
        FeedType::UrlHaus => {
            let recs = read_csv(body, COMMENT_BYTE, true);
            iocs_from_records(CsvLayout::UrlHaus, &recs, source, now)
        },
        FeedType::CustomCsv => {
            let recs = read_csv(body, COMMENT_BYTE, true);
            iocs_from_records(CsvLayout::Custom, &recs, source, now)
        },
        FeedType::FeodoTracker => {
            let lines = lines_of(body);
            iocs_from_lines(LineLayout::Feodo, &lines, source, now)
        },
        FeedType::CustomTxt => {
            let lines = lines_of(body);
            iocs_from_lines(LineLayout::CustomTxt, &lines, source, now)
        },
        FeedType::MispWarninglist => {
            let doc = parse_json(body);
            iocs_from_misp(&doc, source, now)
        },
        FeedType::CustomJson => {
            let doc = parse_json(body);
            iocs_from_custom_json(&doc, source, now)
        },
        _ => {
            let out: Vec<IocEntry> = Vec::new();
            assert(ioc_views(out@) =~= feed_iocs(feed_type, body@, source@, now@));
            out
        },
    }
}

/// The time stamp written for instant `t`: its RFC 3339 text, or the empty
/// string when `chrono` has no such instant.
pub open spec fn stamp_of(t: (i64, u32)) -> Seq<char> {
    match rfc3339_text(t.0, t.1) {
        Some(x) => x,
        None => seq![],
    }
}

/// `r` are the IOCs of the body under the feed type, all stamped with the
/// time stamp of one instant (the one the clock gave).
pub open spec fn parsed_feed(r: Seq<IocEntry>, ty: FeedType, body: Seq<char>, source: Seq<char>) -> bool {
    exists|t: (i64, u32)| ioc_views(r) == feed_iocs(ty, body, source, #[trigger] stamp_of(t))
}

proof fn lemma_flat_map_allowlisting<A>(xs: Seq<A>, f: spec_fn(A) -> Seq<IocView>, b: bool, i: int)
    requires
        forall|x: A, j: int| 0 <= j < f(x).len() ==> #[trigger] f(x)[j].is_allowlist == b,
        0 <= i < flat_map(xs, f).len(),
    ensures
        flat_map(xs, f)[i].is_allowlist == b,
    decreases xs.len(),
{
    let p = flat_map(xs.drop_last(), f);
    assert(flat_map(xs, f) == p + f(xs.last()));
    if i < p.len() {
        lemma_flat_map_allowlisting(xs.drop_last(), f, b, i);
    } else {
        assert(f(xs.last())[i - p.len()].is_allowlist == b);
    }
}

proof fn lemma_if_not_allowlisted(c: bool, x: IocView, j: int)
    requires
        0 <= j < ioc_if(c, x).len(),
        !x.is_allowlist,
    ensures
        !ioc_if(c, x)[j].is_allowlist,
{
}

proof fn lemma_records_not_allowlisted(layout: CsvLayout, source: Seq<char>, now: Seq<char>)
    ensures
        forall|r: Option<Seq<Seq<char>>>, j: int|
            0 <= j < layout_fn(layout, source, now)(r).len() ==> !(
            #[trigger] layout_fn(layout, source, now)(r)[j]).is_allowlist,
{
    assert forall|r: Option<Seq<Seq<char>>>, j: int|
        0 <= j < layout_fn(layout, source, now)(r).len() implies !(#[trigger] layout_fn(
            layout,
            source,
            now,
        )(r)[j]).is_allowlist by {
        match r {
            None => {},
            Some(rec) => {
                match layout {
                    CsvLayout::MalwareBazaar => {
                        let sha256 = str_lowercase(str_trim(field_or(rec, 0, ""@)));
                        let md5 = str_lowercase(str_trim(field_or(rec, 1, ""@)));
                        let sha1 = str_lowercase(str_trim(field_or(rec, 2, ""@)));
                        let first = str_trim(field_or(rec, 3, ""@));
                        let tags = Some("[\"malware\"]"@);
                        let a = ioc_if(
                            utf8_len(sha256) == 64,
                            ioc_spec("sha256"@, sha256, source, 80, Some(first), Some(now), tags, false),
                        );
                        let b = ioc_if(
                            utf8_len(md5) == 32,
                            ioc_spec("md5"@, md5, source, 75, Some(first), Some(now), tags, false),
                        );
                        let c = ioc_if(
                            utf8_len(sha1) == 40,
                            ioc_spec("sha1"@, sha1, source, 75, Some(first), Some(now), tags, false),
                        );
                        assert(malwarebazaar_record(rec, source, now) == a + b + c);
                        if j < a.len() {
                            assert((a + b + c)[j] == a[j]);
                        } else if j < a.len() + b.len() {
                            assert((a + b + c)[j] == b[j - a.len()]);
                        } else {
                            assert((a + b + c)[j] == c[j - a.len() - b.len()]);
                        }
                    },
                    CsvLayout::UrlHaus => {
                        let u = urlhaus_record(rec, source, now);
                        assert(forall|k: int| 0 <= k < u.len() ==> !(#[trigger] u[k]).is_allowlist);
                    },
                    _ => {},
                }
            },
        }
    }
}

/// Every IOC of a MISP warninglist is an allowlist entry, and the IOCs of the
/// blocklist feeds (MalwareBazaar, ThreatFox, URLhaus, Feodo Tracker and the
/// custom text and CSV feeds) never are.
pub proof fn lemma_feed_allowlisting(ty: FeedType, body: Seq<char>, source: Seq<char>, now: Seq<char>, i: int)
    requires
        0 <= i < feed_iocs(ty, body, source, now).len(),
    ensures
        ty == FeedType::MispWarninglist ==> feed_iocs(ty, body, source, now)[i].is_allowlist,
        (ty == FeedType::MalwareBazaar || ty == FeedType::ThreatFox || ty == FeedType::UrlHaus
            || ty == FeedType::FeodoTracker || ty == FeedType::CustomTxt || ty
            == FeedType::CustomCsv) ==> !feed_iocs(ty, body, source, now)[i].is_allowlist,
{
    match ty {
        FeedType::MalwareBazaar => {
            lemma_records_not_allowlisted(CsvLayout::MalwareBazaar, source, now);
            lemma_flat_map_allowlisting(csv_records(body, COMMENT_BYTE, true), layout_fn(CsvLayout::MalwareBazaar, source, now), false, i);
        },
        FeedType::ThreatFox => {
            lemma_records_not_allowlisted(CsvLayout::ThreatFox, source, now);
            lemma_flat_map_allowlisting(csv_records(body, COMMENT_BYTE, true), layout_fn(CsvLayout::ThreatFox, source, now), false, i);
        },
        FeedType::UrlHaus => {
            lemma_records_not_allowlisted(CsvLayout::UrlHaus, source, now);
            lemma_flat_map_allowlisting(csv_records(body, COMMENT_BYTE, true), layout_fn(CsvLayout::UrlHaus, source, now), false, i);
        },
        FeedType::CustomCsv => {
            lemma_records_not_allowlisted(CsvLayout::Custom, source, now);
            lemma_flat_map_allowlisting(csv_records(body, COMMENT_BYTE, true), layout_fn(CsvLayout::Custom, source, now), false, i);
        },
        FeedType::FeodoTracker => {
            let f = line_fn(LineLayout::Feodo, source, now);
            assert forall|l: Seq<char>, j: int| 0 <= j < f(l).len() implies !(#[trigger] f(l)[j]).is_allowlist by {}
            lemma_flat_map_allowlisting(str_lines(body), f, false, i);
        },
        FeedType::CustomTxt => {
            let f = line_fn(LineLayout::CustomTxt, source, now);
            assert forall|l: Seq<char>, j: int| 0 <= j < f(l).len() implies !(#[trigger] f(l)[j]).is_allowlist by {}
            lemma_flat_map_allowlisting(str_lines(body), f, false, i);
        },
        FeedType::MispWarninglist => {
            let doc = json_document(body);
            if let Some(j) = doc {
                let t = match json_str(json_get(j, "type"@)) {
                    Some(x) => x,
                    None => "hostname"@,
                };
                if let JsonValue::Array(items) = json_get(j, "list"@) {
                    let f = misp_fn(misp_type(t), source, now);
                    assert forall|it: JsonValue, k: int| 0 <= k < f(it).len() implies (#[trigger] f(it)[k]).is_allowlist by {}
                    lemma_flat_map_allowlisting(items@, f, true, i);
                }
            }
        },
        _ => {},
    }
}

/// The first status row with the given feed name.
pub open spec fn first_named(rows: Seq<FeedStatusRow>, name: Seq<char>) -> Option<FeedStatusRow>
    decreases rows.len(),
{
    if rows.len() == 0 {
        None
    } else if rows[0].name@ == name {
        Some(rows[0])
    } else {
        first_named(rows.subrange(1, rows.len() as int), name)
    }
}

/// What `chrono::DateTime::parse_from_rfc3339` gives for `s`, as its Unix
/// timestamp and sub-second nanoseconds (`None` when `s` is not RFC 3339).
pub uninterp spec fn rfc3339_instant(s: Seq<char>) -> Option<(i64, u32)>;

/// `chrono::DateTime::parse_from_rfc3339`, read as (`timestamp`,
/// `timestamp_subsec_nanos`); the result is named `rfc3339_instant`.
#[verifier::external_body]
fn parse_rfc3339(s: &str) -> (r: Option<(i64, u32)>)
    ensures
        r == rfc3339_instant(s@),
{
    match chrono::DateTime::parse_from_rfc3339(s) {
        Ok(d) => Some((d.timestamp(), d.timestamp_subsec_nanos())),
        Err(_) => None,
    }
}

/// The current UTC instant (`chrono::Utc::now()`) as (`timestamp`,
/// `timestamp_subsec_nanos`); nothing is stated of it.
#[verifier::external_body]
fn utc_now_instant() -> (i64, u32) {
    let n = chrono::Utc::now();
    (n.timestamp(), n.timestamp_subsec_nanos())
}

/// The TTL, read as a signed hour count the way `ttl as i64` does, fits a
/// `chrono::TimeDelta` (whose bound is `i64::MAX` milliseconds).
pub open spec fn ttl_in_range(ttl_hours: u64) -> bool {
    -2562047788015 <= (ttl_hours as i64) <= 2562047788015
}

/// The instant `now` lies strictly after `t` (both as seconds and nanoseconds).
pub open spec fn after(now: (i64, u32), t: (i64, u32)) -> bool {
    now.0 > t.0 || (now.0 == t.0 && now.1 > t.1)
}

/// A feed needs an update at instant `now`: the status rows could not be read,
/// it has no row or no parseable next-update time, or `now` is past that time.
pub open spec fn needs_update_at(statuses: Option<Seq<FeedStatusRow>>, feed: FeedConfig, now: (
    i64,
    u32,
)) -> bool {
    match statuses {
        None => true,
        Some(rows) => match first_named(rows, feed.name@) {
            None => true,
            Some(row) => match row.next_update {
                None => true,
                Some(ts) => match rfc3339_instant(ts@) {
                    None => true,
                    Some(next) => after(now, next),
                },
            },
        },
    }
}

/// The view of optional status rows.
pub open spec fn rows_view(statuses: Option<&Vec<FeedStatusRow>>) -> Option<Seq<FeedStatusRow>> {
    match statuses {
        Some(v) => Some(v@),
        None => None,
    }
}

fn find_status<'a>(rows: &'a Vec<FeedStatusRow>, name: &str) -> (r: Option<&'a FeedStatusRow>)
    ensures
        match r {
            Some(x) => first_named(rows@, name@) == Some(*x),
            None => first_named(rows@, name@) is None,
        },
{
    let mut i: usize = 0;
    assert(rows@.subrange(0, rows@.len() as int) =~= rows@);
    while i < rows.len()
        invariant
            i <= rows.len(),
            first_named(rows@.subrange(i as int, rows@.len() as int), name@) == first_named(
                rows@,
                name@,
            ),
        decreases rows.len() - i,
    {
        let ghost rest = rows@.subrange(i as int, rows@.len() as int);
        assert(rest[0] == rows@[i as int]);
        if str_eq(rows[i].name.as_str(), name) {
            return Some(&rows[i]);
        }
        assert(rest.subrange(1, rest.len() as int) =~= rows@.subrange(i + 1, rows@.len() as int));
        i += 1;
    }
    None
}

/// Whether a feed needs an update at instant `now`, as `needs_update_at` states it.
pub fn feed_needs_update_at(statuses: Option<&Vec<FeedStatusRow>>, feed: &FeedConfig, now: (
    i64,
    u32,
)) -> (r: bool)
    ensures
        r == needs_update_at(rows_view(statuses), *feed, now),
{
    match statuses {
        None => true,
        Some(rows) => match find_status(rows, feed.name.as_str()) {
            None => true,
            Some(row) => match &row.next_update {
                None => true,
                Some(ts) => match parse_rfc3339(ts.as_str()) {
                    None => true,
                    Some(next) => now.0 > next.0 || (now.0 == next.0 && now.1 > next.1),
                },
            },
        },
    }
}

/// The indices, in order, of the enabled feeds among the first `n` that need
/// an update at instant `now`.
pub open spec fn due_feeds(
    feeds: Seq<FeedConfig>,
    statuses: Option<Seq<FeedStatusRow>>,
    now: (i64, u32),
    n: int,
) -> Seq<usize>
    decreases n,
{
    if n <= 0 {
        seq![]
    } else {
        due_feeds(feeds, statuses, now, n - 1) + if feeds[n - 1].enabled && needs_update_at(
            statuses,
            feeds[n - 1],
            now,
        ) {
            seq![(n - 1) as usize]
        } else {
            seq![]
        }
    }
}

/// The status row of a feed whose download has started.
pub fn updating_status(name: &str) -> (r: FeedStatusRow)
    ensures
        r.name@ == name@,
        r.last_updated is None,
        r.next_update is None,
        r.ioc_count == 0,
        r.status@ == "Updating"@,
        r.error_msg is None,
        r.checksum is None,
{
    FeedStatusRow {
        name: String::from_str(name),
        last_updated: None,
        next_update: None,
        ioc_count: 0,
        status: String::from_str("Updating"),
        error_msg: None,
        checksum: None,
    }
}

/// The status row of a feed whose download failed with `msg`.
pub fn error_status(name: &str, msg: String) -> (r: FeedStatusRow)
    ensures
        r.name@ == name@,
        r.last_updated is None,
        r.next_update is None,
        r.ioc_count == 0,
        r.status@ == "Error"@,
        r.error_msg == Some(msg),
        r.checksum is None,
{
    FeedStatusRow {
        name: String::from_str(name),
        last_updated: None,
        next_update: None,
        ioc_count: 0,
        status: String::from_str("Error"),
        error_msg: Some(msg),
        checksum: None,
    }
}

/// The status row of a feed that imported `count` IOCs at `updated`, next due
/// at `next`, from a body with the given checksum.
pub fn ok_status(name: &str, updated: String, next: String, count: usize, checksum: String) -> (r:
    FeedStatusRow)
    ensures
        r.name@ == name@,
        r.last_updated == Some(updated),
        r.next_update == Some(next),
        r.ioc_count == count as i64,
        r.status@ == "OK"@,
        r.error_msg is None,
        r.checksum == Some(checksum),
{
    FeedStatusRow {
        name: String::from_str(name),
        last_updated: Some(updated),
        next_update: Some(next),
        ioc_count: count as i64,
        status: String::from_str("OK"),
        error_msg: None,
        checksum: Some(checksum),
    }
}

/// The RFC 3339 text `chrono` writes for the UTC instant `secs` seconds and
/// `nanos` nanoseconds after the epoch (`None` when `chrono` has no such instant).
pub uninterp spec fn rfc3339_text(secs: i64, nanos: u32) -> Option<Seq<char>>;

/// `chrono::DateTime::<Utc>::from_timestamp` then `to_rfc3339`; the result is
/// named `rfc3339_text`.
#[verifier::external_body]
fn format_rfc3339(secs: i64, nanos: u32) -> (r: Option<String>)
    ensures
        opt_string_view(r) == rfc3339_text(secs, nanos),
{
    chrono::DateTime::from_timestamp(secs, nanos).map(|d| d.to_rfc3339())
}

/// When a feed refreshed at instant `now` was updated and is next due
/// (`ttl_hours` hours on), as RFC 3339 text; `None` when either instant is out
/// of `chrono`'s range.
pub open spec fn due_times(now: (i64, u32), ttl_hours: u64) -> Option<(Seq<char>, Seq<char>)> {
    let next = now.0 + (ttl_hours as i64) * 3600;
    if i64::MIN <= next <= i64::MAX {
        match (rfc3339_text(now.0, now.1), rfc3339_text(next as i64, now.1)) {
            (Some(a), Some(b)) => Some((a, b)),
            _ => None,
        }
    } else {
        None
    }
}

/// What a successful download leaves to store: the feed's IOCs and its status row.
#[derive(Debug)]
pub struct FeedRefresh {
    pub iocs: Vec<IocEntry>,
    pub status: FeedStatusRow,
}

/// The feeds configuration and its parsers. Downloading and storing stay with the caller.
pub struct FeedManager {
    pub config: FeedsConfig,
}

impl FeedManager {
    /// A manager for the given feeds.
    pub fn new(config: FeedsConfig) -> (r: FeedManager)
        ensures
            r.config == config,
    {
        FeedManager { config }
    }

    /// Parse a downloaded body under its feed type, stamping the IOCs with the current time.
    pub fn parse_feed(&self, feed_type: FeedType, body: &str, source: &str) -> (r: Vec<IocEntry>)
        ensures
            parsed_feed(r@, feed_type, body@, source@),
    {
        let instant = utc_now_instant();
        let now = match format_rfc3339(instant.0, instant.1) {
            Some(t) => t,
            None => String::new(),
        };
        let r = feed_iocs_at(feed_type, body, source, now.as_str());
        assert(now@ == stamp_of(instant));
        assert(ioc_views(r@) == feed_iocs(feed_type, body@, source@, stamp_of(instant)));
        r
    }

    /// Parse MalwareBazaar CSV export (sha256_hash, md5_hash, sha1_hash, first_seen, ...).
    pub fn parse_malwarebazaar_csv(&self, data: &str, source: &str) -> (r: Vec<IocEntry>)
        ensures
            parsed_feed(r@, FeedType::MalwareBazaar, data@, source@),
    {
        self.parse_feed(FeedType::MalwareBazaar, data, source)
    }

    /// Parse ThreatFox CSV (first_seen_utc, ioc_id, ioc_value, ioc_type, threat_type, ...).
    pub fn parse_threatfox_csv(&self, data: &str, source: &str) -> (r: Vec<IocEntry>)
        ensures
            parsed_feed(r@, FeedType::ThreatFox, data@, source@),
    {
        self.parse_feed(FeedType::ThreatFox, data, source)
    }

    /// Parse URLhaus CSV (id, dateadded, url, url_status, last_online, threat, tags, ...).
    pub fn parse_urlhaus_csv(&self, data: &str, source: &str) -> (r: Vec<IocEntry>)
        ensures
            parsed_feed(r@, FeedType::UrlHaus, data@, source@),
    {
        self.parse_feed(FeedType::UrlHaus, data, source)
    }

    /// Parse Feodo Tracker IP blocklist (plain text, one IP per line, # comments).
    pub fn parse_feodo_txt(&self, data: &str, source: &str) -> (r: Vec<IocEntry>)
        ensures
            parsed_feed(r@, FeedType::FeodoTracker, data@, source@),
    {
        self.parse_feed(FeedType::FeodoTracker, data, source)
    }

    /// Parse a MISP warninglist ({"type": ..., "list": [...]}): allowlist entries.
    pub fn parse_misp_warninglist(&self, data: &str, source: &str) -> (r: Vec<IocEntry>)
        ensures
            parsed_feed(r@, FeedType::MispWarninglist, data@, source@),
    {
        self.parse_feed(FeedType::MispWarninglist, data, source)
    }

    /// Parse a plain-text feed with one IOC per line.
    pub fn parse_custom_txt(&self, data: &str, source: &str) -> (r: Vec<IocEntry>)
        ensures
            parsed_feed(r@, FeedType::CustomTxt, data@, source@),
    {
        self.parse_feed(FeedType::CustomTxt, data, source)
    }

    /// Parse a generic CSV feed with at least two columns: type, value.
    pub fn parse_custom_csv(&self, data: &str, source: &str) -> (r: Vec<IocEntry>)
        ensures
            parsed_feed(r@, FeedType::CustomCsv, data@, source@),
    {
        self.parse_feed(FeedType::CustomCsv, data, source)
    }

    /// Parse a JSON array feed: [{"type":"...","value":"...","confidence":N}, ...].
    pub fn parse_custom_json(&self, data: &str, source: &str) -> (r: Vec<IocEntry>)
        ensures
            parsed_feed(r@, FeedType::CustomJson, data@, source@),
    {
        self.parse_feed(FeedType::CustomJson, data, source)
    }

    /// The IOCs of a feed's downloaded body and the `OK` status row recording
    /// how many there are and the body's SHA-256 checksum, both stamped with
    /// instant `now`, with the time the feed is next due (`ttl_hours` on).
    /// `None` exactly when either time is out of `chrono`'s range.
    pub fn refresh_at(&self, feed: &FeedConfig, body: &str, now: (i64, u32)) -> (r: Option<
        FeedRefresh,
    >)
        requires
            ttl_in_range(feed.ttl_hours),
        ensures
            (r is Some <==> due_times(now, feed.ttl_hours) is Some),
            (r matches Some(x) ==> {
                let due = due_times(now, feed.ttl_hours)->0;
                &&& ioc_views(x.iocs@) == feed_iocs(feed.feed_type, body@, feed.name@, due.0)
                &&& x.status.name@ == feed.name@
                &&& opt_string_view(x.status.last_updated) == Some(due.0)
                &&& opt_string_view(x.status.next_update) == Some(due.1)
                &&& x.status.ioc_count == x.iocs@.len() as i64
                &&& x.status.status@ == "OK"@
                &&& x.status.error_msg is None
                &&& opt_string_view(x.status.checksum) == Some(text_checksum(body@))
            }),
    {
        let next: i128 = now.0 as i128 + (feed.ttl_hours as i64) as i128 * 3600;
        if next < i64::MIN as i128 || next > i64::MAX as i128 {
            assert(due_times(now, feed.ttl_hours) is None);
            return None;
        }
        let updated = format_rfc3339(now.0, now.1);
        let due = format_rfc3339(next as i64, now.1);
        match (updated, due) {
            (Some(u), Some(d)) => {
                let iocs = feed_iocs_at(feed.feed_type, body, feed.name.as_str(), u.as_str());
                let count = iocs.len();
                let sum = checksum_of_text(body);
                let status = ok_status(feed.name.as_str(), u, d, count, sum);
                let r = FeedRefresh { iocs, status };
                assert(due_times(now, feed.ttl_hours) is Some);
                Some(r)
            },
            _ => {
                assert(due_times(now, feed.ttl_hours) is None);
                None
            },
        }
    }

    /// `refresh_at` on the current UTC instant: what holds of the result is
    /// what `refresh_at` states for some instant, the one the clock gave.
    pub fn refresh(&self, feed: &FeedConfig, body: &str) -> (r: Option<FeedRefresh>)
        requires
            ttl_in_range(feed.ttl_hours),
        ensures
            exists|now: (i64, u32)|
                {
                    &&& (r is Some <==> #[trigger] due_times(now, feed.ttl_hours) is Some)
                    &&& (r matches Some(x) ==> {
                        let due = due_times(now, feed.ttl_hours)->0;
                        &&& ioc_views(x.iocs@) == feed_iocs(feed.feed_type, body@, feed.name@, due.0)
                        &&& x.status.name@ == feed.name@
                        &&& opt_string_view(x.status.last_updated) == Some(due.0)
                        &&& opt_string_view(x.status.next_update) == Some(due.1)
                        &&& x.status.ioc_count == x.iocs@.len() as i64
                        &&& x.status.status@ == "OK"@
                        &&& x.status.error_msg is None
                        &&& opt_string_view(x.status.checksum) == Some(text_checksum(body@))
                    })
                },
    {
        let now = utc_now_instant();
        self.refresh_at(feed, body, now)
    }

    /// The indices of the configured feeds to update at instant `now`: the
    /// enabled ones that need an update, in configuration order.
    pub fn feeds_due_at(&self, statuses: Option<&Vec<FeedStatusRow>>, now: (i64, u32)) -> (r: Vec<
        usize,
    >)
        ensures
            r@ == due_feeds(
                self.config.feeds@,
                rows_view(statuses),
                now,
                self.config.feeds@.len() as int,
            ),
    {
        let feeds = &self.config.feeds;
        let mut out: Vec<usize> = Vec::new();
        let mut i: usize = 0;
        while i < feeds.len()
            invariant
                i <= feeds.len(),
                feeds == &self.config.feeds,
                out@ == due_feeds(feeds@, rows_view(statuses), now, i as int),
            decreases feeds.len() - i,
        {
            if feeds[i].enabled && feed_needs_update_at(statuses, &feeds[i], now) {
                out.push(i);
            }
            assert(out@ =~= due_feeds(feeds@, rows_view(statuses), now, i + 1));
            i += 1;
        }
        out
    }

    /// Check whether a feed is past its next-update time, reading the clock
    /// only when such a time is on record.
    pub fn feed_needs_update(&self, statuses: Option<&Vec<FeedStatusRow>>, feed: &FeedConfig) -> (r:
        bool)
        ensures
            exists|now: (i64, u32)| r == #[trigger] needs_update_at(rows_view(statuses), *feed, now),
    {
        let known = match statuses {
            None => false,
            Some(rows) => match find_status(rows, feed.name.as_str()) {
                None => false,
                Some(row) => row.next_update.is_some(),
            },
        };
        if !known {
            let r = feed_needs_update_at(statuses, feed, (0, 0));
            assert(r == needs_update_at(rows_view(statuses), *feed, (0i64, 0u32)));
            return r;
        }
        let now = utc_now_instant();
        let r = feed_needs_update_at(statuses, feed, now);
        assert(r == needs_update_at(rows_view(statuses), *feed, now));
        r
    }
}

} // verus!
