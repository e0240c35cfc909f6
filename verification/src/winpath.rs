//! File-name and extension extraction for Windows paths, as `std::path::Path`
//! does it on Windows: `\` and `/` separate components, a leading drive
//! letter (`C:`) is a prefix, empty and `.` components are skipped, and a final
//! `..` component has no file name. Verbatim (`\\?\`) and UNC (`\\server\share`)
//! prefixes are not recognised: their parts count as ordinary components.
use vstd::prelude::*;
use crate::text::{ascii_fold, ascii_lower_char, chars_of, substring};

verus! {

/// `c` separates path components.
pub open spec fn is_sep(c: char) -> bool {
    c == '\\' || c == '/'
}

/// `c` is an ASCII letter.
pub open spec fn is_ascii_letter(c: char) -> bool {
    ('a' <= c && c <= 'z') || ('A' <= c && c <= 'Z')
}

/// Length of the drive prefix (`C:`) that `s` begins with, or 0.
pub open spec fn drive_prefix_len(s: Seq<char>) -> int {
    if s.len() >= 2 && is_ascii_letter(s[0]) && s[1] == ':' {
        2
    } else {
        0
    }
}

/// Start of the component of `s[lo..hi]` that ends at `hi`.
pub open spec fn segment_start(s: Seq<char>, lo: int, hi: int) -> int
    decreases hi - lo,
{
    if hi <= lo {
        lo
    } else if is_sep(s[hi - 1]) {
        hi
    } else {
        segment_start(s, lo, hi - 1)
    }
}

/// Bounds of the last component of `s[lo..hi]` that is neither empty nor `.`.
pub open spec fn last_component(s: Seq<char>, lo: int, hi: int) -> Option<(int, int)>
    decreases hi - lo,
{
    if hi <= lo {
        None
    } else if is_sep(s[hi - 1]) {
        last_component(s, lo, hi - 1)
    } else if s[hi - 1] == '.' && segment_start(s, lo, hi) == hi - 1 {
        last_component(s, lo, hi - 1)
    } else {
        Some((segment_start(s, lo, hi), hi))
    }
}

/// The file name of a path: its last component, unless that is `..`.
pub open spec fn file_name_of(s: Seq<char>) -> Option<Seq<char>> {
    match last_component(s, drive_prefix_len(s), s.len() as int) {
        None => None,
        Some((b, e)) => if s.subrange(b, e) == seq!['.', '.'] {
            None
        } else {
            Some(s.subrange(b, e))
        },
    }
}

/// Index of the last `c` in `s[0..hi]`, or -1.
pub open spec fn last_index_of(s: Seq<char>, c: char, hi: int) -> int
    decreases hi,
{
    if hi <= 0 {
        -1
    } else if s[hi - 1] == c {
        hi - 1
    } else {
        last_index_of(s, c, hi - 1)
    }
}

/// The extension of a file name: what follows its last `.`, unless that `.`
/// is the first character or there is none.
pub open spec fn extension_of_name(n: Seq<char>) -> Option<Seq<char>> {
    let k = last_index_of(n, '.', n.len() as int);
    if k <= 0 {
        None
    } else {
        Some(n.subrange(k + 1, n.len() as int))
    }
}

/// The extension of a path's file name.
pub open spec fn extension_of(s: Seq<char>) -> Option<Seq<char>> {
    match file_name_of(s) {
        None => None,
        Some(n) => extension_of_name(n),
    }
}

/// Length of the drive prefix of `s` and of the root separator that follows it.
pub open spec fn root_len(s: Seq<char>) -> int {
    let p = drive_prefix_len(s);
    if p < s.len() && is_sep(s[p]) {
        p + 1
    } else {
        p
    }
}

/// `s` is relative and begins with a `.` component, which `Path` keeps.
pub open spec fn leading_cur_dir(s: Seq<char>) -> bool {
    &&& drive_prefix_len(s) == 0
    &&& s.len() >= 1
    &&& s[0] == '.'
    &&& (s.len() == 1 || is_sep(s[1]))
}

/// Where the body of `s` starts: after its prefix and root, or after its leading `.`.
pub open spec fn body_start(s: Seq<char>) -> int {
    if leading_cur_dir(s) {
        1
    } else {
        root_len(s)
    }
}

/// End of `s[lo..hi]` once trailing separators and `.` components are dropped.
pub open spec fn trim_end(s: Seq<char>, lo: int, hi: int) -> int
    decreases hi - lo,
{
    if hi <= lo {
        hi
    } else if is_sep(s[hi - 1]) {
        trim_end(s, lo, hi - 1)
    } else if s[hi - 1] == '.' && segment_start(s, lo, hi) == hi - 1 {
        trim_end(s, lo, hi - 1)
    } else {
        hi
    }
}

/// The parent of a path: what precedes its last component, without the
/// separators and `.` components before it; none when the path ends in its
/// prefix or root, or is empty.
pub open spec fn parent_of(s: Seq<char>) -> Option<Seq<char>> {
    match last_component(s, drive_prefix_len(s), s.len() as int) {
        Some((b, _e)) => Some(s.subrange(0, trim_end(s, body_start(s), b))),
        None => if leading_cur_dir(s) {
            Some(seq![])
        } else {
            None
        },
    }
}

/// The ASCII uppercase of `c`.
pub open spec fn ascii_upper(c: char) -> char {
    if 'a' <= c && c <= 'z' {
        ((c as u32) - 32) as char
    } else {
        c
    }
}

/// The component `c` ends, when it is neither empty nor `.`.
pub open spec fn emit(prev: Seq<Seq<char>>, c: Seq<char>) -> Seq<Seq<char>> {
    if c.len() == 0 || c == seq!['.'] {
        prev
    } else {
        prev.push(c)
    }
}

/// The components of `s[lo..j]`, followed by the pending component `s[j..end]`.
pub open spec fn comps_upto(s: Seq<char>, lo: int, j: int, end: int) -> Seq<Seq<char>>
    decreases j - lo,
{
    if j <= lo {
        emit(seq![], s.subrange(j, end))
    } else if is_sep(s[j - 1]) {
        emit(comps_upto(s, lo, j - 1, j - 1), s.subrange(j, end))
    } else {
        comps_upto(s, lo, j - 1, end)
    }
}

/// The components of a path as `Path::components` yields them: the drive
/// prefix (its letter uppercased, as `Path` compares it), the root, a leading
/// `.`, then the body's components without empty and `.` ones.
pub open spec fn components_of(s: Seq<char>) -> Seq<Seq<char>> {
    let p = drive_prefix_len(s);
    let head = if p == 2 {
        seq![seq![ascii_upper(s[0]), ':']]
    } else {
        seq![]
    };
    let root = if root_len(s) > p {
        seq![seq!['\\']]
    } else {
        seq![]
    };
    let cur = if leading_cur_dir(s) {
        seq![seq!['.']]
    } else {
        seq![]
    };
    head + root + cur + comps_upto(s, body_start(s), s.len() as int, s.len() as int)
}

/// `Path::starts_with`: the components of `base` begin the components of `path`.
pub open spec fn path_starts_with(path: Seq<char>, base: Seq<char>) -> bool {
    components_of(base).is_prefix_of(components_of(path))
}

proof fn lemma_segment_start_bounds(s: Seq<char>, lo: int, hi: int)
    requires
        lo <= hi,
    ensures
        lo <= segment_start(s, lo, hi) <= hi,
        hi > lo && !is_sep(s[hi - 1]) ==> segment_start(s, lo, hi) < hi,
    decreases hi - lo,
{
    if hi > lo && !is_sep(s[hi - 1]) {
        lemma_segment_start_bounds(s, lo, hi - 1);
    }
}

proof fn lemma_last_component_bounds(s: Seq<char>, lo: int, hi: int)
    requires
        0 <= lo <= hi <= s.len(),
    ensures
        last_component(s, lo, hi) matches Some((b, e)) ==> lo <= b < e <= hi,
    decreases hi - lo,
{
    if hi > lo {
        lemma_segment_start_bounds(s, lo, hi);
        lemma_last_component_bounds(s, lo, hi - 1);
    }
}

proof fn lemma_last_index_bounds(s: Seq<char>, c: char, hi: int)
    requires
        0 <= hi <= s.len(),
    ensures
        -1 <= last_index_of(s, c, hi) < hi,
        last_index_of(s, c, hi) >= 0 ==> s[last_index_of(s, c, hi)] == c,
    decreases hi,
{
    if hi > 0 {
        lemma_last_index_bounds(s, c, hi - 1);
    }
}

/// Lowercasing an ASCII letter never makes or unmakes a separator, a `.`, a
/// `:` or an ASCII letter.
proof fn lemma_fold_char(c: char)
    ensures
        is_sep(ascii_lower_char(c)) == is_sep(c),
        (ascii_lower_char(c) == '.') == (c == '.'),
        (ascii_lower_char(c) == ':') == (c == ':'),
        is_ascii_letter(ascii_lower_char(c)) == is_ascii_letter(c),
{
}

proof fn lemma_fold_at(s: Seq<char>, i: int)
    requires
        0 <= i < s.len(),
    ensures
        ascii_fold(s)[i] == ascii_lower_char(s[i]),
        is_sep(ascii_fold(s)[i]) == is_sep(s[i]),
        (ascii_fold(s)[i] == '.') == (s[i] == '.'),
        (ascii_fold(s)[i] == ':') == (s[i] == ':'),
        is_ascii_letter(ascii_fold(s)[i]) == is_ascii_letter(s[i]),
{
    lemma_fold_char(s[i]);
}

proof fn lemma_fold_segment_start(s: Seq<char>, lo: int, hi: int)
    requires
        0 <= lo,
        hi <= s.len(),
    ensures
        segment_start(ascii_fold(s), lo, hi) == segment_start(s, lo, hi),
    decreases hi - lo,
{
    if hi > lo {
        lemma_fold_at(s, hi - 1);
        lemma_fold_segment_start(s, lo, hi - 1);
    }
}

proof fn lemma_fold_last_component(s: Seq<char>, lo: int, hi: int)
    requires
        0 <= lo,
        hi <= s.len(),
    ensures
        last_component(ascii_fold(s), lo, hi) == last_component(s, lo, hi),
    decreases hi - lo,
{
    if hi > lo {
        lemma_fold_at(s, hi - 1);
        lemma_fold_segment_start(s, lo, hi);
        lemma_fold_last_component(s, lo, hi - 1);
    }
}

proof fn lemma_fold_last_index(s: Seq<char>, hi: int)
    requires
        hi <= s.len(),
    ensures
        last_index_of(ascii_fold(s), '.', hi) == last_index_of(s, '.', hi),
    decreases hi,
{
    if hi > 0 {
        lemma_fold_at(s, hi - 1);
        lemma_fold_last_index(s, hi - 1);
    }
}

proof fn lemma_fold_subrange(s: Seq<char>, b: int, e: int)
    requires
        0 <= b <= e <= s.len(),
    ensures
        ascii_fold(s).subrange(b, e) == ascii_fold(s.subrange(b, e)),
{
    assert(ascii_fold(s).subrange(b, e) =~= ascii_fold(s.subrange(b, e)));
}

proof fn lemma_fold_dot_dot(n: Seq<char>)
    ensures
        (ascii_fold(n) == seq!['.', '.']) == (n == seq!['.', '.']),
{
    if n.len() == 2 {
        lemma_fold_at(n, 0);
        lemma_fold_at(n, 1);
        if n == seq!['.', '.'] {
            assert(ascii_fold(n) =~= seq!['.', '.']);
        }
        if ascii_fold(n) == seq!['.', '.'] {
            assert(ascii_fold(n)[0] == '.');
            assert(ascii_fold(n)[1] == '.');
            assert(n =~= seq!['.', '.']);
        }
    } else {
        assert(ascii_fold(n).len() != 2);
    }
}

/// The file name of a path with its ASCII letters lowercased is the file name
/// of the path with its ASCII letters lowercased: separators, dots and drive
/// prefixes do not depend on ASCII case.
pub proof fn lemma_file_name_ignores_ascii_case(s: Seq<char>)
    ensures
        file_name_of(ascii_fold(s)) == match file_name_of(s) {
            Some(n) => Some(ascii_fold(n)),
            None => None,
        },
        extension_of(ascii_fold(s)) == match extension_of(s) {
            Some(x) => Some(ascii_fold(x)),
            None => None,
        },
{
    let f = ascii_fold(s);
    assert(drive_prefix_len(f) == drive_prefix_len(s)) by {
        if s.len() >= 2 {
            lemma_fold_at(s, 0);
            lemma_fold_at(s, 1);
        }
    }
    let p = drive_prefix_len(s);
    lemma_fold_last_component(s, p, s.len() as int);
    lemma_last_component_bounds(s, p, s.len() as int);
    match last_component(s, p, s.len() as int) {
        None => {},
        Some((b, e)) => {
            lemma_fold_subrange(s, b, e);
            let n = s.subrange(b, e);
            lemma_fold_dot_dot(n);
            if n != seq!['.', '.'] {
                let nf = ascii_fold(n);
                lemma_fold_last_index(n, n.len() as int);
                lemma_last_index_bounds(n, '.', n.len() as int);
                let k = last_index_of(n, '.', n.len() as int);
                if k > 0 {
                    lemma_fold_subrange(n, k + 1, n.len() as int);
                }
            }
        },
    }
}

/// Start of the component of `s[lo..hi]` that ends at `hi`.
fn find_segment_start(s: &[char], lo: usize, hi: usize) -> (r: usize)
    requires
        lo <= hi <= s.len(),
    ensures
        r == segment_start(s@, lo as int, hi as int),
{
    let mut j: usize = hi;
    while j > lo && s[j - 1] != '\\' && s[j - 1] != '/'
        invariant
            lo <= j <= hi <= s.len(),
            segment_start(s@, lo as int, j as int) == segment_start(s@, lo as int, hi as int),
        decreases j,
    {
        j -= 1;
    }
    j
}

/// Bounds of the last component of `s` after its drive prefix, as `last_component` gives them.
fn last_component_bounds(s: &[char]) -> (r: Option<(usize, usize)>)
    ensures
        match r {
            None => last_component(s@, drive_prefix_len(s@), s.len() as int) is None,
            Some((b, e)) => {
                &&& last_component(s@, drive_prefix_len(s@), s.len() as int) == Some(
                    (b as int, e as int),
                )
                &&& drive_prefix_len(s@) <= b < e <= s.len()
            },
        },
{
    let lo = drive_prefix(s);
    let mut hi: usize = s.len();
    let found: Option<(usize, usize)>;
    loop
        invariant
            lo as int == drive_prefix_len(s@),
            lo <= hi <= s.len(),
            last_component(s@, lo as int, hi as int) == last_component(
                s@,
                lo as int,
                s.len() as int,
            ),
        ensures
            match found {
                None => last_component(s@, lo as int, s.len() as int) is None,
                Some((b, e)) => last_component(s@, lo as int, s.len() as int) == Some(
                    (b as int, e as int),
                ),
            },
        decreases hi,
    {
        if hi <= lo {
            found = None;
            break;
        }
        let c = s[hi - 1];
        if c == '\\' || c == '/' {
            hi -= 1;
        } else {
            let b = find_segment_start(s, lo, hi);
            if c == '.' && b == hi - 1 {
                hi -= 1;
            } else {
                found = Some((b, hi));
                break;
            }
        }
    }
    proof {
        lemma_last_component_bounds(s@, lo as int, s.len() as int);
    }
    found
}

/// Length of the drive prefix of `s`.
fn drive_prefix(s: &[char]) -> (r: usize)
    ensures
        r as int == drive_prefix_len(s@),
{
    if s.len() >= 2 && (('a' <= s[0] && s[0] <= 'z') || ('A' <= s[0] && s[0] <= 'Z')) && s[1] == ':' {
        2
    } else {
        0
    }
}

/// Bounds of the file name of `s`, as `file_name_of` gives it.
fn file_name_bounds(s: &[char]) -> (r: Option<(usize, usize)>)
    ensures
        match r {
            None => file_name_of(s@) is None,
            Some((b, e)) => b <= e <= s.len() && file_name_of(s@) == Some(s@.subrange(b as int, e as int)),
        },
{
    match last_component_bounds(s) {
        None => None,
        Some((b, e)) => {
            let two_dots = e - b == 2 && s[b] == '.' && s[b + 1] == '.';
            assert(two_dots == (s@.subrange(b as int, e as int) == seq!['.', '.'])) by {
                let sub = s@.subrange(b as int, e as int);
                assert(sub.len() == e - b);
                if e - b == 2 {
                    assert(sub[0] == s@[b as int]);
                    assert(sub[1] == s@[b + 1]);
                    if two_dots {
                        assert(sub =~= seq!['.', '.']);
                    } else if sub == seq!['.', '.'] {
                        assert(sub[0] == '.' && sub[1] == '.');
                    }
                } else {
                    assert(seq!['.', '.'].len() == 2);
                }
            }
            if two_dots {
                None
            } else {
                Some((b, e))
            }
        },
    }
}

/// End of `s[lo..hi]` once trailing separators and `.` components are dropped.
fn trim_end_index(s: &[char], lo: usize, hi: usize) -> (r: usize)
    requires
        lo <= hi <= s.len(),
    ensures
        r as int == trim_end(s@, lo as int, hi as int),
        r <= hi,
{
    let mut j: usize = hi;
    loop
        invariant
            lo <= j <= hi <= s.len(),
            trim_end(s@, lo as int, j as int) == trim_end(s@, lo as int, hi as int),
        ensures
            j as int == trim_end(s@, lo as int, hi as int),
        decreases j,
    {
        if j <= lo {
            break;
        }
        let c = s[j - 1];
        if c == '\\' || c == '/' {
            j -= 1;
        } else if c == '.' && find_segment_start(s, lo, j) == j - 1 {
            j -= 1;
        } else {
            break;
        }
    }
    j
}

fn comps_upto_exec(s: &[char], lo: usize, j: usize, end: usize) -> (r: Vec<Vec<char>>)
    requires
        lo <= j <= end <= s.len(),
    ensures
        r@.map_values(|c: Vec<char>| c@) == comps_upto(s@, lo as int, j as int, end as int),
    decreases j - lo,
{
    let (mut prev, tail) = if j <= lo {
        (Vec::new(), crate::text::sub_chars(s, j, end))
    } else if s[j - 1] == '\\' || s[j - 1] == '/' {
        (comps_upto_exec(s, lo, j - 1, j - 1), crate::text::sub_chars(s, j, end))
    } else {
        return comps_upto_exec(s, lo, j - 1, end);
    };
    let ghost before = prev@;
    if tail.len() == 0 || (tail.len() == 1 && tail[0] == '.') {
        proof {
            if tail.len() == 1 && tail[0] == '.' {
                assert(tail@ =~= seq!['.']);
            }
        }
    } else {
        assert(tail@ != seq!['.']) by {
            if tail@ == seq!['.'] {
                assert(tail@.len() == 1 && tail@[0] == '.');
            }
        }
        prev.push(tail);
        assert(prev@.map_values(|c: Vec<char>| c@) =~= before.map_values(|c: Vec<char>| c@).push(
            tail@,
        ));
    }
    if j <= lo {
        assert(before.map_values(|c: Vec<char>| c@) =~= Seq::<Seq<char>>::empty());
    }
    prev
}

/// The components of a path, as `components_of` states them.
pub fn components(path: &str) -> (r: Vec<Vec<char>>)
    ensures
        r@.map_values(|c: Vec<char>| c@) == components_of(path@),
{
    let s = chars_of(path);
    let sl = s.as_slice();
    let p = drive_prefix(sl);
    let ghost e1: Seq<Seq<char>> = if p == 2 {
        seq![seq![ascii_upper(s@[0]), ':']]
    } else {
        seq![]
    };
    let ghost e2: Seq<Seq<char>> = if root_len(s@) > p {
        seq![seq!['\\']]
    } else {
        seq![]
    };
    let ghost e3: Seq<Seq<char>> = if leading_cur_dir(s@) {
        seq![seq!['.']]
    } else {
        seq![]
    };
    let mut out: Vec<Vec<char>> = Vec::new();
    if p == 2 {
        let c = sl[0];
        let up = if 'a' <= c && c <= 'z' {
            ((c as u8) - 32) as char
        } else {
            c
        };
        assert(up == ascii_upper(c)) by {
            if 'a' <= c && c <= 'z' {
                assert((c as u8) as u32 == c as u32);
            }
        }
        let mut d: Vec<char> = Vec::new();
        d.push(up);
        d.push(':');
        assert(d@ =~= seq![up, ':']);
        out.push(d);
    }
    assert(out@.map_values(|c: Vec<char>| c@) =~= e1);
    let has_root = p < sl.len() && (sl[p] == '\\' || sl[p] == '/');
    if has_root {
        let mut d: Vec<char> = Vec::new();
        d.push('\\');
        assert(d@ =~= seq!['\\']);
        out.push(d);
    }
    assert(out@.map_values(|c: Vec<char>| c@) =~= e1 + e2);
    let lead = p == 0 && sl.len() >= 1 && sl[0] == '.' && (sl.len() == 1 || sl[1] == '\\' || sl[1] == '/');
    if lead {
        let mut d: Vec<char> = Vec::new();
        d.push('.');
        assert(d@ =~= seq!['.']);
        out.push(d);
    }
    let ghost head = out@.map_values(|c: Vec<char>| c@);
    assert(head =~= e1 + e2 + e3);
    let start: usize = if lead {
        1
    } else if has_root {
        p + 1
    } else {
        p
    };
    assert(start as int == body_start(s@));
    let body = comps_upto_exec(sl, start, sl.len(), sl.len());
    let mut k: usize = 0;
    while k < body.len()
        invariant
            k <= body.len(),
            out@.map_values(|c: Vec<char>| c@) =~= head + body@.map_values(|c: Vec<char>| c@).take(
                k as int,
            ),
        decreases body.len() - k,
    {
        let item = crate::text::sub_chars(body[k].as_slice(), 0, body[k].len());
        assert(item@ =~= body@[k as int]@);
        let ghost prev = out@;
        out.push(item);
        assert(out@.map_values(|c: Vec<char>| c@) =~= prev.map_values(|c: Vec<char>| c@).push(item@));
        assert(body@.map_values(|c: Vec<char>| c@).take(k + 1) =~= body@.map_values(
            |c: Vec<char>| c@,
        ).take(k as int).push(body@[k as int]@));
        k += 1;
        assert(out@.map_values(|c: Vec<char>| c@) =~= head + body@.map_values(|c: Vec<char>| c@).take(
            k as int,
        ));
    }
    assert(body@.map_values(|c: Vec<char>| c@).take(body.len() as int) =~= body@.map_values(
        |c: Vec<char>| c@,
    ));
    out
}

/// Whether `path` starts with `base` component by component, as
/// `path_starts_with` states it.
pub fn starts_with_path(path: &str, base: &str) -> (r: bool)
    ensures
        r == path_starts_with(path@, base@),
{
    let pc = components(path);
    let bc = components(base);
    let ghost pv = pc@.map_values(|c: Vec<char>| c@);
    let ghost bv = bc@.map_values(|c: Vec<char>| c@);
    if bc.len() > pc.len() {
        return false;
    }
    let mut i: usize = 0;
    while i < bc.len()
        invariant
            i <= bc.len() <= pc.len(),
            pv == pc@.map_values(|c: Vec<char>| c@),
            bv == bc@.map_values(|c: Vec<char>| c@),
            pv == components_of(path@),
            bv == components_of(base@),
            forall|k: int| 0 <= k < i ==> bv[k] == pv[k],
        decreases bc.len() - i,
    {
        if !crate::text::chars_eq(bc[i].as_slice(), pc[i].as_slice()) {
            assert(bv[i as int] != pv[i as int]);
            assert(!bv.is_prefix_of(pv)) by {
                if bv.is_prefix_of(pv) {
                    assert(pv.subrange(0, bv.len() as int)[i as int] == pv[i as int]);
                }
            }
            return false;
        }
        i += 1;
    }
    assert(bv.is_prefix_of(pv)) by {
        assert(pv.subrange(0, bv.len() as int) =~= bv);
    }
    true
}

/// The parent of a Windows path, as `parent_of` states it.
pub fn parent(path: &str) -> (r: Option<String>)
    ensures
        match r {
            None => parent_of(path@) is None,
            Some(p) => parent_of(path@) == Some(p@),
        },
{
    let s = chars_of(path);
    let sl = s.as_slice();
    let dp = drive_prefix(sl);
    let lead = dp == 0 && sl.len() >= 1 && sl[0] == '.' && (sl.len() == 1 || sl[1] == '\\' || sl[1] == '/');
    match last_component_bounds(sl) {
        None => if lead {
            Some(String::new())
        } else {
            None
        },
        Some((b, _e)) => {
            let root = if dp < sl.len() && (sl[dp] == '\\' || sl[dp] == '/') {
                dp + 1
            } else {
                dp
            };
            let start = if lead {
                1
            } else {
                root
            };
            assert(start as int == body_start(s@));
            let t = if start <= b {
                trim_end_index(sl, start, b)
            } else {
                b
            };
            Some(substring(sl, 0, t))
        },
    }
}

/// The file name of a Windows path, as `file_name_of` states it.
pub fn file_name(path: &str) -> (r: Option<String>)
    ensures
        match r {
            None => file_name_of(path@) is None,
            Some(n) => file_name_of(path@) == Some(n@),
        },
{
    let s = chars_of(path);
    match file_name_bounds(s.as_slice()) {
        None => None,
        Some((b, e)) => Some(substring(s.as_slice(), b, e)),
    }
}

/// The extension of a file name, as `extension_of_name` states it.
pub fn name_extension(name: &str) -> (r: Option<String>)
    ensures
        match r {
            None => extension_of_name(name@) is None,
            Some(x) => extension_of_name(name@) == Some(x@),
        },
{
    let n = chars_of(name);
    let mut j: usize = n.len();
    while j > 0 && n[j - 1] != '.'
        invariant
            j <= n.len(),
            n@ == name@,
            last_index_of(n@, '.', j as int) == last_index_of(n@, '.', n.len() as int),
        decreases j,
    {
        j -= 1;
    }
    if j <= 1 {
        None
    } else {
        proof {
            lemma_last_index_bounds(n@, '.', n.len() as int);
        }
        Some(substring(n.as_slice(), j, n.len()))
    }
}

/// The extension of a Windows path's file name, as `extension_of` states it.
pub fn extension(path: &str) -> (r: Option<String>)
    ensures
        match r {
            None => extension_of(path@) is None,
            Some(x) => extension_of(path@) == Some(x@),
        },
{
    match file_name(path) {
        None => None,
        Some(n) => name_extension(n.as_str()),
    }
}

} // verus!
