//! Decisions of the registry monitor: which autorun keys it watches, how a
//! value reads as text, which values are new since the last snapshot, and the
//! event recorded for each.
use vstd::prelude::*;
use crate::records::{Event, opt_string_view};
use crate::text::{decimal, decimal_string, decode_utf16_lossy, str_eq, string_of, str_views, utf16_lossy};

verus! {

/// The autorun keys the monitor watches, under both HKLM and HKCU.
pub open spec fn autorun_key_names() -> Seq<Seq<char>> {
    seq![
        "SOFTWARE\\Microsoft\\Windows\\CurrentVersion\\Run"@,
        "SOFTWARE\\Microsoft\\Windows\\CurrentVersion\\RunOnce"@,
        "SOFTWARE\\WOW6432Node\\Microsoft\\Windows\\CurrentVersion\\Run"@,
        "SOFTWARE\\Microsoft\\Windows NT\\CurrentVersion\\Winlogon"@,
        "SOFTWARE\\Microsoft\\Windows\\CurrentVersion\\Explorer\\Shell Folders"@,
        "SYSTEM\\CurrentControlSet\\Services"@,
    ]
}

/// The autorun keys the monitor watches, in order.
pub fn autorun_keys() -> (r: Vec<&'static str>)
    ensures
        str_views(r@) == autorun_key_names(),
{
    let r = vec![
        "SOFTWARE\\Microsoft\\Windows\\CurrentVersion\\Run",
        "SOFTWARE\\Microsoft\\Windows\\CurrentVersion\\RunOnce",
        "SOFTWARE\\WOW6432Node\\Microsoft\\Windows\\CurrentVersion\\Run",
        "SOFTWARE\\Microsoft\\Windows NT\\CurrentVersion\\Winlogon",
        "SOFTWARE\\Microsoft\\Windows\\CurrentVersion\\Explorer\\Shell Folders",
        "SYSTEM\\CurrentControlSet\\Services",
    ];
    assert(str_views(r@) =~= autorun_key_names());
    r
}

/// The little-endian 16-bit units of `data`, pairing its bytes from the
/// start; a trailing odd byte is ignored.
pub open spec fn le_units(data: Seq<u8>) -> Seq<u16>
    decreases data.len(),
{
    if data.len() < 2 {
        seq![]
    } else {
        seq![(data[0] as int + data[1] as int * 256) as u16] + le_units(data.subrange(2, data.len() as int))
    }
}

/// `s` without its trailing NUL characters.
pub open spec fn trim_nul_end(s: Seq<char>) -> Seq<char>
    decreases s.len(),
{
    if s.len() > 0 && s.last() == '\0' {
        trim_nul_end(s.drop_last())
    } else {
        s
    }
}

/// How a registry value reads: a string value (`REG_SZ`, `REG_EXPAND_SZ`)
/// decodes as UTF-16 without its trailing NULs; any other is
/// `<binary:N>` with N its length in bytes.
pub open spec fn value_text(val_type: u32, data: Seq<u8>) -> Seq<char> {
    if val_type == 1 || val_type == 2 {
        trim_nul_end(utf16_lossy(le_units(data)))
    } else {
        "<binary:"@ + decimal(data.len()) + ">"@
    }
}

proof fn lemma_le_units_len(data: Seq<u8>)
    ensures
        le_units(data).len() == data.len() / 2,
    decreases data.len(),
{
    if data.len() >= 2 {
        lemma_le_units_len(data.subrange(2, data.len() as int));
    }
}

proof fn lemma_le_units_index(data: Seq<u8>, k: int)
    requires
        0 <= k < data.len() / 2,
    ensures
        le_units(data)[k] == (data[2 * k] as int + data[2 * k + 1] as int * 256) as u16,
    decreases data.len(),
{
    lemma_le_units_len(data);
    if k > 0 {
        let rest = data.subrange(2, data.len() as int);
        lemma_le_units_len(rest);
        lemma_le_units_index(rest, k - 1);
        assert(rest[2 * (k - 1)] == data[2 * k]);
        assert(rest[2 * (k - 1) + 1] == data[2 * k + 1]);
    }
}

fn units_of(data: &[u8]) -> (r: Vec<u16>)
    ensures
        r@ == le_units(data@),
{
    let mut r: Vec<u16> = Vec::new();
    let n = data.len() / 2;
    let mut k: usize = 0;
    proof {
        lemma_le_units_len(data@);
    }
    while k < n
        invariant
            n == data.len() / 2,
            k <= n,
            le_units(data@).len() == n,
            r@.len() == k,
            forall|j: int| 0 <= j < k ==> r@[j] == le_units(data@)[j],
        decreases n - k,
    {
        let lo = data[2 * k] as u16;
        let hi = data[2 * k + 1] as u16;
        let u: u16 = lo + hi * 256;
        proof {
            lemma_le_units_index(data@, k as int);
        }
        r.push(u);
        k += 1;
    }
    assert(r@ =~= le_units(data@));
    r
}

fn trim_nul(s: String) -> (r: String)
    ensures
        r@ == trim_nul_end(s@),
{
    let v = crate::text::chars_of(s.as_str());
    let mut n: usize = v.len();
    assert(v@.take(n as int) =~= v@);
    while n > 0 && v[n - 1] == '\0'
        invariant
            n <= v.len(),
            v@ == s@,
            trim_nul_end(v@.take(n as int)) == trim_nul_end(s@),
        decreases n,
    {
        assert(v@.take(n as int).drop_last() =~= v@.take(n - 1));
        n -= 1;
    }
    let t = crate::text::sub_chars(v.as_slice(), 0, n);
    assert(t@ =~= v@.take(n as int));
    string_of(t.as_slice())
}

/// The text of a registry value of type `val_type` holding `data`, as
/// `value_text` states it.
pub fn registry_value_text(val_type: u32, data: &[u8]) -> (r: String)
    ensures
        r@ == value_text(val_type, data@),
{
    if val_type == 1 || val_type == 2 {
        let units = units_of(data);
        let s = decode_utf16_lossy(units.as_slice());
        trim_nul(s)
    } else {
        let mut r = String::from_str("<binary:");
        let n = decimal_string(data.len() as u64);
        r.append(n.as_str());
        r.append(">");
        r
    }
}

/// A value name and its data, as character sequences.
pub open spec fn pair_view(p: (String, String)) -> (Seq<char>, Seq<char>) {
    (p.0@, p.1@)
}

/// The views of a list of values.
pub open spec fn pairs_view(v: Seq<(String, String)>) -> Seq<(Seq<char>, Seq<char>)> {
    v.map_values(|p: (String, String)| pair_view(p))
}

/// The autorun values read under each watched key, keeping only keys with at
/// least one value.
pub struct AutorunSnapshot {
    entries: Vec<(String, Vec<(String, String)>)>,
}

/// A key with its values, as character sequences.
pub type AutorunEntryView = (Seq<char>, Seq<(Seq<char>, Seq<char>)>);

/// The snapshot of `keys` read as `reads` (one list of values per key): the
/// keys with a non-empty list, in order.
pub open spec fn snapshot_of(keys: Seq<Seq<char>>, reads: Seq<Seq<(Seq<char>, Seq<char>)>>) -> Seq<
    AutorunEntryView,
>
    decreases keys.len(),
{
    if keys.len() == 0 || reads.len() == 0 {
        seq![]
    } else if reads.last().len() == 0 {
        snapshot_of(keys.drop_last(), reads.drop_last())
    } else {
        snapshot_of(keys.drop_last(), reads.drop_last()).push((keys.last(), reads.last()))
    }
}

/// The values a snapshot holds under `key` (none when it lacks the key).
pub open spec fn values_under(entries: Seq<AutorunEntryView>, key: Seq<char>) -> Seq<(Seq<char>, Seq<char>)>
    decreases entries.len(),
{
    if entries.len() == 0 {
        seq![]
    } else if entries.last().0 == key {
        entries.last().1
    } else {
        values_under(entries.drop_last(), key)
    }
}

/// A value found under `key` that the baseline did not hold.
pub ghost struct ChangeView {
    pub key: Seq<char>,
    pub value_name: Seq<char>,
    pub data: Seq<char>,
}

/// The values of `vals` (under `key`) missing from `base`, in order.
pub open spec fn fresh_values(key: Seq<char>, vals: Seq<(Seq<char>, Seq<char>)>, base: Seq<(Seq<char>, Seq<char>)>) -> Seq<
    ChangeView,
>
    decreases vals.len(),
{
    if vals.len() == 0 {
        seq![]
    } else if base.contains(vals.last()) {
        fresh_values(key, vals.drop_last(), base)
    } else {
        fresh_values(key, vals.drop_last(), base).push(
            ChangeView { key, value_name: vals.last().0, data: vals.last().1 },
        )
    }
}

/// The values of `current` that the baseline does not hold under the same
/// key, in the order of `current`.
pub open spec fn changes_of(base: Seq<AutorunEntryView>, current: Seq<AutorunEntryView>) -> Seq<ChangeView>
    decreases current.len(),
{
    if current.len() == 0 {
        seq![]
    } else {
        changes_of(base, current.drop_last()) + fresh_values(
            current.last().0,
            current.last().1,
            values_under(base, current.last().0),
        )
    }
}

/// No two entries share a key.
pub open spec fn keys_distinct(entries: Seq<AutorunEntryView>) -> bool {
    forall|i: int, j: int| 0 <= i < j < entries.len() ==> entries[i].0 != entries[j].0
}

proof fn lemma_autorun_names_distinct()
    ensures
        forall|i: int, j: int|
            0 <= i < j < autorun_key_names().len() ==> autorun_key_names()[i]
                != autorun_key_names()[j],
{
    reveal_strlit("SOFTWARE\\Microsoft\\Windows\\CurrentVersion\\Run");
    reveal_strlit("SOFTWARE\\Microsoft\\Windows\\CurrentVersion\\RunOnce");
    reveal_strlit("SOFTWARE\\WOW6432Node\\Microsoft\\Windows\\CurrentVersion\\Run");
    reveal_strlit("SOFTWARE\\Microsoft\\Windows NT\\CurrentVersion\\Winlogon");
    reveal_strlit("SOFTWARE\\Microsoft\\Windows\\CurrentVersion\\Explorer\\Shell Folders");
    reveal_strlit("SYSTEM\\CurrentControlSet\\Services");
    let n = autorun_key_names();
    assert(n[0].len() == 45);
    assert(n[1].len() == 49);
    assert(n[2].len() == 57);
    assert(n[3].len() == 53);
    assert(n[4].len() == 64);
    assert(n[5].len() == 33);
    assert forall|i: int, j: int| 0 <= i < j < n.len() implies n[i] != n[j] by {
        assert(i == 0 || i == 1 || i == 2 || i == 3 || i == 4);
        assert(j == 1 || j == 2 || j == 3 || j == 4 || j == 5);
    }
}

proof fn lemma_snapshot_keys(keys: Seq<Seq<char>>, reads: Seq<Seq<(Seq<char>, Seq<char>)>>)
    requires
        keys.len() == reads.len(),
        forall|i: int, j: int| 0 <= i < j < keys.len() ==> keys[i] != keys[j],
    ensures
        keys_distinct(snapshot_of(keys, reads)),
        forall|k: int|
            0 <= k < snapshot_of(keys, reads).len() ==> keys.contains(
                #[trigger] snapshot_of(keys, reads)[k].0,
            ),
    decreases keys.len(),
{
    if keys.len() > 0 {
        let ks = keys.drop_last();
        let rs = reads.drop_last();
        lemma_snapshot_keys(ks, rs);
        let prev = snapshot_of(ks, rs);
        assert forall|k: int| 0 <= k < prev.len() implies prev[k].0 != keys.last() by {
            let w = choose|w: int| 0 <= w < ks.len() && ks[w] == prev[k].0;
            assert(keys[w] == ks[w]);
            assert(keys[keys.len() - 1] == keys.last());
        }
        assert forall|k: int| 0 <= k < prev.len() implies keys.contains(#[trigger] prev[k].0) by {
            let w = choose|w: int| 0 <= w < ks.len() && ks[w] == prev[k].0;
            assert(keys[w] == ks[w]);
        }
        assert(keys.contains(keys.last())) by {
            assert(keys[keys.len() - 1] == keys.last());
        }
    }
}

proof fn lemma_values_under_unique(entries: Seq<AutorunEntryView>, k: int)
    requires
        keys_distinct(entries),
        0 <= k < entries.len(),
    ensures
        values_under(entries, entries[k].0) == entries[k].1,
    decreases entries.len(),
{
    if k < entries.len() - 1 {
        assert(entries.last() == entries[entries.len() - 1]);
        assert(entries.drop_last()[k] == entries[k]);
        lemma_values_under_unique(entries.drop_last(), k);
    }
}

proof fn lemma_fresh_within(key: Seq<char>, vals: Seq<(Seq<char>, Seq<char>)>, base: Seq<(Seq<char>, Seq<char>)>)
    requires
        forall|i: int| 0 <= i < vals.len() ==> base.contains(#[trigger] vals[i]),
    ensures
        fresh_values(key, vals, base) == Seq::<ChangeView>::empty(),
    decreases vals.len(),
{
    if vals.len() > 0 {
        assert(vals.last() == vals[vals.len() - 1]);
        assert forall|i: int| 0 <= i < vals.drop_last().len() implies base.contains(
            #[trigger] vals.drop_last()[i],
        ) by {
            assert(vals.drop_last()[i] == vals[i]);
        }
        lemma_fresh_within(key, vals.drop_last(), base);
    }
}

proof fn lemma_changes_prefix_empty(entries: Seq<AutorunEntryView>, n: int)
    requires
        keys_distinct(entries),
        0 <= n <= entries.len(),
    ensures
        changes_of(entries, entries.take(n)) == Seq::<ChangeView>::empty(),
    decreases n,
{
    if n > 0 {
        let cur = entries.take(n);
        assert(cur.drop_last() =~= entries.take(n - 1));
        assert(cur.last() == entries[n - 1]);
        lemma_changes_prefix_empty(entries, n - 1);
        lemma_values_under_unique(entries, n - 1);
        let vals = entries[n - 1].1;
        assert forall|i: int| 0 <= i < vals.len() implies vals.contains(#[trigger] vals[i]) by {}
        lemma_fresh_within(entries[n - 1].0, vals, vals);
        assert(changes_of(entries, cur) =~= Seq::<ChangeView>::empty());
    }
}

/// A snapshot compared with itself reports nothing: a value is reported
/// only when it is new under its key, or its data changed.
pub proof fn lemma_unchanged_snapshot_reports_nothing(s: AutorunSnapshot)
    requires
        s.wf(),
    ensures
        changes_of(s.view(), s.view()) == Seq::<ChangeView>::empty(),
{
    lemma_changes_prefix_empty(s.view(), s.view().len() as int);
    assert(s.view().take(s.view().len() as int) =~= s.view());
}

proof fn lemma_fresh_sound(key: Seq<char>, vals: Seq<(Seq<char>, Seq<char>)>, base: Seq<(Seq<char>, Seq<char>)>, i: int)
    requires
        0 <= i < fresh_values(key, vals, base).len(),
    ensures
        fresh_values(key, vals, base)[i].key == key,
        vals.contains((fresh_values(key, vals, base)[i].value_name, fresh_values(key, vals, base)[i].data)),
        !base.contains((fresh_values(key, vals, base)[i].value_name, fresh_values(key, vals, base)[i].data)),
    decreases vals.len(),
{
    let rest = fresh_values(key, vals.drop_last(), base);
    if i < rest.len() {
        lemma_fresh_sound(key, vals.drop_last(), base, i);
        let c = rest[i];
        let w = choose|w: int| 0 <= w < vals.drop_last().len() && vals.drop_last()[w] == (c.value_name, c.data);
        assert(vals[w] == vals.drop_last()[w]);
    } else {
        assert(vals[vals.len() - 1] == vals.last());
    }
}

/// Every reported change names a value that the current snapshot holds
/// under its key and the baseline does not.
pub proof fn lemma_reported_changes_are_new(base: Seq<AutorunEntryView>, current: Seq<AutorunEntryView>, i: int)
    requires
        0 <= i < changes_of(base, current).len(),
    ensures
        ({
            let c = changes_of(base, current)[i];
            &&& exists|k: int|
                0 <= k < current.len() && #[trigger] current[k].0 == c.key && current[k].1.contains(
                    (c.value_name, c.data),
                )
            &&& !values_under(base, c.key).contains((c.value_name, c.data))
        }),
    decreases current.len(),
{
    let prev = changes_of(base, current.drop_last());
    let last = current.last();
    let fresh = fresh_values(last.0, last.1, values_under(base, last.0));
    assert(changes_of(base, current) == prev + fresh);
    if i < prev.len() {
        lemma_reported_changes_are_new(base, current.drop_last(), i);
        let c = prev[i];
        let k = choose|k: int|
            0 <= k < current.drop_last().len() && #[trigger] current.drop_last()[k].0 == c.key
                && current.drop_last()[k].1.contains((c.value_name, c.data));
        assert(current[k] == current.drop_last()[k]);
    } else {
        lemma_fresh_sound(last.0, last.1, values_under(base, last.0), i - prev.len());
        assert(current[current.len() - 1] == last);
    }
}

/// A new or modified autorun value.
#[derive(Debug, Clone)]
pub struct AutorunChange {
    pub key: String,
    pub value_name: String,
    pub data: String,
}

impl View for AutorunChange {
    type V = ChangeView;

    open spec fn view(&self) -> ChangeView {
        ChangeView { key: self.key@, value_name: self.value_name@, data: self.data@ }
    }
}

/// The views of a list of changes.
pub open spec fn change_views(v: Seq<AutorunChange>) -> Seq<ChangeView> {
    v.map_values(|c: AutorunChange| c@)
}

fn clone_pairs(v: &Vec<(String, String)>) -> (r: Vec<(String, String)>)
    ensures
        pairs_view(r@) == pairs_view(v@),
{
    let mut r: Vec<(String, String)> = Vec::new();
    let mut i: usize = 0;
    while i < v.len()
        invariant
            i <= v.len(),
            pairs_view(r@) =~= pairs_view(v@.take(i as int)),
        decreases v.len() - i,
    {
        let p = (v[i].0.clone(), v[i].1.clone());
        assert(pair_view(p) == pair_view(v@[i as int]));
        let ghost before = r@;
        r.push(p);
        assert(v@.take(i + 1).drop_last() =~= v@.take(i as int));
        assert(pairs_view(r@) =~= pairs_view(before).push(pair_view(p)));
        assert(pairs_view(v@.take(i + 1)) =~= pairs_view(v@.take(i as int)).push(pair_view(v@[i as int])));
        i += 1;
    }
    assert(v@.take(v.len() as int) =~= v@);
    r
}

fn pair_listed(list: &Vec<(String, String)>, name: &str, data: &str) -> (r: bool)
    ensures
        r == pairs_view(list@).contains((name@, data@)),
{
    let mut i: usize = 0;
    while i < list.len()
        invariant
            i <= list.len(),
            forall|k: int| 0 <= k < i ==> #[trigger] pairs_view(list@)[k] != (name@, data@),
        decreases list.len() - i,
    {
        if str_eq(list[i].0.as_str(), name) && str_eq(list[i].1.as_str(), data) {
            assert(pairs_view(list@)[i as int] == (name@, data@));
            return true;
        }
        i += 1;
    }
    false
}

impl AutorunSnapshot {
    /// No key appears twice in the snapshot.
    pub closed spec fn wf(self) -> bool {
        keys_distinct(self.view())
    }

    /// The keys and values the snapshot holds, in order.
    pub closed spec fn view(self) -> Seq<AutorunEntryView> {
        self.entries@.map_values(|e: (String, Vec<(String, String)>)| (e.0@, pairs_view(e.1@)))
    }

    fn values_of(&self, key: &str) -> (r: Option<&Vec<(String, String)>>)
        ensures
            match r {
                Some(v) => pairs_view(v@) == values_under(self.view(), key@),
                None => values_under(self.view(), key@) == Seq::<(Seq<char>, Seq<char>)>::empty(),
            },
    {
        let mut i: usize = self.entries.len();
        assert(self.view().take(i as int) =~= self.view());
        while i > 0
            invariant
                i <= self.entries.len(),
                values_under(self.view().take(i as int), key@) == values_under(self.view(), key@),
            decreases i,
        {
            let ghost pre = self.view().take(i as int);
            assert(pre.drop_last() =~= self.view().take(i - 1));
            assert(pre.last() == (self.entries@[i - 1].0@, pairs_view(self.entries@[i - 1].1@)));
            if str_eq(self.entries[i - 1].0.as_str(), key) {
                return Some(&self.entries[i - 1].1);
            }
            i -= 1;
        }
        assert(self.view().take(0) =~= Seq::<AutorunEntryView>::empty());
        None
    }

    /// The values of this snapshot that `baseline` does not hold under the same
    /// key, in the order of this snapshot.
    pub fn changes_since(&self, baseline: &AutorunSnapshot) -> (r: Vec<AutorunChange>)
        ensures
            change_views(r@) == changes_of(baseline.view(), self.view()),
    {
        let mut out: Vec<AutorunChange> = Vec::new();
        let mut i: usize = 0;
        while i < self.entries.len()
            invariant
                i <= self.entries.len(),
                change_views(out@) == changes_of(baseline.view(), self.view().take(i as int)),
            decreases self.entries.len() - i,
        {
            let key = &self.entries[i].0;
            let vals = &self.entries[i].1;
            let empty: Vec<(String, String)> = Vec::new();
            let base: &Vec<(String, String)> = match baseline.values_of(key.as_str()) {
                Some(b) => b,
                None => &empty,
            };
            assert(pairs_view(empty@) =~= Seq::<(Seq<char>, Seq<char>)>::empty());
            let ghost prefix = change_views(out@);
            let mut j: usize = 0;
            while j < vals.len()
                invariant
                    j <= vals.len(),
                    pairs_view(base@) == values_under(baseline.view(), key@),
                    change_views(out@) == prefix + fresh_values(
                        key@,
                        pairs_view(vals@).take(j as int),
                        pairs_view(base@),
                    ),
                decreases vals.len() - j,
            {
                let ghost pv = pairs_view(vals@).take(j + 1);
                assert(pv.drop_last() =~= pairs_view(vals@).take(j as int));
                assert(pv.last() == (vals@[j as int].0@, vals@[j as int].1@));
                if !pair_listed(base, vals[j].0.as_str(), vals[j].1.as_str()) {
                    let c = AutorunChange {
                        key: key.clone(),
                        value_name: vals[j].0.clone(),
                        data: vals[j].1.clone(),
                    };
                    let ghost before = out@;
                    out.push(c);
                    assert(change_views(out@) =~= change_views(before).push(c@));
                }
                j += 1;
            }
            let ghost cur = self.view().take(i + 1);
            assert(cur.drop_last() =~= self.view().take(i as int));
            assert(cur.last() == (key@, pairs_view(vals@)));
            assert(pairs_view(vals@).take(vals.len() as int) =~= pairs_view(vals@));
            i += 1;
        }
        assert(self.view().take(self.entries.len() as int) =~= self.view());
        out
    }
}

/// The snapshot of the watched keys, given what was read under each of
/// them (in the order of `autorun_keys`).
pub fn snapshot_autorun_keys(reads: Vec<Vec<(String, String)>>) -> (r: AutorunSnapshot)
    requires
        reads.len() == autorun_key_names().len(),
    ensures
        r.wf(),
        r.view() == snapshot_of(
            autorun_key_names(),
            reads@.map_values(|v: Vec<(String, String)>| pairs_view(v@)),
        ),
{
    let keys = autorun_keys();
    let ghost rv = reads@.map_values(|v: Vec<(String, String)>| pairs_view(v@));
    let mut entries: Vec<(String, Vec<(String, String)>)> = Vec::new();
    let mut i: usize = 0;
    while i < reads.len()
        invariant
            i <= reads.len(),
            reads.len() == keys.len(),
            str_views(keys@) == autorun_key_names(),
            rv == reads@.map_values(|v: Vec<(String, String)>| pairs_view(v@)),
            entries@.map_values(|e: (String, Vec<(String, String)>)| (e.0@, pairs_view(e.1@)))
                == snapshot_of(autorun_key_names().take(i as int), rv.take(i as int)),
        decreases reads.len() - i,
    {
        let ghost ks = autorun_key_names().take(i + 1);
        let ghost rs = rv.take(i + 1);
        assert(ks.drop_last() =~= autorun_key_names().take(i as int));
        assert(rs.drop_last() =~= rv.take(i as int));
        assert(ks.last() == keys@[i as int]@);
        assert(rs.last() == pairs_view(reads@[i as int]@));
        if reads[i].len() > 0 {
            let vals = clone_pairs(&reads[i]);
            let ghost before = entries@;
            entries.push((String::from_str(keys[i]), vals));
            assert(entries@.map_values(|e: (String, Vec<(String, String)>)| (e.0@, pairs_view(e.1@)))
                =~= before.map_values(|e: (String, Vec<(String, String)>)| (e.0@, pairs_view(e.1@))).push(
                (ks.last(), rs.last()),
            ));
        }
        i += 1;
    }
    assert(autorun_key_names().take(6) =~= autorun_key_names());
    assert(rv.take(6) =~= rv);
    proof {
        lemma_autorun_names_distinct();
        lemma_snapshot_keys(autorun_key_names(), rv);
    }
    AutorunSnapshot { entries }
}

/// The event recorded for a new or modified autorun value.
pub fn registry_event(change: &AutorunChange, now: &str) -> (r: Event)
    ensures
        r.id is None,
        r.timestamp@ == now@,
        r.event_type@ == "RegistryChange"@,
        r.severity@ == "High"@,
        opt_string_view(r.source) == Some("RegistryMonitor"@),
        opt_string_view(r.path) == Some(change.key@ + "\\"@ + change.value_name@),
        r.pid is None,
        r.process_name is None,
        r.score == Some(35i64),
        opt_string_view(r.details) == Some(
            "{\"key\":\""@ + change.key@ + "\",\"value_name\":\""@ + change.value_name@
                + "\",\"data\":\""@ + change.data@ + "\"}"@,
        ),
        !r.resolved,
{
    let mut path = change.key.clone();
    path.append("\\");
    path.append(change.value_name.as_str());
    let mut details = String::from_str("{\"key\":\"");
    details.append(change.key.as_str());
    details.append("\",\"value_name\":\"");
    details.append(change.value_name.as_str());
    details.append("\",\"data\":\"");
    details.append(change.data.as_str());
    details.append("\"}");
    Event {
        id: None,
        timestamp: String::from_str(now),
        event_type: String::from_str("RegistryChange"),
        severity: String::from_str("High"),
        source: Some(String::from_str("RegistryMonitor")),
        path: Some(path),
        pid: None,
        process_name: None,
        score: Some(35),
        details: Some(details),
        resolved: false,
    }
}

} // verus!
