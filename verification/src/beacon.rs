//! Per-(process, remote host) connection timestamps for beaconing detection.
use vstd::prelude::*;
use crate::text::str_eq;

verus! {

/// The timestamps recorded for one process talking to one remote host.
#[derive(Debug)]
pub struct BeaconEntry {
    pub pid: u32,
    pub remote: String,
    pub times: Vec<i64>,
}

/// The entry belongs to the given process and remote host.
pub open spec fn key_match(e: BeaconEntry, pid: u32, remote: Seq<char>) -> bool {
    e.pid == pid && e.remote@ == remote
}

/// The timestamps recorded under a key (empty when the key has no entry).
pub open spec fn times_of(es: Seq<BeaconEntry>, pid: u32, remote: Seq<char>) -> Seq<i64>
    decreases es.len(),
{
    if es.len() == 0 {
        seq![]
    } else if key_match(es.last(), pid, remote) {
        es.last().times@
    } else {
        times_of(es.drop_last(), pid, remote)
    }
}

/// The timestamps less than `limit` before `now`.
pub open spec fn recent(ts: Seq<i64>, now: i64, limit: int) -> Seq<i64> {
    ts.filter(recent_pred(now, limit))
}

/// The test `recent` applies to one timestamp.
pub open spec fn recent_pred(now: i64, limit: int) -> spec_fn(i64) -> bool {
    |t: i64| now - t < limit
}

/// Dropping the timestamps that are not less than a longer limit before `now`
/// keeps every timestamp within a shorter limit before any later instant
/// `later`: cleaning up with the longer limit never changes what a later check
/// with the shorter one counts.
pub proof fn lemma_cleanup_keeps_recent(ts: Seq<i64>, now: i64, later: i64, short: int, long: int)
    requires
        short <= long,
        now <= later,
    ensures
        recent(recent(ts, now, long), later, short) == recent(ts, later, short),
    decreases ts.len(),
{
    reveal_with_fuel(Seq::<i64>::filter, 1);
    if ts.len() > 0 {
        lemma_cleanup_keeps_recent(ts.drop_last(), now, later, short, long);
        let inner = recent(ts.drop_last(), now, long);
        if now - ts.last() < long {
            assert(recent(ts, now, long) == inner.push(ts.last()));
            assert(recent(ts, now, long).drop_last() =~= inner);
            assert(recent(ts, now, long).last() == ts.last());
        }
    }
}

/// Recording at `now` keeps every earlier timestamp less than `limit` before
/// it, in order, and ends with `now`: a burst of connections within the
/// window is counted in full.
pub proof fn lemma_recent_keeps_window(ts: Seq<i64>, now: i64, limit: int)
    requires
        forall|k: int| 0 <= k < ts.len() ==> now - #[trigger] ts[k] < limit,
    ensures
        recent(ts, now, limit) == ts,
    decreases ts.len(),
{
    reveal_with_fuel(Seq::<i64>::filter, 1);
    if ts.len() > 0 {
        assert forall|k: int| 0 <= k < ts.drop_last().len() implies now - #[trigger] ts.drop_last()[k] < limit by {
            assert(ts.drop_last()[k] == ts[k]);
        }
        lemma_recent_keeps_window(ts.drop_last(), now, limit);
        assert(ts.last() == ts[ts.len() - 1]);
        assert(ts.drop_last().push(ts.last()) =~= ts);
    }
}

/// Connection timestamps keyed by process and remote host.
#[derive(Debug)]
pub struct BeaconLog {
    entries: Vec<BeaconEntry>,
}

proof fn lemma_times_push(es: Seq<BeaconEntry>, e: BeaconEntry, pid: u32, remote: Seq<char>)
    ensures
        times_of(es.push(e), pid, remote) == if key_match(e, pid, remote) {
            e.times@
        } else {
            times_of(es, pid, remote)
        },
{
    assert(es.push(e).drop_last() =~= es);
}

proof fn lemma_times_absent(es: Seq<BeaconEntry>, pid: u32, remote: Seq<char>)
    requires
        forall|i: int| 0 <= i < es.len() ==> !key_match(#[trigger] es[i], pid, remote),
    ensures
        times_of(es, pid, remote) == Seq::<i64>::empty(),
    decreases es.len(),
{
    if es.len() > 0 {
        assert(!key_match(es[es.len() - 1], pid, remote));
        lemma_times_absent(es.drop_last(), pid, remote);
    }
}

proof fn lemma_times_update(
    es: Seq<BeaconEntry>,
    k: int,
    e: BeaconEntry,
    pid: u32,
    remote: Seq<char>,
)
    requires
        0 <= k < es.len(),
        e.pid == es[k].pid,
        e.remote@ == es[k].remote@,
        keys_unique(es),
    ensures
        times_of(es.update(k, e), pid, remote) == if key_match(e, pid, remote) {
            e.times@
        } else {
            times_of(es, pid, remote)
        },
    decreases es.len(),
{
    let u = es.update(k, e);
    if k == es.len() - 1 {
        assert(u.drop_last() =~= es.drop_last());
    } else {
        assert(u.drop_last() =~= es.drop_last().update(k, e));
        assert(u.last() == es.last());
        if !key_match(es.last(), pid, remote) {
            lemma_times_update(es.drop_last(), k, e, pid, remote);
        } else {
            assert(!(es[k].pid == es[es.len() - 1].pid && es[k].remote@ == es[es.len() - 1].remote@));
        }
    }
}

/// No two entries share a key.
pub open spec fn keys_unique(es: Seq<BeaconEntry>) -> bool {
    forall|i: int, j: int|
        0 <= i < j < es.len() ==> !(es[i].pid == es[j].pid && es[i].remote@ == es[j].remote@)
}

/// Every entry holds at least one timestamp.
pub open spec fn entries_nonempty(es: Seq<BeaconEntry>) -> bool {
    forall|i: int| 0 <= i < es.len() ==> (#[trigger] es[i]).times@.len() > 0
}

/// The timestamps less than `limit` before `now`, in order.
fn keep_recent(ts: &Vec<i64>, now: i64, limit: i64) -> (r: Vec<i64>)
    ensures
        r@ == recent(ts@, now, limit as int),
{
    let ghost pred = recent_pred(now, limit as int);
    let mut out: Vec<i64> = Vec::new();
    let mut i: usize = 0;
    while i < ts.len()
        invariant
            i <= ts.len(),
            pred == recent_pred(now, limit as int),
            out@ == ts@.take(i as int).filter(pred),
        decreases ts.len() - i,
    {
        let t = ts[i];
        assert(ts@.take(i + 1).drop_last() =~= ts@.take(i as int));
        assert(ts@.take(i + 1).last() == t);
        let keep = (now as i128) - (t as i128) < (limit as i128);
        assert(pred(t) == keep);
        if keep {
            out.push(t);
        }
        proof {
            reveal_with_fuel(Seq::<i64>::filter, 1);
        }
        assert(out@ =~= ts@.take(i + 1).filter(pred));
        i += 1;
    }
    assert(ts@.take(ts.len() as int) =~= ts@);
    proof {
        reveal_with_fuel(Seq::<i64>::filter, 1);
    }
    assert(Seq::<i64>::empty().filter(pred) =~= Seq::<i64>::empty());
    out
}

fn find_entry(es: &Vec<BeaconEntry>, pid: u32, remote: &str) -> (r: Option<usize>)
    ensures
        match r {
            Some(k) => k < es@.len() && key_match(es@[k as int], pid, remote@),
            None => forall|i: int| 0 <= i < es@.len() ==> !key_match(#[trigger] es@[i], pid, remote@),
        },
{
    let mut i: usize = 0;
    while i < es.len()
        invariant
            i <= es.len(),
            forall|j: int| 0 <= j < i ==> !key_match(#[trigger] es@[j], pid, remote@),
        decreases es.len() - i,
    {
        if es[i].pid == pid && str_eq(es[i].remote.as_str(), remote) {
            return Some(i);
        }
        i += 1;
    }
    None
}

proof fn lemma_times_at(es: Seq<BeaconEntry>, k: int)
    requires
        0 <= k < es.len(),
        keys_unique(es),
    ensures
        times_of(es, es[k].pid, es[k].remote@) == es[k].times@,
    decreases es.len(),
{
    if k < es.len() - 1 {
        assert(!(es[k].pid == es[es.len() - 1].pid && es[k].remote@ == es[es.len() - 1].remote@));
        assert(es.drop_last()[k] == es[k]);
        lemma_times_at(es.drop_last(), k);
    }
}

impl BeaconLog {
    /// Keys are unique and no entry is empty.
    #[verifier::type_invariant]
    spec fn wf(self) -> bool {
        keys_unique(self.entries@) && entries_nonempty(self.entries@)
    }

    /// The timestamps recorded for a process and remote host.
    pub closed spec fn times(self, pid: u32, remote: Seq<char>) -> Seq<i64> {
        times_of(self.entries@, pid, remote)
    }

    /// An empty log.
    pub fn new() -> (r: BeaconLog)
        ensures
            forall|pid: u32, remote: Seq<char>| #[trigger] r.times(pid, remote) == Seq::<i64>::empty(),
    {
        BeaconLog { entries: Vec::new() }
    }

    /// Record a connection at `now` after dropping the key's timestamps that are
    /// not less than `limit` before `now`; true when the key then holds more than
    /// `threshold` timestamps.
    pub fn record(&mut self, pid: u32, remote: &str, now: i64, limit: i64, threshold: usize) -> (r:
        bool)
        ensures
            final(self).times(pid, remote@) == recent(old(self).times(pid, remote@), now, limit as int).push(now),
            forall|p: u32, q: Seq<char>|
                !(p == pid && q == remote@) ==> #[trigger] final(self).times(p, q) == old(self).times(p, q),
            r == (final(self).times(pid, remote@).len() > threshold),
    {
        proof {
            use_type_invariant(&*self);
        }
        let ghost es0 = self.entries@;
        let mut entries: Vec<BeaconEntry> = Vec::new();
        std::mem::swap(&mut entries, &mut self.entries);
        match find_entry(&entries, pid, remote) {
            Some(k) => {
                let mut kept = keep_recent(&entries[k].times, now, limit);
                kept.push(now);
                let n = kept.len();
                let name = entries[k].remote.clone();
                let e = BeaconEntry { pid, remote: name, times: kept };
                proof {
                    lemma_times_at(es0, k as int);
                    assert forall|p: u32, q: Seq<char>| #[trigger]
                        times_of(es0.update(k as int, e), p, q) == if key_match(e, p, q) {
                            e.times@
                        } else {
                            times_of(es0, p, q)
                        } by {
                        lemma_times_update(es0, k as int, e, p, q);
                    }
                }
                assert(keys_unique(es0.update(k as int, e)));
                assert(entries_nonempty(es0.update(k as int, e)));
                entries.set(k, e);
                assert(entries@ == es0.update(k as int, e));
                self.entries = entries;
                n > threshold
            },
            None => {
                let mut ts: Vec<i64> = Vec::new();
                ts.push(now);
                let e = BeaconEntry { pid, remote: String::from_str(remote), times: ts };
                proof {
                    lemma_times_absent(es0, pid, remote@);
                    assert(recent(Seq::<i64>::empty(), now, limit as int) =~= Seq::<i64>::empty());
                    assert forall|p: u32, q: Seq<char>| #[trigger]
                        times_of(es0.push(e), p, q) == if key_match(e, p, q) {
                            e.times@
                        } else {
                            times_of(es0, p, q)
                        } by {
                        lemma_times_push(es0, e, p, q);
                    }
                }
                assert(keys_unique(es0.push(e)));
                assert(entries_nonempty(es0.push(e)));
                entries.push(e);
                assert(e.times@ =~= seq![now]);
                self.entries = entries;
                1 > threshold
            },
        }
    }

    /// Drop every timestamp that is not less than `limit` before `now`, and every
    /// key left without timestamps.
    pub fn cleanup(&mut self, now: i64, limit: i64)
        ensures
            forall|p: u32, q: Seq<char>|
                #[trigger] final(self).times(p, q) == recent(old(self).times(p, q), now, limit as int),
    {
        proof {
            use_type_invariant(&*self);
        }
        let ghost es0 = self.entries@;
        let mut kept: Vec<BeaconEntry> = Vec::new();
        let mut i: usize = 0;
        while i < self.entries.len()
            invariant
                i <= self.entries.len(),
                self.entries@ == es0,
                keys_unique(es0),
                entries_nonempty(es0),
                keys_unique(kept@),
                entries_nonempty(kept@),
                forall|j: int|
                    0 <= j < kept@.len() ==> exists|k: int|
                        0 <= k < i && #[trigger] kept@[j].pid == es0[k].pid && kept@[j].remote@
                            == es0[k].remote@,
                forall|p: u32, q: Seq<char>|
                    #[trigger] times_of(kept@, p, q) == recent(
                        times_of(es0.take(i as int), p, q),
                        now,
                        limit as int,
                    ),
            decreases es0.len() - i,
        {
            let ts = keep_recent(&self.entries[i].times, now, limit);
            let ghost ei = es0[i as int];
            proof {
                assert(es0.take(i + 1) =~= es0.take(i as int).push(ei));
            }
            if ts.len() > 0 {
                let e = BeaconEntry { pid: self.entries[i].pid, remote: self.entries[i].remote.clone(), times: ts };
                proof {
                    assert forall|j: int| 0 <= j < kept@.len() implies !(kept@[j].pid == e.pid
                        && kept@[j].remote@ == e.remote@) by {
                        let k = choose|k: int|
                            0 <= k < i && #[trigger] kept@[j].pid == es0[k].pid && kept@[j].remote@
                                == es0[k].remote@;
                    }
                    assert forall|p: u32, q: Seq<char>| #[trigger]
                        times_of(kept@.push(e), p, q) == recent(
                            times_of(es0.take(i + 1), p, q),
                            now,
                            limit as int,
                        ) by {
                        lemma_times_push(kept@, e, p, q);
                        lemma_times_push(es0.take(i as int), ei, p, q);
                    }
                }
                kept.push(e);
            } else {
                proof {
                    assert forall|p: u32, q: Seq<char>| #[trigger]
                        times_of(kept@, p, q) == recent(
                            times_of(es0.take(i + 1), p, q),
                            now,
                            limit as int,
                        ) by {
                        lemma_times_push(es0.take(i as int), ei, p, q);
                        if key_match(ei, p, q) {
                            assert forall|k: int| 0 <= k < i implies !key_match(
                                #[trigger] es0.take(i as int)[k],
                                p,
                                q,
                            ) by {
                                assert(es0.take(i as int)[k] == es0[k]);
                            }
                            lemma_times_absent(es0.take(i as int), p, q);
                            assert(recent(Seq::<i64>::empty(), now, limit as int) =~= Seq::<i64>::empty());
                            assert forall|j: int| 0 <= j < kept@.len() implies !key_match(
                                #[trigger] kept@[j],
                                p,
                                q,
                            ) by {
                                let k = choose|k: int|
                                    0 <= k < i && #[trigger] kept@[j].pid == es0[k].pid
                                        && kept@[j].remote@ == es0[k].remote@;
                            }
                            lemma_times_absent(kept@, p, q);
                        }
                    }
                }
            }
            i += 1;
        }
        assert(es0.take(es0.len() as int) =~= es0);
        self.entries = kept;
    }
}

} // verus!
