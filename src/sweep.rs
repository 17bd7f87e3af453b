use vstd::prelude::*;

verus! {

/// Nanoseconds in one second.
pub const NANOS_PER_SEC: u64 = 1000000000;

/// One file found in the cache tree: its size and its last-modified time,
/// in nanoseconds since the Unix epoch.
#[derive(Debug, Clone, Copy, PartialEq, Eq)]
pub struct CacheFile {
    pub size: u64,
    pub modified_ns: u64,
}

/// What one sweep deletes. Both lists hold positions in the scanned list of files.
#[derive(Debug, Clone)]
pub struct SweepPlan {
    /// Files older than the time-to-live, in scan order.
    pub expired: Vec<usize>,
    /// Files removed to meet the size budget, oldest first.
    pub evicted: Vec<usize>,
    /// Size of all scanned files.
    pub total_before: u64,
    /// Size left once the plan is carried out.
    pub total_after: u64,
}

/// A file expires once the time since it was modified exceeds the
/// time-to-live; a modification time in the future never expires.
pub open spec fn expired_at(f: CacheFile, now_ns: u64, ttl_secs: u64) -> bool {
    now_ns > f.modified_ns && now_ns - f.modified_ns > ttl_secs * (NANOS_PER_SEC as int)
}

/// File `i` goes before file `j` in the size pass: older, or as old and scanned earlier.
pub open spec fn evicts_before(files: Seq<CacheFile>, i: int, j: int) -> bool {
    files[i].modified_ns < files[j].modified_ns || (files[i].modified_ns == files[j].modified_ns
        && i < j)
}

/// The size of all files.
pub open spec fn total_size(files: Seq<CacheFile>) -> int
    decreases files.len(),
{
    if files.len() == 0 {
        0
    } else {
        total_size(files.drop_last()) + files.last().size
    }
}

/// The size of the files that do not expire.
pub open spec fn live_size(files: Seq<CacheFile>, now_ns: u64, ttl_secs: u64) -> int
    decreases files.len(),
{
    if files.len() == 0 {
        0
    } else {
        live_size(files.drop_last(), now_ns, ttl_secs) + if expired_at(
            files.last(),
            now_ns,
            ttl_secs,
        ) {
            0
        } else {
            files.last().size as int
        }
    }
}

/// The running total after taking away, in turn, the sizes of the files at
/// positions `idx`, never going below zero.
pub open spec fn total_after_removing(start: int, files: Seq<CacheFile>, idx: Seq<usize>) -> int
    decreases idx.len(),
{
    if idx.len() == 0 {
        start
    } else {
        let t = total_after_removing(start, files, idx.drop_last());
        let s = files[idx.last() as int].size as int;
        if t >= s {
            t - s
        } else {
            0
        }
    }
}

/// Positions in strictly ascending order.
pub open spec fn strictly_ascending(s: Seq<usize>) -> bool {
    forall|a: int, b: int| 0 <= a < b < s.len() ==> s[a] < s[b]
}

/// `p` is what a sweep of `files` at `now_ns` does under the given time-to-live and size budget.
pub open spec fn is_sweep_plan(
    files: Seq<CacheFile>,
    now_ns: u64,
    ttl_secs: u64,
    max_total_bytes: u64,
    p: SweepPlan,
) -> bool {
    let n = files.len();
    let live = live_size(files, now_ns, ttl_secs);
    let ev = p.evicted@;
    &&& p.total_before == total_size(files)
    &&& strictly_ascending(p.expired@)
    &&& forall|k: int| 0 <= k < p.expired@.len() ==> p.expired@[k] < n
    &&& forall|i: int|
        0 <= i < n ==> (p.expired@.contains(i as usize) <==> expired_at(
            files[i],
            now_ns,
            ttl_secs,
        ))
    &&& forall|k: int|
        0 <= k < ev.len() ==> ev[k] < n && !expired_at(files[ev[k] as int], now_ns, ttl_secs)
    &&& forall|a: int, b: int|
        0 <= a < b < ev.len() ==> evicts_before(files, ev[a] as int, ev[b] as int)
    &&& forall|i: int, k: int|
        0 <= i < n && !expired_at(files[i], now_ns, ttl_secs) && !ev.contains(i as usize) && 0
            <= k < ev.len() ==> evicts_before(files, ev[k] as int, i)
    &&& forall|k: int|
        0 <= k < ev.len() ==> total_after_removing(live, files, ev.subrange(0, k))
            > max_total_bytes
    &&& p.total_after == total_after_removing(live, files, ev)
    &&& p.total_after <= max_total_bytes || forall|i: int|
        0 <= i < n && !expired_at(files[i], now_ns, ttl_secs) ==> ev.contains(i as usize)
}

/// Whether `f` has outlived `ttl_secs` at `now_ns`, to the nanosecond.
pub fn file_expired(f: CacheFile, now_ns: u64, ttl_secs: u64) -> (r: bool)
    ensures
        r == expired_at(f, now_ns, ttl_secs),
{
    if now_ns > f.modified_ns {
        let age = now_ns - f.modified_ns;
        let secs = age / NANOS_PER_SEC;
        let rest = age % NANOS_PER_SEC;
        proof {
            let n = NANOS_PER_SEC as int;
            assert(age == n * secs + rest);
            assert((age > ttl_secs * n) <==> (secs > ttl_secs || (secs == ttl_secs && rest > 0)))
                by (nonlinear_arith)
                requires
                    age == n * secs + rest,
                    0 <= rest < n,
                    n > 0,
                    secs >= 0,
                    ttl_secs >= 0,
            ;
        }
        secs > ttl_secs || (secs == ttl_secs && rest > 0)
    } else {
        false
    }
}

/// Tuple order: by the first field, then by the second.
pub open spec fn pair_le(a: (u64, usize), b: (u64, usize)) -> bool {
    a.0 < b.0 || (a.0 == b.0 && a.1 <= b.1)
}

/// Relies on slice::sort: the same pairs, in ascending tuple order.
#[verifier::external_body]
fn sort_pairs(v: &mut Vec<(u64, usize)>)
    ensures
        final(v)@.to_multiset() == old(v)@.to_multiset(),
        forall|a: int, b: int|
            0 <= a < b < final(v)@.len() ==> pair_le(final(v)@[a], final(v)@[b]),
{
    v.sort();
}

proof fn lemma_total_size_prefix(s: Seq<CacheFile>, i: int)
    requires
        0 <= i <= s.len(),
    ensures
        total_size(s.subrange(0, i)) <= total_size(s),
    decreases s.len() - i,
{
    if i == s.len() {
        assert(s.subrange(0, i) =~= s);
    } else {
        lemma_total_size_prefix(s, i + 1);
        assert(s.subrange(0, i + 1).drop_last() =~= s.subrange(0, i));
    }
}

/// Decides what one sweep deletes. First every file older than `ttl_secs`
/// expires. Then, while the size of the rest exceeds `max_total_bytes`, the
/// oldest remaining file is evicted.
pub fn plan_sweep(files: &Vec<CacheFile>, now_ns: u64, ttl_secs: u64, max_total_bytes: u64) -> (p:
    SweepPlan)
    requires
        total_size(files@) <= u64::MAX,
    ensures
        is_sweep_plan(files@, now_ns, ttl_secs, max_total_bytes, p),
{
    broadcast use vstd::seq_lib::group_to_multiset_ensures;

    let n = files.len();
    let mut total_before: u64 = 0;
    let mut live: u64 = 0;
    let mut expired: Vec<usize> = Vec::new();
    let mut order: Vec<(u64, usize)> = Vec::new();
    let mut i: usize = 0;
    while i < n
        invariant
            n == files@.len(),
            total_size(files@) <= u64::MAX,
            i <= n,
            total_before == total_size(files@.subrange(0, i as int)),
            live == live_size(files@.subrange(0, i as int), now_ns, ttl_secs),
            live <= total_before,
            strictly_ascending(expired@),
            forall|k: int| 0 <= k < expired@.len() ==> expired@[k] < i,
            forall|j: int|
                0 <= j < i ==> (expired@.contains(j as usize) <==> expired_at(
                    files@[j],
                    now_ns,
                    ttl_secs,
                )),
            forall|q: int|
                0 <= q < order@.len() ==> {
                    let e = #[trigger] order@[q];
                    &&& e.1 < i
                    &&& e.0 == files@[e.1 as int].modified_ns
                    &&& !expired_at(files@[e.1 as int], now_ns, ttl_secs)
                },
            forall|a: int, b: int| 0 <= a < b < order@.len() ==> order@[a].1 < order@[b].1,
            forall|j: int|
                0 <= j < i && !expired_at(files@[j], now_ns, ttl_secs) ==> order@.contains(
                    (files@[j].modified_ns, j as usize),
                ),
        decreases n - i,
    {
        let f = files[i];
        proof {
            lemma_total_size_prefix(files@, i + 1);
            assert(files@.subrange(0, i + 1).drop_last() =~= files@.subrange(0, i as int));
        }
        total_before = total_before + f.size;
        if file_expired(f, now_ns, ttl_secs) {
            let ghost old_expired = expired@;
            expired.push(i);
            assert forall|j: int| 0 <= j < i + 1 implies (expired@.contains(j as usize)
                <==> expired_at(files@[j], now_ns, ttl_secs)) by {
                if j < i {
                    if expired@.contains(j as usize) {
                        let q = choose|q: int| 0 <= q < expired@.len() && expired@[q] == j as usize;
                        assert(q < old_expired.len());
                        assert(old_expired[q] == j as usize);
                    }
                    if old_expired.contains(j as usize) {
                        let q = choose|q: int|
                            0 <= q < old_expired.len() && old_expired[q] == j as usize;
                        assert(expired@[q] == j as usize);
                    }
                } else {
                    assert(expired@[expired@.len() - 1] == i);
                }
            }
        } else {
            live = live + f.size;
            let ghost old_order = order@;
            order.push((f.modified_ns, i));
            assert forall|j: int|
                0 <= j < i + 1 && !expired_at(files@[j], now_ns, ttl_secs) implies order@.contains(
                (files@[j].modified_ns, j as usize),
            ) by {
                if j < i {
                    let q = choose|q: int|
                        0 <= q < old_order.len() && old_order[q] == (
                            files@[j].modified_ns,
                            j as usize,
                        );
                    assert(order@[q] == old_order[q]);
                } else {
                    assert(order@[order@.len() - 1] == (f.modified_ns, i));
                }
            }
        }
        i = i + 1;
    }
    assert(files@.subrange(0, n as int) =~= files@);

    let mut total: u64 = live;
    let mut evicted: Vec<usize> = Vec::new();
    if live > max_total_bytes {
        let ghost unsorted = order@;
        proof {
            assert(unsorted.no_duplicates());
            unsorted.lemma_multiset_has_no_duplicates();
        }
        sort_pairs(&mut order);
        proof {
            order@.lemma_multiset_has_no_duplicates_conv();
            assert forall|q: int| 0 <= q < order@.len() implies {
                let e = #[trigger] order@[q];
                &&& e.1 < n
                &&& e.0 == files@[e.1 as int].modified_ns
                &&& !expired_at(files@[e.1 as int], now_ns, ttl_secs)
            } by {
                assert(order@.to_multiset().count(order@[q]) > 0);
                assert(unsorted.contains(order@[q]));
            }
            assert forall|j: int|
                0 <= j < n && !expired_at(files@[j], now_ns, ttl_secs) implies order@.contains(
                (files@[j].modified_ns, j as usize),
            ) by {
                assert(unsorted.to_multiset().count((files@[j].modified_ns, j as usize)) > 0);
            }
        }
        let mut k: usize = 0;
        while k < order.len()
            invariant
                n == files@.len(),
                k <= order@.len(),
                order@.no_duplicates(),
                forall|a: int, b: int|
                    0 <= a < b < order@.len() ==> pair_le(order@[a], order@[b]),
                forall|q: int|
                    0 <= q < order@.len() ==> {
                        let e = #[trigger] order@[q];
                        &&& e.1 < n
                        &&& e.0 == files@[e.1 as int].modified_ns
                        &&& !expired_at(files@[e.1 as int], now_ns, ttl_secs)
                    },
                forall|j: int|
                    0 <= j < n && !expired_at(files@[j], now_ns, ttl_secs) ==> order@.contains(
                        (files@[j].modified_ns, j as usize),
                    ),
                evicted@.len() == k,
                forall|q: int| 0 <= q < k ==> evicted@[q] == #[trigger] order@[q].1,
                total == total_after_removing(live as int, files@, evicted@),
                forall|q: int|
                    0 <= q < k ==> total_after_removing(live as int, files@, evicted@.subrange(0, q))
                        > max_total_bytes,
            ensures
                k == order@.len() || total <= max_total_bytes,
            decreases order@.len() - k,
        {
            if total <= max_total_bytes {
                break;
            }
            let idx = order[k].1;
            let ghost before = evicted@;
            total = total.saturating_sub(files[idx].size);
            evicted.push(idx);
            proof {
                assert(evicted@.drop_last() =~= before);
                assert forall|q: int| 0 <= q < k + 1 implies total_after_removing(
                    live as int,
                    files@,
                    evicted@.subrange(0, q),
                ) > max_total_bytes by {
                    if q < k {
                        assert(evicted@.subrange(0, q) =~= before.subrange(0, q));
                    } else {
                        assert(evicted@.subrange(0, q) =~= before);
                    }
                }
            }
            k = k + 1;
        }
        proof {
            let ev = evicted@;
            assert forall|q: int| 0 <= q < ev.len() implies ev[q] < n && !expired_at(
                files@[ev[q] as int],
                now_ns,
                ttl_secs,
            ) by {
                assert(ev[q] == order@[q].1);
            }
            assert forall|a: int, b: int| 0 <= a < b < ev.len() implies evicts_before(
                files@,
                ev[a] as int,
                ev[b] as int,
            ) by {
                let ea = order@[a];
                let eb = order@[b];
                assert(pair_le(ea, eb));
                assert(ea != eb);
            }
            assert forall|j: int, q: int|
                0 <= j < n && !expired_at(files@[j], now_ns, ttl_secs) && !ev.contains(j as usize)
                    && 0 <= q < ev.len() implies evicts_before(files@, ev[q] as int, j) by {
                let key = (files@[j].modified_ns, j as usize);
                let p = choose|p: int| 0 <= p < order@.len() && order@[p] == key;
                if p < k {
                    assert(ev[p] == j as usize);
                }
                assert(pair_le(order@[q], order@[p]));
                assert(order@[q] != order@[p]);
            }
            assert(total <= max_total_bytes || forall|j: int|
                0 <= j < n && !expired_at(files@[j], now_ns, ttl_secs) ==> ev.contains(j as usize))
                by {
                if total > max_total_bytes {
                    assert forall|j: int|
                        0 <= j < n && !expired_at(files@[j], now_ns, ttl_secs) implies ev.contains(
                        j as usize,
                    ) by {
                        let key = (files@[j].modified_ns, j as usize);
                        let p = choose|p: int| 0 <= p < order@.len() && order@[p] == key;
                        assert(ev[p] == j as usize);
                    }
                }
            }
        }
    }
    SweepPlan { expired, evicted, total_before, total_after: total }
}

} // verus!
