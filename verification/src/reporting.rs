//! Aggregation of scenario results into the report: tallies of fault types
//! and endpoints, failure counts, and the recommendation and analysis
//! sections.

use vstd::prelude::*;
use colored::Colorize;
use vstd::string::*;
use crate::text::{capitalize, push_decimal, spec_capitalize, spec_decimal, str_eq};

verus! {

/// Outcome of checking a request against its expectation.
#[derive(Clone, Copy, Debug, PartialEq, Eq, Structural)]
pub enum ReportItemExpectationDecision {
    Success,
    Failure,
    Unknown,
}

/// Occurrences of `k` in `keys`.
pub open spec fn spec_count(keys: Seq<Seq<char>>, k: Seq<char>) -> nat
    decreases keys.len(),
{
    if keys.len() == 0 {
        0
    } else {
        spec_count(keys.drop_last(), k) + if keys.last() == k {
            1nat
        } else {
            0nat
        }
    }
}

/// The views of a list of strings.
pub open spec fn key_views(keys: Seq<String>) -> Seq<Seq<char>> {
    keys.map_values(|s: String| s@)
}

/// The views of a tally.
pub open spec fn tally_view(t: Seq<(String, usize)>) -> Seq<(Seq<char>, usize)> {
    t.map_values(|e: (String, usize)| (e.0@, e.1))
}

/// `t` lists each key of `keys` once, with its number of occurrences.
pub open spec fn is_tally_of(t: Seq<(Seq<char>, usize)>, keys: Seq<Seq<char>>) -> bool {
    &&& forall|i: int, j: int| 0 <= i < j < t.len() ==> t[i].0 != t[j].0
    &&& forall|i: int| 0 <= i < t.len() ==> #[trigger] t[i].1 == spec_count(keys, t[i].0) && t[i].1 > 0
    &&& forall|k: int| 0 <= k < keys.len() ==> exists|i: int| 0 <= i < t.len() && t[i].0 == #[trigger] keys[k]
}

proof fn lemma_count_le_len(keys: Seq<Seq<char>>, k: Seq<char>)
    ensures
        spec_count(keys, k) <= keys.len(),
    decreases keys.len(),
{
    if keys.len() > 0 {
        lemma_count_le_len(keys.drop_last(), k);
    }
}

proof fn lemma_count_absent(keys: Seq<Seq<char>>, k: Seq<char>)
    requires
        forall|j: int| 0 <= j < keys.len() ==> keys[j] != k,
    ensures
        spec_count(keys, k) == 0,
    decreases keys.len(),
{
    if keys.len() > 0 {
        lemma_count_absent(keys.drop_last(), k);
    }
}

/// Position of `key` in a tally, if it is there.
fn find_key(t: &Vec<(String, usize)>, key: &str) -> (r: Option<usize>)
    ensures
        match r {
            Some(p) => p < t@.len() && t@[p as int].0@ == key@,
            None => forall|q: int| 0 <= q < t@.len() ==> t@[q].0@ != key@,
        },
{
    let mut p: usize = 0;
    while p < t.len()
        invariant
            p <= t.len(),
            forall|q: int| 0 <= q < p ==> t@[q].0@ != key@,
        decreases t.len() - p,
    {
        if str_eq(t[p].0.as_str(), key) {
            return Some(p);
        }
        p += 1;
    }
    None
}

/// Sum of the counts of a tally.
pub open spec fn spec_tally_total(t: Seq<(Seq<char>, usize)>) -> nat
    decreases t.len(),
{
    if t.len() == 0 {
        0
    } else {
        spec_tally_total(t.drop_last()) + t.last().1 as nat
    }
}

proof fn lemma_total_update(t: Seq<(Seq<char>, usize)>, p: int, e: (Seq<char>, usize))
    requires
        0 <= p < t.len(),
    ensures
        spec_tally_total(t.update(p, e)) + t[p].1 == spec_tally_total(t) + e.1,
    decreases t.len(),
{
    let u = t.update(p, e);
    if p == t.len() - 1 {
        assert(u.drop_last() =~= t.drop_last());
    } else {
        lemma_total_update(t.drop_last(), p, e);
        assert(u.drop_last() =~= t.drop_last().update(p, e));
    }
}

/// `k` occurs in `keys` before position `q`.
pub open spec fn occurs_before(keys: Seq<Seq<char>>, k: Seq<char>, q: int) -> bool {
    exists|p: int| 0 <= p < q && #[trigger] keys[p] == k
}

/// `t` lists its keys in the order they first occur in `keys`: wherever the
/// key of a later entry occurs, the key of an earlier entry has occurred
/// before.
#[verifier::opaque]
pub open spec fn in_first_seen_order(t: Seq<(Seq<char>, usize)>, keys: Seq<Seq<char>>) -> bool {
    forall|a: int, b: int, q: int|
        #![trigger t[a], t[b], keys[q]]
        0 <= a < b < t.len() && 0 <= q < keys.len() && keys[q] == t[b].0 ==> occurs_before(keys, t[a].0, q)
}

/// Every key of `t` occurs in `keys`.
#[verifier::opaque]
spec fn keys_occur(t: Seq<(Seq<char>, usize)>, keys: Seq<Seq<char>>) -> bool {
    forall|x: int| 0 <= x < t.len() ==> occurs_before(keys, (#[trigger] t[x]).0, keys.len() as int)
}

proof fn lemma_occurs_extend(keys: Seq<Seq<char>>, k: Seq<char>, q: int, e: Seq<char>, q2: int)
    requires
        occurs_before(keys, k, q),
        q <= q2,
        q <= keys.len(),
    ensures
        occurs_before(keys.push(e), k, q2),
{
    let p = choose|p: int| 0 <= p < q && #[trigger] keys[p] == k;
    assert(keys.push(e)[p] == keys[p]);
}

proof fn lemma_order_after_update(
    tv: Seq<(Seq<char>, usize)>,
    nv: Seq<(Seq<char>, usize)>,
    prev: Seq<Seq<char>>,
    key: Seq<char>,
    p: int,
)
    requires
        0 <= p < tv.len(),
        nv.len() == tv.len(),
        forall|x: int| 0 <= x < tv.len() ==> #[trigger] nv[x].0 == tv[x].0,
        tv[p].0 == key,
        in_first_seen_order(tv, prev),
        keys_occur(tv, prev),
    ensures
        in_first_seen_order(nv, prev.push(key)),
        keys_occur(nv, prev.push(key)),
{
    reveal(in_first_seen_order);
    reveal(keys_occur);
    let next = prev.push(key);
    assert forall|x: int| 0 <= x < nv.len() implies occurs_before(next, (#[trigger] nv[x]).0, next.len() as int) by {
        assert(nv[x].0 == tv[x].0);
        assert(occurs_before(prev, tv[x].0, prev.len() as int));
        lemma_occurs_extend(prev, tv[x].0, prev.len() as int, key, next.len() as int);
    }
    assert forall|a: int, b: int, q: int|
        #![trigger nv[a], nv[b], next[q]]
        0 <= a < b < nv.len() && 0 <= q < next.len() && next[q] == nv[b].0 implies occurs_before(next, nv[a].0, q) by {
        assert(nv[a].0 == tv[a].0);
        assert(nv[b].0 == tv[b].0);
        if q < prev.len() {
            assert(next[q] == prev[q]);
            assert(tv[a] == tv[a] && tv[b] == tv[b] && prev[q] == prev[q]);
            assert(occurs_before(prev, tv[a].0, q));
            lemma_occurs_extend(prev, tv[a].0, q, key, q);
        } else {
            assert(tv[a] == tv[a]);
            assert(occurs_before(prev, tv[a].0, prev.len() as int));
            lemma_occurs_extend(prev, tv[a].0, prev.len() as int, key, q);
        }
    }
}

proof fn lemma_order_after_push(
    tv: Seq<(Seq<char>, usize)>,
    prev: Seq<Seq<char>>,
    key: Seq<char>,
    c: usize,
)
    requires
        forall|x: int| 0 <= x < tv.len() ==> #[trigger] tv[x].0 != key,
        forall|j: int| 0 <= j < prev.len() ==> #[trigger] prev[j] != key,
        in_first_seen_order(tv, prev),
        keys_occur(tv, prev),
    ensures
        in_first_seen_order(tv.push((key, c)), prev.push(key)),
        keys_occur(tv.push((key, c)), prev.push(key)),
{
    reveal(in_first_seen_order);
    reveal(keys_occur);
    let next = prev.push(key);
    let nv = tv.push((key, c));
    assert forall|x: int| 0 <= x < nv.len() implies occurs_before(next, (#[trigger] nv[x]).0, next.len() as int) by {
        if x < tv.len() {
            assert(nv[x] == tv[x]);
            assert(occurs_before(prev, tv[x].0, prev.len() as int));
            lemma_occurs_extend(prev, tv[x].0, prev.len() as int, key, next.len() as int);
        } else {
            assert(next[prev.len() as int] == nv[x].0);
        }
    }
    assert forall|a: int, b: int, q: int|
        #![trigger nv[a], nv[b], next[q]]
        0 <= a < b < nv.len() && 0 <= q < next.len() && next[q] == nv[b].0 implies occurs_before(next, nv[a].0, q) by {
        assert(nv[a] == tv[a]);
        if b < tv.len() {
            assert(nv[b] == tv[b]);
            if q < prev.len() {
                assert(next[q] == prev[q]);
                assert(tv[a] == tv[a] && tv[b] == tv[b] && prev[q] == prev[q]);
                assert(occurs_before(prev, tv[a].0, q));
                lemma_occurs_extend(prev, tv[a].0, q, key, q);
            } else {
                assert(next[q] == key);
                assert(tv[b].0 != key);
            }
        } else {
            assert(nv[b].0 == key);
            if q < prev.len() {
                assert(next[q] == prev[q]);
                assert(prev[q] != key);
            } else {
                assert(tv[a] == tv[a]);
                assert(occurs_before(prev, tv[a].0, prev.len() as int));
                lemma_occurs_extend(prev, tv[a].0, prev.len() as int, key, q);
            }
        }
    }
}

/// Counts the occurrences of each key, listing keys in the order they first
/// occur.
pub fn tally(keys: &Vec<String>) -> (r: Vec<(String, usize)>)
    ensures
        is_tally_of(tally_view(r@), key_views(keys@)),
        spec_tally_total(tally_view(r@)) == keys@.len(),
        in_first_seen_order(tally_view(r@), key_views(keys@)),
{
    let ghost kv = key_views(keys@);
    let mut out: Vec<(String, usize)> = Vec::new();
    proof {
        reveal(in_first_seen_order);
        reveal(keys_occur);
    }
    let mut i: usize = 0;
    while i < keys.len()
        invariant
            i <= keys.len(),
            kv == key_views(keys@),
            is_tally_of(tally_view(out@), kv.take(i as int)),
            spec_tally_total(tally_view(out@)) == i,
            in_first_seen_order(tally_view(out@), kv.take(i as int)),
            keys_occur(tally_view(out@), kv.take(i as int)),
        decreases keys.len() - i,
    {
        let key = &keys[i];
        let ghost prev = kv.take(i as int);
        let ghost next = kv.take(i + 1);
        assert(next.drop_last() =~= prev);
        assert(next.last() == key@);
        assert(next =~= prev.push(key@));
        let found_at = find_key(&out, key.as_str());
        let ghost tv = tally_view(out@);
        let ghost old_out = out@;
        if let Some(p) = found_at {
            let c = out[p].1;
            proof {
                lemma_count_le_len(prev, key@);
                assert(tv[p as int].0 == key@);
                assert(tv[p as int].1 == c);
                assert(c <= i);
            }
            let entry = (out[p].0.clone(), c + 1);
            out.set(p, entry);
            proof {
                let nv = tally_view(out@);
                assert(nv =~= tv.update(p as int, (key@, (c + 1) as usize)));
                lemma_total_update(tv, p as int, (key@, (c + 1) as usize));
                assert forall|x: int| 0 <= x < nv.len() implies #[trigger] nv[x].1 == spec_count(next, nv[x].0)
                    && nv[x].1 > 0 by {
                    assert(nv[x].0 == tv[x].0);
                    assert(spec_count(next, tv[x].0) == spec_count(prev, tv[x].0) + if key@ == tv[x].0 { 1nat } else { 0nat });
                    if x == p {
                        assert(nv[x].1 == c + 1);
                    } else {
                        assert(nv[x] == tv[x]);
                        if x < p {
                            assert(tv[x].0 != tv[p as int].0);
                        } else {
                            assert(tv[p as int].0 != tv[x].0);
                        }
                    }
                }
                assert forall|k: int| 0 <= k < next.len() implies exists|x: int| 0 <= x < nv.len() && nv[x].0 == #[trigger] next[k] by {
                    if k < i {
                        assert(next[k] == prev[k]);
                        let x = choose|x: int| 0 <= x < tv.len() && tv[x].0 == prev[k];
                        assert(nv[x].0 == tv[x].0);
                    } else {
                        assert(nv[p as int].0 == next[k]);
                    }
                }
                assert forall|a: int, b: int| 0 <= a < b < nv.len() implies nv[a].0 != nv[b].0 by {
                    assert(nv[a].0 == tv[a].0);
                    assert(nv[b].0 == tv[b].0);
                }
                assert forall|x: int| 0 <= x < tv.len() implies #[trigger] nv[x].0 == tv[x].0 by {}
                lemma_order_after_update(tv, nv, prev, key@, p as int);
            }
        } else {
            proof {
                assert forall|x: int| 0 <= x < tv.len() implies tv[x].0 != key@ by {
                    assert(tv[x].0 == old_out[x].0@);
                }
                assert forall|j: int| 0 <= j < prev.len() implies prev[j] != key@ by {
                    if prev[j] == key@ {
                        let x = choose|x: int| 0 <= x < tv.len() && tv[x].0 == #[trigger] prev[j];
                        assert(out@[x].0@ == tv[x].0);
                    }
                }
                lemma_count_absent(prev, key@);
            }
            out.push((key.clone(), 1));
            proof {
                let nv = tally_view(out@);
                assert(nv.len() == tv.len() + 1);
                assert(nv.drop_last() =~= tv);
                assert forall|x: int| 0 <= x < nv.len() implies #[trigger] nv[x].1 == spec_count(next, nv[x].0)
                    && nv[x].1 > 0 by {
                    if x < tv.len() {
                        assert(nv[x] == tv[x]);
                        assert(tv[x].0 != key@);
                    } else {
                        assert(nv[x].0 == key@);
                    }
                }
                assert forall|k: int| 0 <= k < next.len() implies exists|x: int| 0 <= x < nv.len() && nv[x].0 == #[trigger] next[k] by {
                    if k < i {
                        assert(next[k] == prev[k]);
                        let x = choose|x: int| 0 <= x < tv.len() && tv[x].0 == prev[k];
                        assert(nv[x] == tv[x]);
                    } else {
                        assert(nv[tv.len() as int].0 == next[k]);
                    }
                }
                assert forall|a: int, b: int| 0 <= a < b < nv.len() implies nv[a].0 != nv[b].0 by {
                    if b < tv.len() {
                        assert(nv[a] == tv[a]);
                        assert(nv[b] == tv[b]);
                    } else {
                        assert(nv[a] == tv[a]);
                        assert(out@[a].0@ != key@);
                    }
                }
                assert(nv =~= tv.push((key@, 1usize)));
                lemma_order_after_push(tv, prev, key@, 1usize);
            }
        }
        i += 1;
    }
    assert(kv.take(keys.len() as int) =~= kv);
    out
}

/// The count a tally records for `key`, zero when it has none.
pub open spec fn spec_count_of(t: Seq<(Seq<char>, usize)>, key: Seq<char>) -> nat {
    if exists|i: int| 0 <= i < t.len() && t[i].0 == key {
        t[choose|i: int| 0 <= i < t.len() && t[i].0 == key].1 as nat
    } else {
        0
    }
}

/// Looks up the count of `key` in a tally; zero when absent.
pub fn count_of(t: &Vec<(String, usize)>, key: &str) -> (r: usize)
    requires
        forall|i: int, j: int| 0 <= i < j < t@.len() ==> t@[i].0@ != t@[j].0@,
    ensures
        r == spec_count_of(tally_view(t@), key@),
{
    let ghost tv = tally_view(t@);
    match find_key(t, key) {
        Some(p) => {
            proof {
                assert(tv[p as int].0 == key@);
                let c = choose|c: int| 0 <= c < tv.len() && tv[c].0 == key@;
                assert(t@[c].0@ == tv[c].0);
                if c < p {
                    assert(t@[c].0@ != t@[p as int].0@);
                }
                if p < c {
                    assert(t@[p as int].0@ != t@[c].0@);
                }
            }
            t[p].1
        },
        None => {
            proof {
                assert forall|j: int| 0 <= j < tv.len() implies tv[j].0 != key@ by {
                    assert(tv[j].0 == t@[j].0@);
                }
            }
            0
        },
    }
}

/// Looking a key up in the tally of a list of keys gives its number of
/// occurrences in the list, zero for a key that does not occur.
pub proof fn lemma_tally_lookup(t: Seq<(Seq<char>, usize)>, keys: Seq<Seq<char>>, k: Seq<char>)
    requires
        is_tally_of(t, keys),
    ensures
        spec_count_of(t, k) == spec_count(keys, k),
{
    if exists|i: int| 0 <= i < t.len() && t[i].0 == k {
        let i = choose|i: int| 0 <= i < t.len() && t[i].0 == k;
        assert(t[i].1 == spec_count(keys, t[i].0));
    } else {
        assert forall|j: int| 0 <= j < keys.len() implies keys[j] != k by {
            if keys[j] == k {
                let x = choose|x: int| 0 <= x < t.len() && t[x].0 == #[trigger] keys[j];
                assert(t[x].0 == k);
            }
        }
        lemma_count_absent(keys, k);
    }
}

/// Number of failed expectations among `d`.
pub open spec fn spec_failures(d: Seq<ReportItemExpectationDecision>) -> nat
    decreases d.len(),
{
    if d.len() == 0 {
        0
    } else {
        spec_failures(d.drop_last()) + if d.last() == ReportItemExpectationDecision::Failure {
            1nat
        } else {
            0nat
        }
    }
}

/// Counts the failed expectations.
pub fn count_failures(decisions: &Vec<ReportItemExpectationDecision>) -> (r: usize)
    ensures
        r == spec_failures(decisions@),
{
    let mut n: usize = 0;
    let mut i: usize = 0;
    while i < decisions.len()
        invariant
            i <= decisions.len(),
            n == spec_failures(decisions@.take(i as int)),
            n <= i,
        decreases decisions.len() - i,
    {
        assert(decisions@.take(i + 1).drop_last() =~= decisions@.take(i as int));
        if decisions[i] == ReportItemExpectationDecision::Failure {
            n += 1;
        }
        i += 1;
    }
    assert(decisions@.take(decisions.len() as int) =~= decisions@);
    n
}

/// Views of report rows: endpoint and decision.
pub open spec fn row_views(rows: Seq<(String, ReportItemExpectationDecision)>) -> Seq<(Seq<char>, ReportItemExpectationDecision)> {
    rows.map_values(|r: (String, ReportItemExpectationDecision)| (r.0@, r.1))
}

/// Rows for `endpoint`, and among them the failed ones.
pub open spec fn spec_endpoint_counts(rows: Seq<(Seq<char>, ReportItemExpectationDecision)>, endpoint: Seq<char>) -> (nat, nat)
    decreases rows.len(),
{
    if rows.len() == 0 {
        (0, 0)
    } else {
        let (total, errors) = spec_endpoint_counts(rows.drop_last(), endpoint);
        let last = rows.last();
        if last.0 == endpoint {
            (total + 1, errors + if last.1 == ReportItemExpectationDecision::Failure {
                1nat
            } else {
                0nat
            })
        } else {
            (total, errors)
        }
    }
}

proof fn lemma_endpoint_counts_bounded(rows: Seq<(Seq<char>, ReportItemExpectationDecision)>, endpoint: Seq<char>)
    ensures
        spec_endpoint_counts(rows, endpoint).1 <= spec_endpoint_counts(rows, endpoint).0 <= rows.len(),
    decreases rows.len(),
{
    if rows.len() > 0 {
        lemma_endpoint_counts_bounded(rows.drop_last(), endpoint);
    }
}

/// Requests sent to an endpoint, and how many of them failed their
/// expectation.
pub fn endpoint_counts(rows: &Vec<(String, ReportItemExpectationDecision)>, endpoint: &str) -> (r: (usize, usize))
    ensures
        r.0 as nat == spec_endpoint_counts(row_views(rows@), endpoint@).0,
        r.1 as nat == spec_endpoint_counts(row_views(rows@), endpoint@).1,
{
    let mut total: usize = 0;
    let mut errors: usize = 0;
    let mut i: usize = 0;
    while i < rows.len()
        invariant
            i <= rows.len(),
            (total as nat, errors as nat) == spec_endpoint_counts(row_views(rows@).take(i as int), endpoint@),
        decreases rows.len() - i,
    {
        proof {
            assert(row_views(rows@).take(i + 1).drop_last() =~= row_views(rows@).take(i as int));
            lemma_endpoint_counts_bounded(row_views(rows@).take(i as int), endpoint@);
        }
        if str_eq(rows[i].0.as_str(), endpoint) {
            total += 1;
            if rows[i].1 == ReportItemExpectationDecision::Failure {
                errors += 1;
            }
        }
        i += 1;
    }
    assert(row_views(rows@).take(rows.len() as int) =~= row_views(rows@));
    (total, errors)
}

/// Advice given for a fault type seen `count` times, if any.
pub open spec fn spec_recommendation(fault_type: Seq<char>, count: nat) -> Option<Seq<char>> {
    if fault_type == "latency"@ && count > 3 {
        Some(
            "High latency issues detected frequently. Consider optimizing network calls or improving service scalability."@,
        )
    } else if fault_type == "packetloss"@ && count > 1 {
        Some("Packet loss observed in multiple endpoints. Investigate network stability and routing paths."@)
    } else if fault_type == "httperror"@ && count > 1 {
        Some("Frequent HTTP errors detected. Review error handling and server configurations."@)
    } else if fault_type == "bandwidth"@ && count > 2 {
        Some(
            "Bandwidth limitations impacting multiple endpoints. Consider upgrading network infrastructure or optimizing data transfer."@,
        )
    } else if fault_type == "jitter"@ && count > 2 {
        Some("Jitter affecting endpoint performance. Implement measures to stabilize network latency."@)
    } else {
        None
    }
}

/// Each fault type gets its own advice, once it is seen more often than its
/// threshold (latency more than 3 times, packet loss and HTTP errors more
/// than once, bandwidth and jitter more than twice); other fault types get
/// none.
pub proof fn lemma_recommendation_advice(fault_type: Seq<char>, count: nat)
    ensures
        fault_type == "latency"@ ==> spec_recommendation(fault_type, count) == if count > 3 {
            Some(
                "High latency issues detected frequently. Consider optimizing network calls or improving service scalability."@,
            )
        } else {
            None
        },
        fault_type == "packetloss"@ ==> spec_recommendation(fault_type, count) == if count > 1 {
            Some("Packet loss observed in multiple endpoints. Investigate network stability and routing paths."@)
        } else {
            None
        },
        fault_type == "httperror"@ ==> spec_recommendation(fault_type, count) == if count > 1 {
            Some("Frequent HTTP errors detected. Review error handling and server configurations."@)
        } else {
            None
        },
        fault_type == "bandwidth"@ ==> spec_recommendation(fault_type, count) == if count > 2 {
            Some(
                "Bandwidth limitations impacting multiple endpoints. Consider upgrading network infrastructure or optimizing data transfer."@,
            )
        } else {
            None
        },
        fault_type == "jitter"@ ==> spec_recommendation(fault_type, count) == if count > 2 {
            Some("Jitter affecting endpoint performance. Implement measures to stabilize network latency."@)
        } else {
            None
        },
        (fault_type != "latency"@ && fault_type != "packetloss"@ && fault_type != "httperror"@
            && fault_type != "bandwidth"@ && fault_type != "jitter"@) ==> spec_recommendation(fault_type, count)
            is None,
{
    broadcast use vstd::string::group_string_axioms;
    reveal_strlit("latency");
    reveal_strlit("packetloss");
    reveal_strlit("httperror");
    reveal_strlit("bandwidth");
    reveal_strlit("jitter");
    assert("latency"@.len() == 7);
    assert("packetloss"@.len() == 10);
    assert("httperror"@.len() == 9);
    assert("bandwidth"@.len() == 9);
    assert("jitter"@.len() == 6);
    assert("httperror"@[0] != "bandwidth"@[0]);
}

/// The advice given for a fault type seen `count` times, if any.
pub fn recommendation(fault_type: &str, count: usize) -> (r: Option<&'static str>)
    ensures
        match spec_recommendation(fault_type@, count as nat) {
            Some(m) => r matches Some(s) && s@ == m,
            None => r is None,
        },
{
    if str_eq(fault_type, "latency") && count > 3 {
        Some(
            "High latency issues detected frequently. Consider optimizing network calls or improving service scalability.",
        )
    } else if str_eq(fault_type, "packetloss") && count > 1 {
        Some("Packet loss observed in multiple endpoints. Investigate network stability and routing paths.")
    } else if str_eq(fault_type, "httperror") && count > 1 {
        Some("Frequent HTTP errors detected. Review error handling and server configurations.")
    } else if str_eq(fault_type, "bandwidth") && count > 2 {
        Some(
            "Bandwidth limitations impacting multiple endpoints. Consider upgrading network infrastructure or optimizing data transfer.",
        )
    } else if str_eq(fault_type, "jitter") && count > 2 {
        Some("Jitter affecting endpoint performance. Implement measures to stabilize network latency.")
    } else {
        None
    }
}

/// The recommendation lines of a tally, each `label: advice`.
pub open spec fn spec_recommendation_lines(t: Seq<(Seq<char>, usize)>, label: Seq<char>) -> Seq<char>
    decreases t.len(),
{
    if t.len() == 0 {
        Seq::empty()
    } else {
        spec_recommendation_lines(t.drop_last(), label) + match spec_recommendation(
            t.last().0,
            t.last().1 as nat,
        ) {
            Some(m) => label + ": "@ + m + "\n"@,
            None => Seq::empty(),
        }
    }
}

/// The recommendations section: one line per fault type that calls for
/// advice, or a note that none applies.
pub open spec fn spec_recommendations(t: Seq<(Seq<char>, usize)>, label: Seq<char>) -> Seq<char> {
    let lines = spec_recommendation_lines(t, label);
    if lines.len() == 0 {
        "No specific recommendations based on fault types.\n"@
    } else {
        lines
    }
}

/// Writes the recommendations section for a tally of fault types, each line
/// headed by `label`.
pub fn recommendations_with_label(t: &Vec<(String, usize)>, label: &str) -> (r: String)
    ensures
        r@ == spec_recommendations(tally_view(t@), label@),
{
    let ghost tv = tally_view(t@);
    let mut out = String::new();
    let mut i: usize = 0;
    while i < t.len()
        invariant
            i <= t.len(),
            tv == tally_view(t@),
            out@ == spec_recommendation_lines(tv.take(i as int), label@),
        decreases t.len() - i,
    {
        assert(tv.take(i + 1).drop_last() =~= tv.take(i as int));
        assert(tv.take(i + 1).last() == tv[i as int]);
        match recommendation(t[i].0.as_str(), t[i].1) {
            Some(m) => {
                out.append(label);
                out.append(": ");
                out.append(m);
                out.append("\n");
            },
            None => {},
        }
        i += 1;
    }
    assert(tv.take(t.len() as int) =~= tv);
    if out.unicode_len() == 0 {
        String::from_str("No specific recommendations based on fault types.\n")
    } else {
        out
    }
}

/// `s` holds no escape character.
pub open spec fn has_no_escape(s: Seq<char>) -> bool {
    forall|i: int| 0 <= i < s.len() ==> s[i] != '\u{1b}'
}

/// `text` as a bold yellow heading: either unchanged (colouring off) or
/// wrapped in the bold-yellow escape sequence and the reset sequence.
pub open spec fn is_styled_heading(text: Seq<char>, r: Seq<char>) -> bool {
    r == text || r == "\u{1b}[1;33m"@ + text + "\u{1b}[0m"@
}

/// Calls `colored::Colorize::yellow` then `bold` on `text` and renders the
/// `ColoredString` with `to_string`. Its `Display` writes the text alone
/// when colouring is off, and otherwise the escape sequence of the style
/// (bold is "1", yellow foreground "33"), the text with any inner reset
/// sequence re-styled, and the reset sequence. Whether colouring is on
/// depends on the terminal and the environment, so which of the two comes
/// out is left unstated; for a text without an escape character no inner
/// reset sequence can occur.
#[verifier::external_body]
fn style_heading(text: &str) -> (r: String)
    ensures
        has_no_escape(text@) ==> is_styled_heading(text@, r@),
{
    text.yellow().bold().to_string()
}

/// Heading of each recommendation line.
pub open spec fn recommendation_heading() -> Seq<char> {
    "\u{1f527} Recommendation"@
}

/// Writes the recommendations section of the report for a tally of fault
/// types, each line headed by "🔧 Recommendation" in bold yellow (plain
/// when colouring is off).
pub fn generate_fault_recommendations(t: &Vec<(String, usize)>) -> (r: String)
    ensures
        r@ == spec_recommendations(tally_view(t@), recommendation_heading())
            || r@ == spec_recommendations(
            tally_view(t@),
            "\u{1b}[1;33m"@ + recommendation_heading() + "\u{1b}[0m"@,
        ),
{
    let heading = "\u{1f527} Recommendation";
    proof {
        broadcast use vstd::string::group_string_axioms;
        reveal_strlit("\u{1f527} Recommendation");
        assert(heading@ =~= seq!['\u{1f527}', ' ', 'R', 'e', 'c', 'o', 'm', 'm', 'e', 'n', 'd', 'a', 't', 'i', 'o', 'n']);
        assert(has_no_escape(heading@));
    }
    let label = style_heading(heading);
    recommendations_with_label(t, label.as_str())
}

/// The lines of the fault type analysis.
pub open spec fn spec_analysis_lines(t: Seq<(Seq<char>, usize)>) -> Seq<char>
    decreases t.len(),
{
    if t.len() == 0 {
        Seq::empty()
    } else {
        spec_analysis_lines(t.drop_last()) + "- **"@ + spec_capitalize(t.last().0) + "** occurred "@
            + spec_decimal(t.last().1 as nat) + " times.\n"@
    }
}

/// The fault type analysis section.
pub open spec fn spec_fault_analysis(t: Seq<(Seq<char>, usize)>) -> Seq<char> {
    "\n## Fault Type Analysis\n"@ + spec_analysis_lines(t)
}

/// Writes the fault type analysis section: how often each fault type
/// occurred.
pub fn fault_analysis_text(t: &Vec<(String, usize)>) -> (r: String)
    ensures
        r@ == spec_fault_analysis(tally_view(t@)),
{
    let ghost tv = tally_view(t@);
    let mut out = String::from_str("\n## Fault Type Analysis\n");
    let mut i: usize = 0;
    while i < t.len()
        invariant
            i <= t.len(),
            tv == tally_view(t@),
            out@ == "\n## Fault Type Analysis\n"@ + spec_analysis_lines(tv.take(i as int)),
        decreases t.len() - i,
    {
        assert(tv.take(i + 1).drop_last() =~= tv.take(i as int));
        assert(tv.take(i + 1).last() == tv[i as int]);
        out.append("- **");
        let cap = capitalize(t[i].0.as_str());
        out.append(cap.as_str());
        out.append("** occurred ");
        push_decimal(&mut out, t[i].1 as u64);
        out.append(" times.\n");
        assert(out@ =~= "\n## Fault Type Analysis\n"@ + spec_analysis_lines(tv.take(i + 1)));
        i += 1;
    }
    assert(tv.take(t.len() as int) =~= tv);
    out
}

} // verus!
