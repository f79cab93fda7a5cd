//! Per-payment-hash amount summaries: the in-flight value of each payment,
//! summed over the HTLCs of a commitment and merged across the holder and
//! counterparty views.

use vstd::prelude::*;

use crate::tx::{
    hash_count, hash_sum, lemma_sum_values_nonneg, sum_htlc_values, HTLCInfo2, PaymentHash,
};

verus! {

/// The per-hash summary a single commitment induces: the summed value of the
/// HTLCs carrying `h`, or nothing when no HTLC carries `h`.
pub open spec fn htlc_summary(s: Seq<HTLCInfo2>, h: Seq<u8>) -> Option<u64> {
    if hash_count(s, h) != 0 {
        Some(hash_sum(s, h) as u64)
    } else {
        None
    }
}

/// Merge of two per-hash views taking the larger amount: a payment is
/// at-risk as soon as either commitment contains it.
pub open spec fn max_combine(x: Option<u64>, y: Option<u64>) -> Option<u64> {
    match (x, y) {
        (Some(a), Some(b)) => Some(
            if a >= b {
                a
            } else {
                b
            },
        ),
        (Some(a), None) => Some(a),
        (None, _) => y,
    }
}

/// Merge of two per-hash views taking the smaller amount and requiring both:
/// a payment counts only once both commitments witness it.
pub open spec fn min_combine(x: Option<u64>, y: Option<u64>) -> Option<u64> {
    match (x, y) {
        (Some(a), Some(b)) => Some(
            if a <= b {
                a
            } else {
                b
            },
        ),
        (_, _) => None,
    }
}

/// No two entries carry the same payment hash.
pub open spec fn distinct_hashes(s: Seq<(PaymentHash, u64)>) -> bool {
    forall|i: int, j: int| 0 <= i < j < s.len() ==> s[i].0@ != s[j].0@
}

/// The amount recorded for `h`, scanning from the most recent entry.
pub open spec fn seq_get(s: Seq<(PaymentHash, u64)>, h: Seq<u8>) -> Option<u64>
    decreases s.len(),
{
    if s.len() == 0 {
        None
    } else if s.last().0@ == h {
        Some(s.last().1)
    } else {
        seq_get(s.drop_last(), h)
    }
}

/// A mapping from payment hash to an in-flight satoshi amount.
#[derive(Clone, Debug, PartialEq)]
pub struct PaymentSummary {
    pub entries: Vec<(PaymentHash, u64)>,
}

/// An entry present at index `i` of a duplicate-free list is the one the
/// lookup returns.
pub proof fn lemma_seq_get_at(s: Seq<(PaymentHash, u64)>, i: int)
    requires
        distinct_hashes(s),
        0 <= i < s.len(),
    ensures
        seq_get(s, s[i].0@) == Some(s[i].1),
    decreases s.len(),
{
    if i == s.len() - 1 {
    } else {
        assert(s.last().0@ != s[i].0@);
        assert(s.drop_last()[i] == s[i]);
        lemma_seq_get_at(s.drop_last(), i);
    }
}

/// A hash no entry carries is not found.
pub proof fn lemma_seq_get_absent(s: Seq<(PaymentHash, u64)>, h: Seq<u8>)
    requires
        forall|j: int| 0 <= j < s.len() ==> s[j].0@ != h,
    ensures
        seq_get(s, h) is None,
    decreases s.len(),
{
    if s.len() > 0 {
        lemma_seq_get_absent(s.drop_last(), h);
    }
}

/// Appending an entry changes the lookup only at the appended hash.
pub proof fn lemma_seq_get_push(s: Seq<(PaymentHash, u64)>, p: (PaymentHash, u64), h: Seq<u8>)
    ensures
        seq_get(s.push(p), h) == if p.0@ == h {
            Some(p.1)
        } else {
            seq_get(s, h)
        },
{
    assert(s.push(p).drop_last() =~= s);
    assert(s.push(p).last() == p);
}

/// Removing the entry at `i` of a duplicate-free list erases exactly its
/// hash from the lookup.
pub proof fn lemma_seq_get_remove(s: Seq<(PaymentHash, u64)>, i: int, h: Seq<u8>)
    requires
        distinct_hashes(s),
        0 <= i < s.len(),
    ensures
        seq_get(s.remove(i), h) == if s[i].0@ == h {
            None::<u64>
        } else {
            seq_get(s, h)
        },
    decreases s.len(),
{
    if i == s.len() - 1 {
        assert(s.remove(i) =~= s.drop_last());
        if s[i].0@ == h {
            assert forall|j: int| 0 <= j < s.drop_last().len() implies s.drop_last()[j].0@
                != h by {
                assert(s.drop_last()[j] == s[j]);
            }
            lemma_seq_get_absent(s.drop_last(), h);
        }
    } else {
        let t = s.remove(i);
        assert(t.last() == s.last());
        assert(t.drop_last() =~= s.drop_last().remove(i));
        assert(distinct_hashes(s.drop_last())) by {
            assert forall|a: int, b: int|
                0 <= a < b < s.drop_last().len() implies s.drop_last()[a].0@
                != s.drop_last()[b].0@ by {
                assert(s.drop_last()[a] == s[a]);
                assert(s.drop_last()[b] == s[b]);
            }
        }
        lemma_seq_get_remove(s.drop_last(), i, h);
        if t.last().0@ == h {
        } else {
        }
    }
}

impl PaymentSummary {
    /// The amount in flight for `h`, if any.
    pub open spec fn spec_get(self, h: Seq<u8>) -> Option<u64> {
        seq_get(self.entries@, h)
    }

    /// Entries carry pairwise distinct hashes.
    pub open spec fn wf(self) -> bool {
        distinct_hashes(self.entries@)
    }

    /// An empty summary.
    pub fn new() -> (r: Self)
        ensures
            r.wf(),
            forall|h: Seq<u8>| #[trigger] r.spec_get(h) is None,
    {
        PaymentSummary { entries: Vec::new() }
    }

    /// The index of the entry for `hash`, if one exists.
    fn find(&self, hash: &PaymentHash) -> (r: Option<usize>)
        ensures
            match r {
                Some(i) => i < self.entries@.len() && self.entries@[i as int].0@ == hash@,
                None => forall|j: int| 0 <= j < self.entries@.len() ==> self.entries@[j].0@
                    != hash@,
            },
    {
        let mut i: usize = 0;
        while i < self.entries.len()
            invariant
                i <= self.entries@.len(),
                forall|j: int| 0 <= j < i ==> self.entries@[j].0@ != hash@,
            decreases self.entries@.len() - i,
        {
            if self.entries[i].0.eq_bytes(hash) {
                return Some(i);
            }
            i += 1;
        }
        None
    }

    /// The amount recorded for `hash`.
    pub fn get(&self, hash: &PaymentHash) -> (r: Option<u64>)
        requires
            self.wf(),
        ensures
            r == self.spec_get(hash@),
    {
        match self.find(hash) {
            Some(i) => {
                proof {
                    lemma_seq_get_at(self.entries@, i as int);
                }
                Some(self.entries[i].1)
            },
            None => {
                proof {
                    lemma_seq_get_absent(self.entries@, hash@);
                }
                None
            },
        }
    }

    /// Records exactly `value` for `hash`, leaving every other hash alone.
    fn replace_value(&mut self, hash: PaymentHash, value: u64)
        requires
            old(self).wf(),
        ensures
            final (self).wf(),
            final (self).spec_get(hash@) == Some(value),
            forall|h: Seq<u8>| h != hash@ ==> final (self).spec_get(h) == old(self).spec_get(h),
    {
        let ghost s0 = self.entries@;
        match self.find(&hash) {
            Some(i) => {
                let _ = self.entries.remove(i);
                proof {
                    let s1 = self.entries@;
                    assert(s1 == s0.remove(i as int));
                    assert(distinct_hashes(s1)) by {
                        assert forall|a: int, b: int| 0 <= a < b < s1.len() implies s1[a].0@
                            != s1[b].0@ by {
                            if b < i {
                                assert(s1[a] == s0[a] && s1[b] == s0[b]);
                            } else if a < i {
                                assert(s1[a] == s0[a] && s1[b] == s0[b + 1]);
                            } else {
                                assert(s1[a] == s0[a + 1] && s1[b] == s0[b + 1]);
                            }
                        }
                    }
                    assert forall|j: int| 0 <= j < s1.len() implies s1[j].0@ != hash@ by {
                        if j < i {
                            assert(s1[j] == s0[j]);
                        } else {
                            assert(s1[j] == s0[j + 1]);
                        }
                    }
                }
                self.entries.push((hash, value));
                proof {
                    let s1 = s0.remove(i as int);
                    let s2 = self.entries@;
                    assert(s2 == s1.push((hash, value)));
                    assert forall|a: int, b: int| 0 <= a < b < s2.len() implies s2[a].0@
                        != s2[b].0@ by {
                        if b < s2.len() - 1 {
                            assert(s2[a] == s1[a] && s2[b] == s1[b]);
                        } else {
                            assert(s2[a] == s1[a] && s1[a].0@ != hash@);
                        }
                    }
                    assert forall|h: Seq<u8>| h != hash@ implies final (self).spec_get(h) == seq_get(
                        s0,
                        h,
                    ) by {
                        lemma_seq_get_push(s1, (hash, value), h);
                        lemma_seq_get_remove(s0, i as int, h);
                    }
                    lemma_seq_get_push(s1, (hash, value), hash@);
                }
            },
            None => {
                self.entries.push((hash, value));
                proof {
                    let s2 = self.entries@;
                    assert(s2 == s0.push((hash, value)));
                    assert forall|a: int, b: int| 0 <= a < b < s2.len() implies s2[a].0@
                        != s2[b].0@ by {
                        if b < s2.len() - 1 {
                            assert(s2[a] == s0[a] && s2[b] == s0[b]);
                        } else {
                            assert(s2[a] == s0[a]);
                        }
                    }
                    assert forall|h: Seq<u8>| h != hash@ implies final (self).spec_get(h) == seq_get(
                        s0,
                        h,
                    ) by {
                        lemma_seq_get_push(s0, (hash, value), h);
                    }
                    lemma_seq_get_push(s0, (hash, value), hash@);
                }
            },
        }
    }

    /// Adds `value` to the amount recorded for `hash`, starting it at
    /// `value` when absent.
    pub fn bump(&mut self, hash: PaymentHash, value: u64)
        requires
            old(self).wf(),
            old(self).spec_get(hash@) matches Some(v) ==> v + value <= u64::MAX,
        ensures
            final (self).wf(),
            final (self).spec_get(hash@) == Some(
                match old(self).spec_get(hash@) {
                    Some(v) => (v + value) as u64,
                    None => value,
                },
            ),
            forall|h: Seq<u8>| h != hash@ ==> final (self).spec_get(h) == old(self).spec_get(h),
    {
        let nv: u64 = match self.get(&hash) {
            Some(v) => v + value,
            None => value,
        };
        self.replace_value(hash, nv);
    }

    /// Raises the amount recorded for `hash` to at least `value`, starting
    /// it at `value` when absent.
    pub fn raise_to(&mut self, hash: PaymentHash, value: u64)
        requires
            old(self).wf(),
        ensures
            final (self).wf(),
            final (self).spec_get(hash@) == max_combine(old(self).spec_get(hash@), Some(value)),
            forall|h: Seq<u8>| h != hash@ ==> final (self).spec_get(h) == old(self).spec_get(h),
    {
        let nv: u64 = match self.get(&hash) {
            Some(v) => if v >= value {
                v
            } else {
                value
            },
            None => value,
        };
        self.replace_value(hash, nv);
    }

    /// Merges `other` into `self`, keeping the larger amount per hash.
    pub fn merge_max(&mut self, other: &PaymentSummary)
        requires
            old(self).wf(),
            other.wf(),
        ensures
            final (self).wf(),
            forall|h: Seq<u8>|
                #![trigger final (self).spec_get(h)]
                final (self).spec_get(h) == max_combine(old(self).spec_get(h), other.spec_get(h)),
    {
        let ghost orig = *old(self);
        let mut j: usize = 0;
        while j < other.entries.len()
            invariant
                self.wf(),
                other.wf(),
                j <= other.entries@.len(),
                forall|h: Seq<u8>|
                    #![trigger self.spec_get(h)]
                    self.spec_get(h) == max_combine(
                        orig.spec_get(h),
                        seq_get(other.entries@.subrange(0, j as int), h),
                    ),
            decreases other.entries@.len() - j,
        {
            let (hash, value) = other.entries[j];
            let ghost pre = *self;
            self.raise_to(hash, value);
            proof {
                assert forall|h: Seq<u8>| #![trigger self.spec_get(h)] self.spec_get(h)
                    == max_combine(
                    orig.spec_get(h),
                    seq_get(other.entries@.subrange(0, j + 1), h),
                ) by {
                    assert(other.entries@.subrange(0, j + 1) =~= other.entries@.subrange(
                        0,
                        j as int,
                    ).push(other.entries@[j as int]));
                    lemma_seq_get_push(
                        other.entries@.subrange(0, j as int),
                        other.entries@[j as int],
                        h,
                    );
                    if h == hash@ {
                        assert forall|k: int|
                            0 <= k < j implies other.entries@.subrange(0, j as int)[k].0@
                            != hash@ by {
                            assert(other.entries@.subrange(0, j as int)[k] == other.entries@[k]);
                        }
                        lemma_seq_get_absent(other.entries@.subrange(0, j as int), hash@);
                    }
                }
            }
            j += 1;
        }
        proof {
            assert(other.entries@.subrange(0, other.entries@.len() as int) =~= other.entries@);
        }
    }

    /// The hash-wise minimum of the two summaries, keeping only hashes
    /// present in both.
    pub fn intersect_min(&self, other: &PaymentSummary) -> (r: PaymentSummary)
        requires
            self.wf(),
            other.wf(),
        ensures
            r.wf(),
            forall|h: Seq<u8>|
                #![trigger r.spec_get(h)]
                r.spec_get(h) == min_combine(self.spec_get(h), other.spec_get(h)),
    {
        let mut r = PaymentSummary::new();
        let mut i: usize = 0;
        while i < self.entries.len()
            invariant
                self.wf(),
                other.wf(),
                r.wf(),
                i <= self.entries@.len(),
                forall|h: Seq<u8>|
                    #![trigger r.spec_get(h)]
                    r.spec_get(h) == min_combine(
                        seq_get(self.entries@.subrange(0, i as int), h),
                        other.spec_get(h),
                    ),
            decreases self.entries@.len() - i,
        {
            let (hash, value) = self.entries[i];
            match other.get(&hash) {
                Some(ov) => {
                    r.replace_value(
                        hash,
                        if value <= ov {
                            value
                        } else {
                            ov
                        },
                    );
                },
                None => {},
            }
            proof {
                assert forall|h: Seq<u8>| #![trigger r.spec_get(h)] r.spec_get(h) == min_combine(
                    seq_get(self.entries@.subrange(0, i + 1), h),
                    other.spec_get(h),
                ) by {
                    assert(self.entries@.subrange(0, i + 1) =~= self.entries@.subrange(
                        0,
                        i as int,
                    ).push(self.entries@[i as int]));
                    lemma_seq_get_push(
                        self.entries@.subrange(0, i as int),
                        self.entries@[i as int],
                        h,
                    );
                    if h == hash@ {
                        assert forall|k: int|
                            0 <= k < i implies self.entries@.subrange(0, i as int)[k].0@
                            != hash@ by {
                            assert(self.entries@.subrange(0, i as int)[k] == self.entries@[k]);
                        }
                        lemma_seq_get_absent(self.entries@.subrange(0, i as int), hash@);
                    }
                }
            }
            i += 1;
        }
        proof {
            assert(self.entries@.subrange(0, self.entries@.len() as int) =~= self.entries@);
        }
        r
    }
}

/// Per-hash sums and counts are non-negative, never exceed the plain value
/// total, and vanish together.
pub proof fn lemma_hash_bounds(s: Seq<HTLCInfo2>, h: Seq<u8>)
    ensures
        0 <= hash_sum(s, h) <= sum_htlc_values(s),
        hash_count(s, h) >= 0,
        hash_count(s, h) == 0 ==> hash_sum(s, h) == 0,
    decreases s.len(),
{
    if s.len() > 0 {
        lemma_hash_bounds(s.drop_last(), h);
        lemma_sum_values_nonneg(s.drop_last());
    }
}

/// Extending a prefix by one element adds exactly that element's
/// contribution to the per-hash sum and count.
pub proof fn lemma_hash_prefix_step(s: Seq<HTLCInfo2>, i: int, h: Seq<u8>)
    requires
        0 <= i < s.len(),
    ensures
        hash_sum(s.subrange(0, i + 1), h) == hash_sum(s.subrange(0, i), h) + if s[i].payment_hash@
            == h {
            s[i].value_sat as int
        } else {
            0
        },
        hash_count(s.subrange(0, i + 1), h) == hash_count(s.subrange(0, i), h) + if s[
            i
        ].payment_hash@ == h {
            1int
        } else {
            0
        },
{
    assert(s.subrange(0, i + 1).drop_last() =~= s.subrange(0, i));
    assert(s.subrange(0, i + 1).last() == s[i]);
}

/// A prefix's per-hash sum never exceeds the whole sequence's.
pub proof fn lemma_hash_prefix_bound(s: Seq<HTLCInfo2>, i: int, h: Seq<u8>)
    requires
        0 <= i <= s.len(),
    ensures
        hash_sum(s.subrange(0, i), h) <= hash_sum(s, h),
    decreases s.len() - i,
{
    if i == s.len() {
        assert(s.subrange(0, i) =~= s);
    } else {
        lemma_hash_prefix_step(s, i, h);
        lemma_hash_prefix_bound(s, i + 1, h);
    }
}

/// Builds the per-hash summary of a list of HTLCs, summing HTLCs that share
/// a payment hash.
pub fn summarize_payments(htlcs: &Vec<HTLCInfo2>) -> (r: PaymentSummary)
    requires
        sum_htlc_values(htlcs@) <= u64::MAX,
    ensures
        r.wf(),
        forall|h: Seq<u8>| #[trigger] r.spec_get(h) == htlc_summary(htlcs@, h),
{
    let mut r = PaymentSummary::new();
    let mut i: usize = 0;
    while i < htlcs.len()
        invariant
            r.wf(),
            i <= htlcs@.len(),
            sum_htlc_values(htlcs@) <= u64::MAX,
            forall|h: Seq<u8>| #[trigger] r.spec_get(h) == htlc_summary(
                htlcs@.subrange(0, i as int),
                h,
            ),
        decreases htlcs@.len() - i,
    {
        let htlc = htlcs[i];
        proof {
            let pre = htlcs@.subrange(0, i as int);
            let hh = htlc.payment_hash@;
            lemma_hash_prefix_step(htlcs@, i as int, hh);
            lemma_hash_prefix_bound(htlcs@, i + 1, hh);
            lemma_hash_bounds(htlcs@, hh);
            lemma_hash_bounds(pre, hh);
            lemma_hash_bounds(htlcs@.subrange(0, i + 1), hh);
        }
        r.bump(htlc.payment_hash, htlc.value_sat);
        proof {
            assert forall|h: Seq<u8>| #[trigger] r.spec_get(h) == htlc_summary(
                htlcs@.subrange(0, i + 1),
                h,
            ) by {
                lemma_hash_prefix_step(htlcs@, i as int, h);
                lemma_hash_bounds(htlcs@.subrange(0, i as int), h);
                lemma_hash_bounds(htlcs@.subrange(0, i + 1), h);
            }
        }
        i += 1;
    }
    proof {
        assert(htlcs@.subrange(0, htlcs@.len() as int) =~= htlcs@);
    }
    r
}

/// Removing one element removes exactly its contribution from the per-hash
/// totals.
pub proof fn lemma_hash_totals_remove(s: Seq<HTLCInfo2>, j: int, h: Seq<u8>)
    requires
        0 <= j < s.len(),
    ensures
        hash_sum(s.remove(j), h) == hash_sum(s, h) - (if s[j].payment_hash@ == h {
            s[j].value_sat as int
        } else {
            0
        }),
        hash_count(s.remove(j), h) == hash_count(s, h) - (if s[j].payment_hash@ == h {
            1int
        } else {
            0
        }),
    decreases s.len(),
{
    if j == s.len() - 1 {
        assert(s.remove(j) =~= s.drop_last());
    } else {
        let t = s.remove(j);
        assert(t.last() == s.last());
        assert(t.drop_last() =~= s.drop_last().remove(j));
        lemma_hash_totals_remove(s.drop_last(), j, h);
    }
}

/// Two sequences holding the same HTLCs in any order have the same per-hash
/// totals.
pub proof fn lemma_hash_totals_permutation(s1: Seq<HTLCInfo2>, s2: Seq<HTLCInfo2>, h: Seq<u8>)
    requires
        s1.to_multiset() == s2.to_multiset(),
    ensures
        hash_sum(s1, h) == hash_sum(s2, h),
        hash_count(s1, h) == hash_count(s2, h),
    decreases s1.len(),
{
    broadcast use vstd::seq_lib::group_to_multiset_ensures;

    if s1.len() == 0 {
        assert(s2.to_multiset().len() == 0);
        assert(s2.len() == 0);
    } else {
        let x = s1.last();
        assert(s1.contains(x));
        assert(s2.to_multiset().count(x) > 0);
        assert(s2.contains(x));
        let j = choose|j: int| 0 <= j < s2.len() && s2[j] == x;
        assert(s1.remove(s1.len() - 1) =~= s1.drop_last());
        assert(s1.drop_last().to_multiset() =~= s1.to_multiset().remove(x));
        assert(s2.remove(j).to_multiset() =~= s2.to_multiset().remove(x));
        lemma_hash_totals_permutation(s1.drop_last(), s2.remove(j), h);
        lemma_hash_totals_remove(s2, j, h);
    }
}

/// Law: a commitment's per-hash summary depends only on which HTLCs it
/// carries, not on their order.
pub proof fn lemma_htlc_summary_permutation(s1: Seq<HTLCInfo2>, s2: Seq<HTLCInfo2>)
    requires
        s1.to_multiset() == s2.to_multiset(),
    ensures
        forall|h: Seq<u8>| #[trigger] htlc_summary(s1, h) == htlc_summary(s2, h),
{
    assert forall|h: Seq<u8>| #[trigger] htlc_summary(s1, h) == htlc_summary(s2, h) by {
        lemma_hash_totals_permutation(s1, s2, h);
    }
}

/// Law: the outgoing payment summary is unchanged when the HTLCs inside the
/// holder and counterparty commitments are reordered.
pub proof fn lemma_payments_summary_reorder(
    hold1: Seq<HTLCInfo2>,
    hold2: Seq<HTLCInfo2>,
    cp1: Seq<HTLCInfo2>,
    cp2: Seq<HTLCInfo2>,
)
    requires
        hold1.to_multiset() == hold2.to_multiset(),
        cp1.to_multiset() == cp2.to_multiset(),
    ensures
        forall|h: Seq<u8>|
            #![trigger max_combine(htlc_summary(hold1, h), htlc_summary(cp1, h))]
            max_combine(htlc_summary(hold1, h), htlc_summary(cp1, h)) == max_combine(
                htlc_summary(hold2, h),
                htlc_summary(cp2, h),
            ),
{
    assert forall|h: Seq<u8>|
        #![trigger max_combine(htlc_summary(hold1, h), htlc_summary(cp1, h))]
        max_combine(htlc_summary(hold1, h), htlc_summary(cp1, h)) == max_combine(
            htlc_summary(hold2, h),
            htlc_summary(cp2, h),
        ) by {
        lemma_hash_totals_permutation(hold1, hold2, h);
        lemma_hash_totals_permutation(cp1, cp2, h);
    }
}

/// Law: an incoming payment is credited only when both the holder and the
/// counterparty commitment witness its hash.
pub proof fn lemma_incoming_summary_requires_both(
    hold: Seq<HTLCInfo2>,
    cp: Seq<HTLCInfo2>,
    h: Seq<u8>,
)
    ensures
        min_combine(htlc_summary(hold, h), htlc_summary(cp, h)) is Some ==> hash_count(hold, h) > 0
            && hash_count(cp, h) > 0,
{
    lemma_hash_bounds(hold, h);
    lemma_hash_bounds(cp, h);
}

} // verus!
