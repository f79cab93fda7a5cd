//! Typed descriptions of the transactions the signer is asked to authorize:
//! a plain bitcoin-transaction model and the decomposed commitment form.

use vstd::prelude::*;

use crate::model::PubKey;

verus! {

/// A payment hash identifying an HTLC's payment.
#[derive(Clone, Copy, Debug, PartialEq, Eq, Hash)]
pub struct PaymentHash(pub [u8; 32]);

impl PaymentHash {
    /// View of the hash bytes.
    pub open spec fn view(self) -> Seq<u8> {
        self.0@
    }

    /// Byte-wise equality of two payment hashes.
    pub fn eq_bytes(&self, other: &PaymentHash) -> (r: bool)
        ensures
            r == (self@ == other@),
    {
        let mut i: usize = 0;
        while i < 32
            invariant
                i <= 32,
                forall|j: int| 0 <= j < i ==> self.0@[j] == other.0@[j],
            decreases 32 - i,
        {
            if self.0[i] != other.0[i] {
                return false;
            }
            i += 1;
        }
        proof {
            assert(self@ =~= other@);
        }
        true
    }
}

/// One in-flight HTLC: its payment hash, amount and expiry height.
#[derive(Clone, Copy, Debug, PartialEq, Eq)]
pub struct HTLCInfo2 {
    pub value_sat: u64,
    pub payment_hash: PaymentHash,
    pub cltv_expiry: u32,
}

/// Total satoshi value of a sequence of HTLCs.
pub open spec fn sum_htlc_values(s: Seq<HTLCInfo2>) -> int
    decreases s.len(),
{
    if s.len() == 0 {
        0
    } else {
        sum_htlc_values(s.drop_last()) + s.last().value_sat
    }
}

/// Total satoshi value of the HTLCs in `s` whose payment hash is `h`.
pub open spec fn hash_sum(s: Seq<HTLCInfo2>, h: Seq<u8>) -> int
    decreases s.len(),
{
    if s.len() == 0 {
        0
    } else {
        hash_sum(s.drop_last(), h) + if s.last().payment_hash@ == h {
            s.last().value_sat as int
        } else {
            0
        }
    }
}

/// Number of HTLCs in `s` whose payment hash is `h`.
pub open spec fn hash_count(s: Seq<HTLCInfo2>, h: Seq<u8>) -> int
    decreases s.len(),
{
    if s.len() == 0 {
        0
    } else {
        hash_count(s.drop_last(), h) + if s.last().payment_hash@ == h {
            1int
        } else {
            0
        }
    }
}

/// Total satoshi value of the HTLCs in `s` whose preimage is known.
pub open spec fn preimage_credit(s: Seq<HTLCInfo2>, preimages: Set<Seq<u8>>) -> int
    decreases s.len(),
{
    if s.len() == 0 {
        0
    } else {
        preimage_credit(s.drop_last(), preimages) + if preimages.contains(s.last().payment_hash@) {
            s.last().value_sat as int
        } else {
            0
        }
    }
}

/// Knowledge of payment preimages, supplied by the payment layer.
pub trait PreimageMap {
    /// The set of payment hashes whose preimage is known.
    spec fn preimages(&self) -> Set<Seq<u8>>;

    /// Whether the preimage of `hash` is known.
    fn has_preimage(&self, hash: &PaymentHash) -> (r: bool)
        ensures
            r == self.preimages().contains(hash@),
    ;
}

/// A preimage map backed by a plain list of known hashes.
pub struct ListPreimageMap {
    pub hashes: Vec<PaymentHash>,
}

impl PreimageMap for ListPreimageMap {
    open spec fn preimages(&self) -> Set<Seq<u8>> {
        Set::new(|h: Seq<u8>| exists|i: int| 0 <= i < self.hashes@.len() && self.hashes@[i]@ == h)
    }

    fn has_preimage(&self, hash: &PaymentHash) -> (r: bool) {
        let mut i: usize = 0;
        while i < self.hashes.len()
            invariant
                i <= self.hashes@.len(),
                forall|j: int| 0 <= j < i ==> self.hashes@[j]@ != hash@,
            decreases self.hashes@.len() - i,
        {
            if self.hashes[i].eq_bytes(hash) {
                return true;
            }
            i += 1;
        }
        false
    }
}

/// The decomposed form of a commitment transaction: the two direct balances,
/// the in-flight HTLCs in both directions, and the derived output keys.
#[derive(Clone, Debug, PartialEq)]
pub struct CommitmentInfo2 {
    /// Whether the broadcaster of this commitment is the counterparty.
    pub is_counterparty_broadcaster: bool,
    /// Output value to the side that can broadcast this commitment.
    pub to_broadcaster_value_sat: u64,
    /// Output value to the side that countersigns this commitment.
    pub to_countersigner_value_sat: u64,
    /// Feerate of the commitment, in satoshi per 1000 weight units.
    pub feerate_per_kw: u32,
    /// HTLCs offered by the broadcaster.
    pub offered_htlcs: Vec<HTLCInfo2>,
    /// HTLCs received by the broadcaster.
    pub received_htlcs: Vec<HTLCInfo2>,
    /// Derived revocation key for this commitment.
    pub revocation_key: PubKey,
    /// Derived delayed-payment key for the broadcaster's own output.
    pub delayed_payment_key: PubKey,
    /// Derived HTLC key for the broadcaster.
    pub htlc_key: PubKey,
    /// Derived payment key for the countersigner's direct output.
    pub countersigner_payment_key: PubKey,
}

impl CommitmentInfo2 {
    /// The balances and HTLC values fit in a 64-bit satoshi total.
    pub open spec fn wf(self) -> bool {
        self.to_broadcaster_value_sat + self.to_countersigner_value_sat + sum_htlc_values(
            self.offered_htlcs@,
        ) + sum_htlc_values(self.received_htlcs@) <= u64::MAX
    }

    /// Value-level equivalence: every field agrees.
    pub open spec fn eqv(self, other: Self) -> bool {
        &&& self.is_counterparty_broadcaster == other.is_counterparty_broadcaster
        &&& self.to_broadcaster_value_sat == other.to_broadcaster_value_sat
        &&& self.to_countersigner_value_sat == other.to_countersigner_value_sat
        &&& self.feerate_per_kw == other.feerate_per_kw
        &&& self.offered_htlcs@ == other.offered_htlcs@
        &&& self.received_htlcs@ == other.received_htlcs@
        &&& self.revocation_key@ == other.revocation_key@
        &&& self.delayed_payment_key@ == other.delayed_payment_key@
        &&& self.htlc_key@ == other.htlc_key@
        &&& self.countersigner_payment_key@ == other.countersigner_payment_key@
    }

    /// An equal copy of this description.
    pub fn duplicate(&self) -> (r: Self)
        ensures
            r.eqv(*self),
    {
        CommitmentInfo2 {
            is_counterparty_broadcaster: self.is_counterparty_broadcaster,
            to_broadcaster_value_sat: self.to_broadcaster_value_sat,
            to_countersigner_value_sat: self.to_countersigner_value_sat,
            feerate_per_kw: self.feerate_per_kw,
            offered_htlcs: copy_htlcs(&self.offered_htlcs),
            received_htlcs: copy_htlcs(&self.received_htlcs),
            revocation_key: self.revocation_key,
            delayed_payment_key: self.delayed_payment_key,
            htlc_key: self.htlc_key,
            countersigner_payment_key: self.countersigner_payment_key,
        }
    }

    /// The HTLCs flowing toward the holder in this commitment.
    pub open spec fn spec_incoming_htlcs(self) -> Seq<HTLCInfo2> {
        if self.is_counterparty_broadcaster {
            self.offered_htlcs@
        } else {
            self.received_htlcs@
        }
    }

    /// The holder's claimable funds in this commitment: the holder's direct
    /// output plus every HTLC flowing toward the holder whose preimage is
    /// known.  The claim is oriented by who broadcasts, not by who funded:
    /// the holder's direct output is the broadcaster value in a holder
    /// commitment and the countersigner value in a counterparty commitment,
    /// on either side of the channel.
    pub open spec fn spec_claimable_balance(self, preimages: Set<Seq<u8>>) -> int {
        (if self.is_counterparty_broadcaster {
            self.to_countersigner_value_sat as int
        } else {
            self.to_broadcaster_value_sat as int
        }) + preimage_credit(self.spec_incoming_htlcs(), preimages)
    }

    /// The holder's claimable funds in this commitment under the given
    /// preimage knowledge.
    pub fn claimable_balance<T: PreimageMap>(&self, preimage_map: &T) -> (r: u64)
        requires
            self.wf(),
        ensures
            r == self.spec_claimable_balance(preimage_map.preimages()),
    {
        let base: u64 = if self.is_counterparty_broadcaster {
            self.to_countersigner_value_sat
        } else {
            self.to_broadcaster_value_sat
        };
        let htlcs: &Vec<HTLCInfo2> = if self.is_counterparty_broadcaster {
            &self.offered_htlcs
        } else {
            &self.received_htlcs
        };
        proof {
            lemma_preimage_credit_bounds(htlcs@, preimage_map.preimages());
            lemma_sum_values_nonneg(self.offered_htlcs@);
            lemma_sum_values_nonneg(self.received_htlcs@);
        }
        let mut total: u64 = base;
        let mut i: usize = 0;
        while i < htlcs.len()
            invariant
                i <= htlcs@.len(),
                total == base + preimage_credit(htlcs@.subrange(0, i as int), preimage_map.preimages()),
                base + sum_htlc_values(htlcs@) <= u64::MAX,
                0 <= preimage_credit(htlcs@.subrange(0, i as int), preimage_map.preimages())
                    <= sum_htlc_values(htlcs@.subrange(0, i as int)),
            decreases htlcs@.len() - i,
        {
            proof {
                assert(htlcs@.subrange(0, i + 1).drop_last() =~= htlcs@.subrange(0, i as int));
                lemma_sum_prefix_bound(htlcs@, i as int);
                lemma_preimage_credit_bounds(htlcs@.subrange(0, i + 1), preimage_map.preimages());
            }
            if preimage_map.has_preimage(&htlcs[i].payment_hash) {
                total = total + htlcs[i].value_sat;
            }
            i += 1;
        }
        proof {
            assert(htlcs@.subrange(0, htlcs@.len() as int) =~= htlcs@);
        }
        total
    }
}

/// Copies a list of HTLCs.
pub fn copy_htlcs(v: &Vec<HTLCInfo2>) -> (r: Vec<HTLCInfo2>)
    ensures
        r@ == v@,
{
    let mut r: Vec<HTLCInfo2> = Vec::new();
    let mut i: usize = 0;
    while i < v.len()
        invariant
            i <= v@.len(),
            r@ == v@.subrange(0, i as int),
        decreases v@.len() - i,
    {
        r.push(v[i]);
        proof {
            assert(r@ =~= v@.subrange(0, i + 1));
        }
        i += 1;
    }
    proof {
        assert(r@ =~= v@);
    }
    r
}

/// The credited value over a prefix never exceeds the total over the prefix,
/// and both sums over any sequence are non-negative and monotone in length.
pub proof fn lemma_preimage_credit_bounds(s: Seq<HTLCInfo2>, preimages: Set<Seq<u8>>)
    ensures
        0 <= preimage_credit(s, preimages) <= sum_htlc_values(s),
    decreases s.len(),
{
    if s.len() > 0 {
        lemma_preimage_credit_bounds(s.drop_last(), preimages);
    }
}

/// The sum over a prefix of length `i + 1` equals the sum over the prefix of
/// length `i` plus the element at `i`, and prefix sums stay below the total.
pub proof fn lemma_sum_prefix_bound(s: Seq<HTLCInfo2>, i: int)
    requires
        0 <= i < s.len(),
    ensures
        sum_htlc_values(s.subrange(0, i + 1)) == sum_htlc_values(s.subrange(0, i))
            + s[i].value_sat,
        sum_htlc_values(s.subrange(0, i + 1)) <= sum_htlc_values(s),
    decreases s.len() - i,
{
    assert(s.subrange(0, i + 1).drop_last() =~= s.subrange(0, i));
    assert(s.subrange(0, i + 1).last() == s[i]);
    if i + 1 == s.len() {
        assert(s.subrange(0, i + 1) =~= s);
        lemma_sum_values_nonneg(s.subrange(0, i));
    } else {
        lemma_sum_prefix_bound(s, i + 1);
        lemma_sum_values_nonneg(s.subrange(0, i));
    }
}

/// HTLC value totals are non-negative.
pub proof fn lemma_sum_values_nonneg(s: Seq<HTLCInfo2>)
    ensures
        sum_htlc_values(s) >= 0,
    decreases s.len(),
{
    if s.len() > 0 {
        lemma_sum_values_nonneg(s.drop_last());
    }
}

/// Total satoshi value of a list of HTLCs.
pub fn sum_htlc_vec(v: &Vec<HTLCInfo2>) -> (r: u64)
    requires
        sum_htlc_values(v@) <= u64::MAX,
    ensures
        r == sum_htlc_values(v@),
{
    let mut total: u64 = 0;
    let mut i: usize = 0;
    while i < v.len()
        invariant
            i <= v@.len(),
            sum_htlc_values(v@) <= u64::MAX,
            total == sum_htlc_values(v@.subrange(0, i as int)),
        decreases v@.len() - i,
    {
        proof {
            lemma_sum_prefix_bound(v@, i as int);
            lemma_sum_values_nonneg(v@.subrange(0, i + 1));
            lemma_sum_suffix_bound(v@, i + 1);
        }
        total = total + v[i].value_sat;
        i += 1;
    }
    proof {
        assert(v@.subrange(0, v@.len() as int) =~= v@);
    }
    total
}

/// Every prefix sum is bounded by the whole sum.
pub proof fn lemma_sum_suffix_bound(s: Seq<HTLCInfo2>, i: int)
    requires
        0 <= i <= s.len(),
    ensures
        sum_htlc_values(s.subrange(0, i)) <= sum_htlc_values(s),
    decreases s.len() - i,
{
    if i == s.len() {
        assert(s.subrange(0, i) =~= s);
    } else {
        lemma_sum_prefix_bound(s, i);
        lemma_sum_suffix_bound(s, i + 1);
    }
}

/// A reference to a transaction output being spent.
#[derive(Clone, Copy, Debug, PartialEq, Eq, Hash)]
pub struct OutPoint {
    pub txid: [u8; 32],
    pub vout: u32,
}

impl OutPoint {
    /// Whether two outpoints reference the same output.
    pub fn same_as(&self, other: &OutPoint) -> (r: bool)
        ensures
            r == (self.txid@ == other.txid@ && self.vout == other.vout),
    {
        if self.vout != other.vout {
            return false;
        }
        let mut i: usize = 0;
        while i < 32
            invariant
                i <= 32,
                self.vout == other.vout,
                forall|j: int| 0 <= j < i ==> self.txid@[j] == other.txid@[j],
            decreases 32 - i,
        {
            if self.txid[i] != other.txid[i] {
                return false;
            }
            i += 1;
        }
        proof {
            assert(self.txid@ =~= other.txid@);
        }
        true
    }
}

/// One input of a bitcoin transaction.
#[derive(Clone, Debug, PartialEq)]
pub struct TxIn {
    pub previous_output: OutPoint,
    pub script_sig: Vec<u8>,
    pub sequence: u32,
}

/// One output of a bitcoin transaction.
#[derive(Clone, Debug, PartialEq)]
pub struct TxOut {
    pub value: u64,
    pub script_pubkey: Vec<u8>,
}

/// A bitcoin transaction, as far as the policy rules read it.
#[derive(Clone, Debug, PartialEq)]
pub struct Transaction {
    pub version: i32,
    pub lock_time: u32,
    pub input: Vec<TxIn>,
    pub output: Vec<TxOut>,
}

} // verus!
