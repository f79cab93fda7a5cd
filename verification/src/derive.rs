//! Per-commitment key derivation: the output keys of a commitment
//! transaction as functions of a per-commitment point and the channel
//! basepoints.

use vstd::prelude::*;

use crate::bytes::push_slice;
use crate::crypto::{
    pubkey_add_tweak, pubkey_add_tweak_of, pubkey_combine, pubkey_combine_of, pubkey_mul_tweak,
    pubkey_mul_tweak_of, sha256, sha256_of,
};
use crate::model::PubKey;

verus! {

/// The derived key `basepoint + SHA256(point || basepoint) * G`.
pub open spec fn spec_derived_pubkey(point: Seq<u8>, basepoint: Seq<u8>) -> Option<Seq<u8>> {
    pubkey_add_tweak_of(basepoint, sha256_of(point + basepoint))
}

/// The revocation key
/// `revocation_basepoint * SHA256(revocation_basepoint || point)
///  + point * SHA256(point || revocation_basepoint)`.
pub open spec fn spec_revocation_pubkey(point: Seq<u8>, revocation_basepoint: Seq<u8>) -> Option<
    Seq<u8>,
> {
    let a = pubkey_mul_tweak_of(revocation_basepoint, sha256_of(revocation_basepoint + point));
    let b = pubkey_mul_tweak_of(point, sha256_of(point + revocation_basepoint));
    if a is Some && b is Some {
        pubkey_combine_of(a->0, b->0)
    } else {
        None
    }
}

/// The concatenation of two serialized keys.
fn concat_keys(a: &PubKey, b: &PubKey) -> (r: Vec<u8>)
    ensures
        r@ == a@ + b@,
{
    let mut r: Vec<u8> = Vec::new();
    push_slice(&mut r, a.0.as_slice());
    push_slice(&mut r, b.0.as_slice());
    proof {
        assert(r@ =~= a@ + b@);
    }
    r
}

/// Derives a commitment output key from its basepoint.
pub fn derive_public_key(per_commitment_point: &PubKey, basepoint: &PubKey) -> (r: Option<PubKey>)
    ensures
        match r {
            Some(k) => spec_derived_pubkey(per_commitment_point@, basepoint@) == Some(k@),
            None => spec_derived_pubkey(per_commitment_point@, basepoint@) is None,
        },
{
    let buf = concat_keys(per_commitment_point, basepoint);
    let tweak = sha256(buf.as_slice());
    match pubkey_add_tweak(&basepoint.0, &tweak) {
        Some(k) => Some(PubKey(k)),
        None => None,
    }
}

/// Derives the revocation key for a commitment.
pub fn derive_public_revocation_key(
    per_commitment_point: &PubKey,
    revocation_basepoint: &PubKey,
) -> (r: Option<PubKey>)
    ensures
        match r {
            Some(k) => spec_revocation_pubkey(per_commitment_point@, revocation_basepoint@)
                == Some(k@),
            None => spec_revocation_pubkey(per_commitment_point@, revocation_basepoint@) is None,
        },
{
    let buf_rp = concat_keys(revocation_basepoint, per_commitment_point);
    let tweak_rp = sha256(buf_rp.as_slice());
    let a = match pubkey_mul_tweak(&revocation_basepoint.0, &tweak_rp) {
        Some(a) => a,
        None => {
            return None;
        },
    };
    let buf_pr = concat_keys(per_commitment_point, revocation_basepoint);
    let tweak_pr = sha256(buf_pr.as_slice());
    let b = match pubkey_mul_tweak(&per_commitment_point.0, &tweak_pr) {
        Some(b) => b,
        None => {
            return None;
        },
    };
    match pubkey_combine(&a, &b) {
        Some(k) => Some(PubKey(k)),
        None => None,
    }
}

/// The byte string `p` with bit `b` flipped (bit 0 is the low bit of the
/// first byte).
pub open spec fn flip_bit(p: Seq<u8>, b: int) -> Seq<u8> {
    p.update(b / 8, p[b / 8] ^ (1u8 << ((b % 8) as u8)))
}

/// The commitment secret for downward-counting index `idx`: starting from
/// the seed, for each set bit of `idx` from bit 47 down to bit 0, flip that
/// bit and hash.  `b` is the number of low bits still to process.
pub open spec fn commitment_secret_rec(p: Seq<u8>, idx: u64, b: nat) -> Seq<u8>
    decreases b,
{
    if b == 0 {
        p
    } else {
        let bit = (b - 1) as u64;
        let p2 = if (idx >> bit) & 1 == 1 {
            sha256_of(flip_bit(p, bit as int))
        } else {
            p
        };
        commitment_secret_rec(p2, idx, (b - 1) as nat)
    }
}

/// The commitment secret for downward-counting index `idx` under a seed.
pub open spec fn spec_commitment_secret(seed: Seq<u8>, idx: u64) -> Seq<u8> {
    commitment_secret_rec(seed, idx, 48)
}

/// A copy of `v` with bit `b` flipped.
fn flip_bit_vec(v: &Vec<u8>, b: usize) -> (r: Vec<u8>)
    requires
        b / 8 < v@.len(),
    ensures
        r@ == flip_bit(v@, b as int),
{
    let mut r: Vec<u8> = Vec::new();
    let target = b / 8;
    let mask: u8 = 1u8 << ((b % 8) as u8);
    let mut i: usize = 0;
    while i < v.len()
        invariant
            i <= v@.len(),
            b as int / 8 < v@.len(),
            target == b as int / 8,
            mask == 1u8 << ((b as int % 8) as u8),
            r@ == flip_bit(v@, b as int).subrange(0, i as int),
        decreases v@.len() - i,
    {
        let byte = if i == target {
            v[i] ^ mask
        } else {
            v[i]
        };
        r.push(byte);
        proof {
            let fv = flip_bit(v@, b as int);
            assert(fv.len() == v@.len());
            assert(fv[i as int] == if i as int == b as int / 8 {
                (v@[i as int] ^ (1u8 << ((b as int % 8) as u8))) as u8
            } else {
                v@[i as int]
            });
            assert(byte == fv[i as int]);
            assert(fv.subrange(0, i + 1) =~= fv.subrange(0, i as int).push(fv[i as int]));
        }
        i += 1;
    }
    proof {
        assert(r@ =~= flip_bit(v@, b as int));
    }
    r
}

/// Derives the per-commitment secret for downward-counting index `idx`
/// from the commitment seed: every set bit of the index, from high to low,
/// flips its position and hashes.
pub fn build_commitment_secret(seed: &[u8; 32], idx: u64) -> (r: [u8; 32])
    ensures
        r@ == spec_commitment_secret(seed@, idx),
{
    let mut res: Vec<u8> = vstd::slice::slice_to_vec(seed.as_slice());
    let mut i: usize = 0;
    while i < 48
        invariant
            i <= 48,
            res@.len() == 32,
            spec_commitment_secret(seed@, idx) == commitment_secret_rec(
                res@,
                idx,
                (48 - i) as nat,
            ),
        decreases 48 - i,
    {
        let bitpos: u64 = (47 - i) as u64;
        if (idx >> bitpos) & 1 == 1 {
            let flipped = flip_bit_vec(&res, bitpos as usize);
            let hashed = sha256(flipped.as_slice());
            res = vstd::slice::slice_to_vec(hashed.as_slice());
        }
        i += 1;
    }
    let mut out: [u8; 32] = [0; 32];
    let mut j: usize = 0;
    while j < 32
        invariant
            j <= 32,
            res@.len() == 32,
            forall|k: int| 0 <= k < j ==> out@[k] == res@[k],
        decreases 32 - j,
    {
        out[j] = res[j];
        j += 1;
    }
    proof {
        assert(out@ =~= res@);
    }
    out
}

/// The per-commitment transaction keys, all derived from one
/// per-commitment point.
#[derive(Clone, Copy, Debug, PartialEq, Eq)]
pub struct TxCreationKeys {
    pub per_commitment_point: PubKey,
    pub revocation_key: PubKey,
    pub broadcaster_htlc_key: PubKey,
    pub countersignatory_htlc_key: PubKey,
    pub broadcaster_delayed_payment_key: PubKey,
}

/// Derives the full set of commitment transaction keys.  The broadcaster
/// contributes its delayed-payment and HTLC basepoints; the countersigner
/// contributes its revocation and HTLC basepoints.
pub fn make_tx_creation_keys(
    per_commitment_point: &PubKey,
    broadcaster_delayed_payment_base: &PubKey,
    broadcaster_htlc_base: &PubKey,
    countersignatory_revocation_base: &PubKey,
    countersignatory_htlc_base: &PubKey,
) -> (r: Option<TxCreationKeys>)
    ensures
        match r {
            Some(k) => {
                &&& k.per_commitment_point@ == per_commitment_point@
                &&& Some(k.revocation_key@) == spec_revocation_pubkey(
                    per_commitment_point@,
                    countersignatory_revocation_base@,
                )
                &&& Some(k.broadcaster_htlc_key@) == spec_derived_pubkey(
                    per_commitment_point@,
                    broadcaster_htlc_base@,
                )
                &&& Some(k.countersignatory_htlc_key@) == spec_derived_pubkey(
                    per_commitment_point@,
                    countersignatory_htlc_base@,
                )
                &&& Some(k.broadcaster_delayed_payment_key@) == spec_derived_pubkey(
                    per_commitment_point@,
                    broadcaster_delayed_payment_base@,
                )
            },
            None => spec_revocation_pubkey(per_commitment_point@, countersignatory_revocation_base@)
                is None || spec_derived_pubkey(per_commitment_point@, broadcaster_htlc_base@)
                is None || spec_derived_pubkey(per_commitment_point@, countersignatory_htlc_base@)
                is None || spec_derived_pubkey(
                per_commitment_point@,
                broadcaster_delayed_payment_base@,
            ) is None,
        },
{
    let revocation_key = match derive_public_revocation_key(
        per_commitment_point,
        countersignatory_revocation_base,
    ) {
        Some(k) => k,
        None => {
            return None;
        },
    };
    let broadcaster_htlc_key = match derive_public_key(per_commitment_point, broadcaster_htlc_base) {
        Some(k) => k,
        None => {
            return None;
        },
    };
    let countersignatory_htlc_key = match derive_public_key(
        per_commitment_point,
        countersignatory_htlc_base,
    ) {
        Some(k) => k,
        None => {
            return None;
        },
    };
    let broadcaster_delayed_payment_key = match derive_public_key(
        per_commitment_point,
        broadcaster_delayed_payment_base,
    ) {
        Some(k) => k,
        None => {
            return None;
        },
    };
    Some(
        TxCreationKeys {
            per_commitment_point: PubKey(per_commitment_point.0),
            revocation_key,
            broadcaster_htlc_key,
            countersignatory_htlc_key,
            broadcaster_delayed_payment_key,
        },
    )
}

} // verus!
