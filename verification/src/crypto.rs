//! Trusted wrappers around the cryptographic primitives the policy rules
//! rely on.  Every function here is deterministic in its arguments; its
//! result is given a name that the verified contracts build on.

use vstd::prelude::*;

verus! {

pub uninterp spec fn sha256_of(data: Seq<u8>) -> Seq<u8>;

/// Relies on `bitcoin_hashes::sha256::Hash::hash`: the SHA-256 digest is a
/// function of the input bytes alone.
#[verifier::external_body]
pub fn sha256(data: &[u8]) -> (r: [u8; 32])
    ensures
        r@ == sha256_of(data@),
{
    bitcoin_hashes::sha256::Hash::hash(data).to_byte_array()
}

pub uninterp spec fn sha256d_of(data: Seq<u8>) -> Seq<u8>;

/// Relies on `bitcoin_hashes::sha256d::Hash::hash`: the double-SHA-256
/// digest is a function of the input bytes alone.
#[verifier::external_body]
pub fn sha256d(data: &[u8]) -> (r: [u8; 32])
    ensures
        r@ == sha256d_of(data@),
{
    bitcoin_hashes::sha256d::Hash::hash(data).to_byte_array()
}

pub uninterp spec fn hash160_of(data: Seq<u8>) -> Seq<u8>;

/// Relies on `bitcoin_hashes::hash160::Hash::hash` (RIPEMD-160 of SHA-256):
/// the digest is a function of the input bytes alone.
#[verifier::external_body]
pub fn hash160(data: &[u8]) -> (r: [u8; 20])
    ensures
        r@ == hash160_of(data@),
{
    bitcoin_hashes::hash160::Hash::hash(data).to_byte_array()
}

pub uninterp spec fn pubkey_of(secret: Seq<u8>) -> Option<Seq<u8>>;

/// Relies on `secp256k1::SecretKey::from_secret_bytes` and
/// `secp256k1::PublicKey::from_secret_key`: the compressed public key is a
/// function of the secret alone, and exists exactly when the secret is a
/// valid scalar.
#[verifier::external_body]
pub fn secret_to_pubkey(secret: &[u8; 32]) -> (r: Option<[u8; 33]>)
    ensures
        match r {
            Some(p) => pubkey_of(secret@) == Some(p@),
            None => pubkey_of(secret@) is None,
        },
{
    let sk = secp256k1::SecretKey::from_secret_bytes(*secret).ok()?;
    Some(secp256k1::PublicKey::from_secret_key(&sk).serialize())
}

pub uninterp spec fn sign_der_of(secret: Seq<u8>, msg: Seq<u8>) -> Option<Seq<u8>>;

/// Relies on `secp256k1::Secp256k1::sign_ecdsa` with the RFC 6979
/// deterministic nonce, then DER serialization: the signature is a function
/// of the secret and the 32-byte message digest alone.
#[verifier::external_body]
pub fn ecdsa_sign_der(secret: &[u8; 32], msg32: &[u8; 32]) -> (r: Option<Vec<u8>>)
    ensures
        match r {
            Some(s) => sign_der_of(secret@, msg32@) == Some(s@),
            None => sign_der_of(secret@, msg32@) is None,
        },
{
    let sk = secp256k1::SecretKey::from_secret_bytes(*secret).ok()?;
    let msg = secp256k1::Message::from_digest(*msg32);
    Some(secp256k1::ecdsa::sign(msg, &sk).serialize_der().to_vec())
}

pub uninterp spec fn recsig65_of(secret: Seq<u8>, msg: Seq<u8>) -> Option<Seq<u8>>;

/// Relies on `secp256k1::Secp256k1::sign_ecdsa_recoverable` with the
/// RFC 6979 deterministic nonce: the 64-byte compact signature with the
/// recovery id appended is a function of the secret and the digest alone.
#[verifier::external_body]
pub fn ecdsa_sign_recoverable(secret: &[u8; 32], msg32: &[u8; 32]) -> (r: Option<Vec<u8>>)
    ensures
        match r {
            Some(s) => recsig65_of(secret@, msg32@) == Some(s@) && s@.len() == 65,
            None => recsig65_of(secret@, msg32@) is None,
        },
{
    let sk = secp256k1::SecretKey::from_secret_bytes(*secret).ok()?;
    let msg = secp256k1::Message::from_digest(*msg32);
    let recsig = secp256k1::ecdsa::RecoverableSignature::sign_ecdsa_recoverable(msg, &sk);
    let (rid, sig) = recsig.serialize_compact();
    let mut out = sig.to_vec();
    out.push(u8::from(rid));
    Some(out)
}

pub uninterp spec fn pubkey_add_tweak_of(pk: Seq<u8>, tweak: Seq<u8>) -> Option<Seq<u8>>;

/// Relies on `secp256k1::PublicKey::add_exp_tweak`: the tweaked key
/// `pk + tweak*G` is a function of the key and the tweak alone, and exists
/// exactly when both parse and the result is a valid point.
#[verifier::external_body]
pub fn pubkey_add_tweak(pk: &[u8; 33], tweak: &[u8; 32]) -> (r: Option<[u8; 33]>)
    ensures
        match r {
            Some(p) => pubkey_add_tweak_of(pk@, tweak@) == Some(p@),
            None => pubkey_add_tweak_of(pk@, tweak@) is None,
        },
{
    let key = secp256k1::PublicKey::from_byte_array_compressed(*pk).ok()?;
    let scalar = secp256k1::Scalar::from_be_bytes(*tweak).ok()?;
    Some(key.add_exp_tweak(&scalar).ok()?.serialize())
}

pub uninterp spec fn pubkey_mul_tweak_of(pk: Seq<u8>, tweak: Seq<u8>) -> Option<Seq<u8>>;

/// Relies on `secp256k1::PublicKey::mul_tweak`: the multiplied key
/// `pk * tweak` is a function of the key and the tweak alone.
#[verifier::external_body]
pub fn pubkey_mul_tweak(pk: &[u8; 33], tweak: &[u8; 32]) -> (r: Option<[u8; 33]>)
    ensures
        match r {
            Some(p) => pubkey_mul_tweak_of(pk@, tweak@) == Some(p@),
            None => pubkey_mul_tweak_of(pk@, tweak@) is None,
        },
{
    let key = secp256k1::PublicKey::from_byte_array_compressed(*pk).ok()?;
    let scalar = secp256k1::Scalar::from_be_bytes(*tweak).ok()?;
    Some(key.mul_tweak(&scalar).ok()?.serialize())
}

pub uninterp spec fn pubkey_combine_of(a: Seq<u8>, b: Seq<u8>) -> Option<Seq<u8>>;

/// Relies on `secp256k1::PublicKey::combine`: the sum of two points is a
/// function of the points alone, and exists unless the sum is the identity.
#[verifier::external_body]
pub fn pubkey_combine(a: &[u8; 33], b: &[u8; 33]) -> (r: Option<[u8; 33]>)
    ensures
        match r {
            Some(p) => pubkey_combine_of(a@, b@) == Some(p@),
            None => pubkey_combine_of(a@, b@) is None,
        },
{
    let ka = secp256k1::PublicKey::from_byte_array_compressed(*a).ok()?;
    let kb = secp256k1::PublicKey::from_byte_array_compressed(*b).ok()?;
    Some(ka.combine(&kb).ok()?.serialize())
}

pub uninterp spec fn child_pubkey_of(seed: Seq<u8>, path: Seq<u32>) -> Option<Seq<u8>>;

/// Relies on `bitcoin::bip32::Xpriv::new_master`, `Xpriv::derive_priv` and
/// `Xpub::from_priv`: the compressed public key of the non-hardened BIP32
/// child at `path` under the master key built from `seed` is a function of
/// the seed and the path alone (the network affects only serialization, not
/// derivation).  `None` exactly when some path element is not a valid
/// non-hardened index.
#[verifier::external_body]
pub fn bip32_child_pubkey(seed: &[u8; 32], path: &Vec<u32>) -> (r: Option<[u8; 33]>)
    ensures
        match r {
            Some(p) => child_pubkey_of(seed@, path@) == Some(p@),
            None => child_pubkey_of(seed@, path@) is None,
        },
{
    let secp = bitcoin::secp256k1::Secp256k1::new();
    let master = bitcoin::bip32::Xpriv::new_master(bitcoin::NetworkKind::Main, seed).ok()?;
    let children = path
        .iter()
        .map(|i| bitcoin::bip32::ChildNumber::from_normal_idx(*i))
        .collect::<Result<Vec<_>, _>>()
        .ok()?;
    let child = master.derive_priv(&secp, &children).ok()?;
    Some(bitcoin::bip32::Xpub::from_priv(&secp, &child).public_key.serialize())
}

pub uninterp spec fn segwit_decode_of(addr: Seq<char>) -> Option<(Seq<u8>, u8, Seq<u8>)>;

/// Relies on `bech32::segwit::decode`: the human-readable part (lowercase),
/// witness version and witness program of a segwit address are a function
/// of the address string alone; `None` exactly when the string is not a
/// valid segwit address (wrong checksum, version or program length).
#[verifier::external_body]
pub fn segwit_decode(addr: &str) -> (r: Option<(Vec<u8>, u8, Vec<u8>)>)
    ensures
        match r {
            Some(t) => segwit_decode_of(addr@) matches Some(u) && t.0@ == u.0 && t.1 == u.1
                && t.2@ == u.2,
            None => segwit_decode_of(addr@) is None,
        },
{
    let (hrp, version, program) = bech32::segwit::decode(addr).ok()?;
    Some((hrp.to_lowercase().into_bytes(), version.to_u8(), program))
}

pub uninterp spec fn base58check_of(addr: Seq<char>) -> Option<Seq<u8>>;

/// Relies on `bitcoin::base58::decode_check`: the payload (version byte
/// plus hash) of a base58check string is a function of the string alone;
/// `None` exactly when the string or its checksum is invalid.
#[verifier::external_body]
pub fn base58check_decode(addr: &str) -> (r: Option<Vec<u8>>)
    ensures
        match r {
            Some(p) => base58check_of(addr@) == Some(p@),
            None => base58check_of(addr@) is None,
        },
{
    bitcoin::base58::decode_check(addr).ok()
}

} // verus!
