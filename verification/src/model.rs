//! Plain wire-model values exchanged with the host: fixed-size byte arrays
//! for keys, hashes and signatures, and the small records built from them.

use vstd::prelude::*;

verus! {

/// BIP32 version bytes for serialized extended keys.
#[derive(Clone, Copy, Debug, PartialEq, Eq)]
pub struct Bip32KeyVersion {
    pub pubkey_version: u32,
    pub privkey_version: u32,
}

/// A block hash.
#[derive(Clone, Copy, Debug, PartialEq, Eq)]
pub struct BlockID(pub [u8; 32]);

/// A 32-byte secret value.
#[derive(Clone, Copy, Debug, PartialEq, Eq)]
pub struct Secret(pub [u8; 32]);

/// A raw secp256k1 private key.
#[derive(Clone, Copy, Debug, PartialEq, Eq)]
pub struct PrivKey(pub [u8; 32]);

/// An x-only public key.
#[derive(Clone, Copy, Debug, PartialEq, Eq)]
pub struct PubKey32(pub [u8; 32]);

/// A compressed secp256k1 public key.
#[derive(Clone, Copy, Debug, PartialEq, Eq)]
pub struct PubKey(pub [u8; 33]);

/// A serialized BIP32 extended key.
#[derive(Clone, Copy, Debug, PartialEq, Eq)]
pub struct ExtKey(pub [u8; 78]);

/// A SHA-256 digest.
#[derive(Clone, Copy, Debug, PartialEq, Eq)]
pub struct Sha256(pub [u8; 32]);

/// A compact ECDSA signature.
#[derive(Clone, Copy, Debug, PartialEq, Eq)]
pub struct Signature(pub [u8; 64]);

/// A compact recoverable ECDSA signature with its recovery id appended.
#[derive(Clone, Copy, Debug, PartialEq, Eq)]
pub struct RecoverableSignature(pub [u8; 65]);

/// The per-channel basepoints a peer announces when a channel opens.
#[derive(Clone, Copy, Debug, PartialEq, Eq)]
pub struct Basepoints {
    pub revocation: PubKey,
    pub payment: PubKey,
    pub htlc: PubKey,
    pub delayed_payment: PubKey,
}

impl PubKey {
    /// View of the serialized key bytes.
    pub open spec fn view(self) -> Seq<u8> {
        self.0@
    }

    /// Byte-wise equality of two serialized keys.
    pub fn eq_bytes(&self, other: &PubKey) -> (r: bool)
        ensures
            r == (self@ == other@),
    {
        let mut i: usize = 0;
        while i < 33
            invariant
                i <= 33,
                forall|j: int| 0 <= j < i ==> self.0@[j] == other.0@[j],
            decreases 33 - i,
        {
            if self.0[i] != other.0[i] {
                return false;
            }
            i += 1;
        }
        proof {
            assert(self@ =~= other@);
        }
        true
    }
}

} // verus!
