//! The node: the holder of the node secret, the channel registry, and the
//! node-level signing operations.

use vstd::prelude::*;

use crate::channel::{Channel, ChannelId, Network};
use crate::crypto::{
    ecdsa_sign_der, ecdsa_sign_recoverable, recsig65_of, sha256, sha256_of, sha256d, sha256d_of,
    sign_der_of,
};
use crate::error::{ValidationError, ValidationErrorKind};
use vstd::string::StringSliceAdditionalSpecFns;

verus! {

/// Appends the all-outputs sighash marker to a DER signature, producing
/// the witness form bitcoin expects.
pub fn signature_to_bitcoin_vec(der: &Vec<u8>) -> (r: Vec<u8>)
    ensures
        r@ == der@.push(1u8),
{
    let mut r = crate::bytes::clone_bytes(der);
    r.push(1u8);
    r
}

/// Appends the all-outputs sighash marker to each DER signature.
pub fn signatures_to_bitcoin_vecs(ders: &Vec<Vec<u8>>) -> (r: Vec<Vec<u8>>)
    ensures
        r@.len() == ders@.len(),
        forall|i: int| 0 <= i < ders@.len() ==> #[trigger] r@[i]@ == ders@[i]@.push(1u8),
{
    let mut r: Vec<Vec<u8>> = Vec::new();
    let mut i: usize = 0;
    while i < ders.len()
        invariant
            i <= ders@.len(),
            r@.len() == i,
            forall|j: int| 0 <= j < i ==> #[trigger] r@[j]@ == ders@[j]@.push(1u8),
        decreases ders@.len() - i,
    {
        let s = signature_to_bitcoin_vec(&ders[i]);
        r.push(s);
        i += 1;
    }
    r
}

/// Bit `j` of the stream formed by the 5-bit groups of `d`, zero past the
/// end.
pub open spec fn u5_bit(d: Seq<u8>, j: int) -> u8 {
    if 0 <= j < d.len() * 5 {
        (d[j / 5] >> ((4 - j % 5) as u8)) & 1
    } else {
        0
    }
}

/// Byte `i` of the stream: eight consecutive stream bits, most significant
/// first.
pub open spec fn packed_byte(d: Seq<u8>, i: int) -> int {
    u5_bit(d, 8 * i) * 128 + u5_bit(d, 8 * i + 1) * 64 + u5_bit(d, 8 * i + 2) * 32 + u5_bit(
        d,
        8 * i + 3,
    ) * 16 + u5_bit(d, 8 * i + 4) * 8 + u5_bit(d, 8 * i + 5) * 4 + u5_bit(d, 8 * i + 6) * 2
        + u5_bit(d, 8 * i + 7)
}

/// The 5-bit groups of `d` packed into bytes, zero-padded at the end.
pub open spec fn packed_bytes(d: Seq<u8>) -> Seq<u8> {
    Seq::new(((d.len() * 5 + 7) / 8) as nat, |i: int| packed_byte(d, i) as u8)
}

/// Stream bit `j` of the 5-bit groups of `d`.
fn get_u5_bit(d: &Vec<u8>, j: usize) -> (r: u8)
    requires
        d@.len() * 5 <= usize::MAX,
    ensures
        r == u5_bit(d@, j as int),
        r <= 1,
{
    if j < d.len() * 5 {
        let sh: u8 = (4 - (j % 5)) as u8;
        let v: u8 = d[j / 5];
        let b: u8 = (v >> sh) & 1;
        proof {
            assert((v >> sh) & 1 <= 1) by (bit_vector);
        }
        b
    } else {
        0
    }
}

/// Packs the 5-bit groups of `d` into bytes, most significant bit first,
/// padding the final byte with zero bits.
pub fn pack_base32(d: &Vec<u8>) -> (r: Vec<u8>)
    requires
        d@.len() * 5 + 7 <= usize::MAX,
    ensures
        r@ == packed_bytes(d@),
{
    let n_bytes: usize = (d.len() * 5 + 7) / 8;
    let mut r: Vec<u8> = Vec::new();
    let mut i: usize = 0;
    while i < n_bytes
        invariant
            d@.len() * 5 + 7 <= usize::MAX,
            n_bytes == (d@.len() * 5 + 7) / 8,
            i <= n_bytes,
            r@.len() == i,
            forall|k: int| 0 <= k < i ==> #[trigger] r@[k] == packed_byte(d@, k) as u8,
        decreases n_bytes - i,
    {
        let b0 = get_u5_bit(d, 8 * i);
        let b1 = get_u5_bit(d, 8 * i + 1);
        let b2 = get_u5_bit(d, 8 * i + 2);
        let b3 = get_u5_bit(d, 8 * i + 3);
        let b4 = get_u5_bit(d, 8 * i + 4);
        let b5 = get_u5_bit(d, 8 * i + 5);
        let b6 = get_u5_bit(d, 8 * i + 6);
        let b7 = get_u5_bit(d, 8 * i + 7);
        let byte: u8 = b0 * 128 + b1 * 64 + b2 * 32 + b3 * 16 + b4 * 8 + b5 * 4 + b6 * 2 + b7;
        r.push(byte);
        i += 1;
    }
    proof {
        assert(r@ =~= packed_bytes(d@));
    }
    r
}

/// The node: the sole holder of the node secret, and the container that
/// serializes access to every channel.
#[derive(Clone, Debug, PartialEq)]
pub struct Node {
    pub node_secret: [u8; 32],
    pub network: Network,
    pub channels: Vec<(ChannelId, Channel)>,
}

impl Node {
    /// No two registered channels share an id.
    pub open spec fn wf(self) -> bool {
        forall|i: int, j: int|
            0 <= i < j < self.channels@.len() ==> self.channels@[i].0@ != self.channels@[j].0@
    }

    /// A node with no channels yet.
    pub fn new(node_secret: [u8; 32], network: Network) -> (r: Node)
        ensures
            r.node_secret == node_secret,
            r.network == network,
            r.channels@.len() == 0,
            r.wf(),
    {
        Node { node_secret, network, channels: Vec::new() }
    }

    /// The index of the channel registered under `id`.
    pub fn channel_index(&self, id: &ChannelId) -> (r: Option<usize>)
        ensures
            match r {
                Some(i) => i < self.channels@.len() && self.channels@[i as int].0@ == id@,
                None => forall|j: int|
                    0 <= j < self.channels@.len() ==> self.channels@[j].0@ != id@,
            },
    {
        let mut i: usize = 0;
        while i < self.channels.len()
            invariant
                i <= self.channels@.len(),
                forall|j: int| 0 <= j < i ==> self.channels@[j].0@ != id@,
            decreases self.channels@.len() - i,
        {
            if self.channels[i].0.eq_bytes(id) {
                return Some(i);
            }
            i += 1;
        }
        None
    }

    /// The channel registered under `id`, or a not-found failure.
    pub fn find_channel(&self, id: &ChannelId) -> (r: Result<&Channel, ValidationError>)
        ensures
            match r {
                Ok(c) => exists|i: int|
                    0 <= i < self.channels@.len() && self.channels@[i].0@ == id@ && *c
                        == self.channels@[i].1,
                Err(e) => {
                    &&& forall|j: int|
                        0 <= j < self.channels@.len() ==> self.channels@[j].0@ != id@
                    &&& e.kind == ValidationErrorKind::Internal
                    &&& e.message@ == "channel not found"@
                },
            },
    {
        match self.channel_index(id) {
            Some(i) => Ok(&self.channels[i].1),
            None => {
                let m = "channel not found".to_owned();
                proof {
                    reveal_strlit("channel not found");
                }
                Err(ValidationError::internal(m))
            },
        }
    }

    /// Registers a channel under a fresh id.
    pub fn insert_channel(&mut self, id: ChannelId, channel: Channel) -> (r: Result<
        (),
        ValidationError,
    >)
        requires
            old(self).wf(),
        ensures
            final (self).wf(),
            match r {
                Ok(()) => {
                    &&& (forall|j: int|
                        0 <= j < old(self).channels@.len() ==> old(self).channels@[j].0@ != id@)
                    &&& final (self).channels@ == old(self).channels@.push((id, channel))
                    &&& final (self).node_secret == old(self).node_secret
                    &&& final (self).network == old(self).network
                },
                Err(e) => {
                    &&& *final (self) == *old(self)
                    &&& (exists|j: int|
                        0 <= j < old(self).channels@.len() && old(self).channels@[j].0@ == id@)
                    &&& e.kind == ValidationErrorKind::Internal
                    &&& e.message@ == "channel already exists"@
                },
            },
    {
        match self.channel_index(&id) {
            Some(_) => {
                let m = "channel already exists".to_owned();
                proof {
                    reveal_strlit("channel already exists");
                }
                Err(ValidationError::internal(m))
            },
            None => {
                self.channels.push((id, channel));
                proof {
                    let s = self.channels@;
                    assert forall|i: int, j: int| 0 <= i < j < s.len() implies s[i].0@
                        != s[j].0@ by {
                        if j < s.len() - 1 {
                            assert(s[i] == old(self).channels@[i]);
                            assert(s[j] == old(self).channels@[j]);
                        } else {
                            assert(s[i] == old(self).channels@[i]);
                        }
                    }
                }
                Ok(())
            },
        }
    }

    /// The node's secret key.
    pub fn get_node_secret(&self) -> (r: [u8; 32])
        ensures
            r == self.node_secret,
    {
        self.node_secret
    }

    /// All registered channels.
    pub fn channels(&self) -> (r: &Vec<(ChannelId, Channel)>)
        ensures
            r == &self.channels,
    {
        &self.channels
    }

    /// Signs the double-SHA-256 of a node announcement with the node key,
    /// returning a DER signature.
    pub fn sign_node_announcement(&self, na: &Vec<u8>) -> (r: Result<Vec<u8>, ValidationError>)
        ensures
            match r {
                Ok(s) => sign_der_of(self.node_secret@, sha256d_of(na@)) == Some(s@),
                Err(e) => sign_der_of(self.node_secret@, sha256d_of(na@)) is None && e.kind
                    == ValidationErrorKind::Internal && e.message@ == "signing failed"@,
            },
    {
        let hash = sha256d(na.as_slice());
        match ecdsa_sign_der(&self.node_secret, &hash) {
            Some(s) => Ok(s),
            None => {
                let m = "signing failed".to_owned();
                proof {
                    reveal_strlit("signing failed");
                }
                Err(ValidationError::internal(m))
            },
        }
    }

    /// Signs the double-SHA-256 of a channel update with the node key,
    /// returning a DER signature.
    pub fn sign_channel_update(&self, cu: &Vec<u8>) -> (r: Result<Vec<u8>, ValidationError>)
        ensures
            match r {
                Ok(s) => sign_der_of(self.node_secret@, sha256d_of(cu@)) == Some(s@),
                Err(e) => sign_der_of(self.node_secret@, sha256d_of(cu@)) is None && e.kind
                    == ValidationErrorKind::Internal && e.message@ == "signing failed"@,
            },
    {
        let hash = sha256d(cu.as_slice());
        match ecdsa_sign_der(&self.node_secret, &hash) {
            Some(s) => Ok(s),
            None => {
                let m = "signing failed".to_owned();
                proof {
                    reveal_strlit("signing failed");
                }
                Err(ValidationError::internal(m))
            },
        }
    }

    /// Signs an invoice: the SHA-256 of the human-readable part's bytes
    /// followed by the 5-bit data part packed into bytes, with a
    /// recoverable signature whose recovery id is appended.
    pub fn sign_invoice(&self, data_part: &Vec<u8>, human_readable_part: &String) -> (r: Result<
        Vec<u8>,
        ValidationError,
    >)
        requires
            forall|i: int| 0 <= i < data_part@.len() ==> data_part@[i] < 32,
            data_part@.len() * 5 + 7 <= usize::MAX,
        ensures
            ({
                let digest = sha256_of(
                    vstd::utf8::encode_utf8(human_readable_part@) + packed_bytes(data_part@),
                );
                match r {
                    Ok(s) => recsig65_of(self.node_secret@, digest) == Some(s@) && s@.len() == 65,
                    Err(e) => recsig65_of(self.node_secret@, digest) is None && e.kind
                        == ValidationErrorKind::Internal && e.message@ == "signing failed"@,
                }
            }),
    {
        let mut buf = vstd::slice::slice_to_vec(human_readable_part.as_str().as_bytes());
        let packed = pack_base32(data_part);
        crate::bytes::push_slice(&mut buf, packed.as_slice());
        let hash = sha256(buf.as_slice());
        match ecdsa_sign_recoverable(&self.node_secret, &hash) {
            Some(s) => Ok(s),
            None => {
                let m = "signing failed".to_owned();
                proof {
                    reveal_strlit("signing failed");
                }
                Err(ValidationError::internal(m))
            },
        }
    }

    /// Signs an arbitrary message under the signed-message prefix,
    /// returning the compact recoverable signature with its recovery id.
    pub fn sign_message(&self, message: &Vec<u8>) -> (r: Result<Vec<u8>, ValidationError>)
        ensures
            ({
                let digest = sha256d_of(
                    vstd::utf8::encode_utf8("Lightning Signed Message:"@) + message@,
                );
                match r {
                    Ok(s) => recsig65_of(self.node_secret@, digest) == Some(s@) && s@.len() == 65,
                    Err(e) => recsig65_of(self.node_secret@, digest) is None && e.kind
                        == ValidationErrorKind::Internal && e.message@ == "signing failed"@,
                }
            }),
    {
        let prefix: &str = "Lightning Signed Message:";
        let mut buffer = vstd::slice::slice_to_vec(prefix.as_bytes());
        crate::bytes::push_slice(&mut buffer, message.as_slice());
        let hash = sha256d(buffer.as_slice());
        match ecdsa_sign_recoverable(&self.node_secret, &hash) {
            Some(s) => Ok(s),
            None => {
                let m = "signing failed".to_owned();
                proof {
                    reveal_strlit("signing failed");
                }
                Err(ValidationError::internal(m))
            },
        }
    }
}

} // verus!
