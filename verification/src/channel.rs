//! Static per-channel data: identifiers, negotiated parameters and the
//! counterparty's basepoints.

use vstd::prelude::*;

use crate::derive::{
    derive_public_key, derive_public_revocation_key, make_tx_creation_keys, spec_derived_pubkey,
    spec_revocation_pubkey, TxCreationKeys,
};
use crate::error::{ValidationError, ValidationErrorKind};
use crate::model::PubKey;
use crate::tx::{sum_htlc_values, CommitmentInfo2, HTLCInfo2, OutPoint};
use crate::validator::EnforcementState;

verus! {

/// 32-byte opaque channel identifier, stable for a channel's lifetime.
#[derive(PartialEq, Eq, Hash, Clone, Copy, Debug)]
pub struct ChannelId(pub [u8; 32]);

impl ChannelId {
    /// View of the identifier bytes.
    pub open spec fn view(self) -> Seq<u8> {
        self.0@
    }

    /// Byte-wise equality of two channel identifiers.
    pub fn eq_bytes(&self, other: &ChannelId) -> (r: bool)
        ensures
            r == (self@ == other@),
    {
        let mut i: usize = 0;
        while i < 32
            invariant
                i <= 32,
                forall|j: int| 0 <= j < i ==> self.0@[j] == other.0@[j],
            decreases 32 - i,
        {
            if self.0[i] != other.0[i] {
                return false;
            }
            i += 1;
        }
        proof {
            assert(self@ =~= other@);
        }
        true
    }
}

/// The bitcoin network a channel lives on.
#[derive(Clone, Copy, Debug, PartialEq, Eq, Structural)]
pub enum Network {
    Bitcoin,
    Testnet,
    Signet,
    Regtest,
}

/// Which commitment-transaction style the channel negotiated.
#[derive(Clone, Copy, Debug, PartialEq, Eq, Structural)]
pub enum CommitmentType {
    Legacy,
    StaticRemoteKey,
    Anchors,
}

/// The per-channel basepoints and funding key one side announces.
#[derive(Clone, Copy, Debug, PartialEq, Eq)]
pub struct ChannelPublicKeys {
    pub funding_pubkey: PubKey,
    pub revocation_basepoint: PubKey,
    pub payment_point: PubKey,
    pub delayed_payment_basepoint: PubKey,
    pub htlc_basepoint: PubKey,
}

/// Immutable channel parameters, fixed once the channel is ready.
#[derive(Clone, Debug, PartialEq)]
pub struct ChannelSetup {
    pub network: Network,
    pub is_outbound: bool,
    pub channel_value_sat: u64,
    pub funding_outpoint: OutPoint,
    pub holder_funding_pubkey: PubKey,
    pub holder_selected_contest_delay: u16,
    pub counterparty_selected_contest_delay: u16,
    pub counterparty_points: ChannelPublicKeys,
    pub holder_shutdown_script: Option<Vec<u8>>,
    pub counterparty_shutdown_script: Option<Vec<u8>>,
    pub commitment_type: CommitmentType,
}

/// The counterparty parameters captured when a channel is accepted.
#[derive(Clone, Debug, PartialEq)]
pub struct RemoteChannelConfig {
    pub to_self_delay: u16,
    pub shutdown_script: Vec<u8>,
    pub funding_outpoint: OutPoint,
}

/// The highest commitment number: per-commitment indexes count down from
/// here.
pub const INITIAL_COMMITMENT_NUMBER: u64 = 281474976710655;

/// Lexicographic byte order on serialized keys.
pub open spec fn lex_le(a: Seq<u8>, b: Seq<u8>) -> bool
    decreases a.len(),
{
    if a.len() == 0 {
        true
    } else if b.len() == 0 {
        false
    } else if a[0] < b[0] {
        true
    } else if a[0] > b[0] {
        false
    } else {
        lex_le(a.skip(1), b.skip(1))
    }
}

/// Compares two serialized keys lexicographically.
pub fn lex_le_keys(a: &PubKey, b: &PubKey) -> (r: bool)
    ensures
        r == lex_le(a@, b@),
{
    proof {
        assert(a@.skip(0) =~= a@);
        assert(b@.skip(0) =~= b@);
    }
    let mut i: usize = 0;
    while i < 33
        invariant
            i <= 33,
            lex_le(a@, b@) == lex_le(a@.skip(i as int), b@.skip(i as int)),
            forall|j: int| 0 <= j < i ==> a.0@[j] == b.0@[j],
        decreases 33 - i,
    {
        let x = a.0[i];
        let y = b.0[i];
        proof {
            assert(a@.skip(i as int)[0] == a.0@[i as int]);
            assert(b@.skip(i as int)[0] == b.0@[i as int]);
            assert(a@.skip(i as int).skip(1) =~= a@.skip(i + 1));
            assert(b@.skip(i as int).skip(1) =~= b@.skip(i + 1));
        }
        if x < y {
            return true;
        }
        if x > y {
            return false;
        }
        i += 1;
    }
    proof {
        assert(a@.skip(33).len() == 0);
    }
    true
}

/// The 2-of-2 multisig redeem script over two serialized keys in order.
pub open spec fn multisig_2of2(a: Seq<u8>, b: Seq<u8>) -> Seq<u8> {
    seq![0x52u8, 0x21u8] + a + seq![0x21u8] + b + seq![0x52u8, 0xaeu8]
}

/// The negotiated funding redeem script: the 2-of-2 multisig over both
/// funding keys in lexicographic order.
pub open spec fn spec_funding_redeem(h: Seq<u8>, c: Seq<u8>) -> Seq<u8> {
    if lex_le(h, c) {
        multisig_2of2(h, c)
    } else {
        multisig_2of2(c, h)
    }
}

/// The funding output script: pay-to-witness-script-hash of the funding
/// redeem script.
pub open spec fn spec_funding_script(setup: ChannelSetup) -> Seq<u8> {
    seq![0x00u8, 0x20u8] + crate::crypto::sha256_of(
        spec_funding_redeem(
            setup.holder_funding_pubkey@,
            setup.counterparty_points.funding_pubkey@,
        ),
    )
}

/// Builds the channel's funding output script.
pub fn funding_script(setup: &ChannelSetup) -> (r: Vec<u8>)
    ensures
        r@ == spec_funding_script(*setup),
{
    let (first, second) = if lex_le_keys(
        &setup.holder_funding_pubkey,
        &setup.counterparty_points.funding_pubkey,
    ) {
        (&setup.holder_funding_pubkey, &setup.counterparty_points.funding_pubkey)
    } else {
        (&setup.counterparty_points.funding_pubkey, &setup.holder_funding_pubkey)
    };
    let mut redeem: Vec<u8> = Vec::new();
    redeem.push(0x52);
    redeem.push(0x21);
    crate::bytes::push_slice(&mut redeem, first.0.as_slice());
    redeem.push(0x21);
    crate::bytes::push_slice(&mut redeem, second.0.as_slice());
    redeem.push(0x52);
    redeem.push(0xae);
    proof {
        assert(redeem@ =~= multisig_2of2(first@, second@));
    }
    let h = crate::crypto::sha256(redeem.as_slice());
    let mut r: Vec<u8> = Vec::new();
    r.push(0x00);
    r.push(0x20);
    crate::bytes::push_slice(&mut r, h.as_slice());
    proof {
        assert(r@ =~= spec_funding_script(*setup));
    }
    r
}

/// A channel: the holder's basepoints, the captured counterparty
/// parameters, and the enforcement state the validator advances.
#[derive(Clone, Debug, PartialEq)]
pub struct Channel {
    pub holder_points: ChannelPublicKeys,
    pub commitment_seed: [u8; 32],
    pub channel_value_satoshi: u64,
    pub local_to_self_delay: u16,
    pub is_outbound: bool,
    pub counterparty_points: Option<ChannelPublicKeys>,
    pub remote_config: Option<RemoteChannelConfig>,
    pub enforcement_state: EnforcementState,
}

impl Channel {
    /// Record the counterparty's basepoints.
    pub fn accept_remote_points(&mut self, channel_points: &ChannelPublicKeys)
        ensures
            *final (self) == (Channel {
                counterparty_points: Some(*channel_points),
                ..*old(self)
            }),
    {
        self.counterparty_points = Some(*channel_points);
    }

    /// Record the counterparty's negotiated parameters.
    pub fn accept_remote_config(
        &mut self,
        remote_to_self_delay: u16,
        shutdown_script: Vec<u8>,
        funding_outpoint: OutPoint,
    )
        ensures
            *final (self) == (Channel {
                remote_config: Some(
                    RemoteChannelConfig {
                        to_self_delay: remote_to_self_delay,
                        shutdown_script,
                        funding_outpoint,
                    },
                ),
                ..*old(self)
            }),
    {
        self.remote_config = Some(
            RemoteChannelConfig {
                to_self_delay: remote_to_self_delay,
                shutdown_script,
                funding_outpoint,
            },
        );
    }

    /// Record everything the counterparty supplies when the channel
    /// becomes ready.
    pub fn ready(
        &mut self,
        channel_points: &ChannelPublicKeys,
        remote_to_self_delay: u16,
        shutdown_script: Vec<u8>,
        funding_outpoint: OutPoint,
    )
        ensures
            *final (self) == (Channel {
                counterparty_points: Some(*channel_points),
                remote_config: Some(
                    RemoteChannelConfig {
                        to_self_delay: remote_to_self_delay,
                        shutdown_script,
                        funding_outpoint,
                    },
                ),
                ..*old(self)
            }),
    {
        self.accept_remote_points(channel_points);
        self.accept_remote_config(remote_to_self_delay, shutdown_script, funding_outpoint);
    }

    /// Whether the counterparty parameters have been captured.
    pub fn is_ready(&self) -> (r: bool)
        ensures
            r == (self.remote_config is Some),
    {
        self.remote_config.is_some()
    }

    /// The per-commitment secret for a holder commitment number.
    pub fn get_per_commitment_secret(&self, commitment_number: u64) -> (r: [u8; 32])
        requires
            commitment_number <= INITIAL_COMMITMENT_NUMBER,
        ensures
            r@ == crate::derive::spec_commitment_secret(
                self.commitment_seed@,
                (INITIAL_COMMITMENT_NUMBER - commitment_number) as u64,
            ),
    {
        crate::derive::build_commitment_secret(
            &self.commitment_seed,
            INITIAL_COMMITMENT_NUMBER - commitment_number,
        )
    }

    /// The per-commitment point for a holder commitment number.
    pub fn get_per_commitment_point(&self, commitment_number: u64) -> (r: Result<
        PubKey,
        ValidationError,
    >)
        requires
            commitment_number <= INITIAL_COMMITMENT_NUMBER,
        ensures
            ({
                let secret = crate::derive::spec_commitment_secret(
                    self.commitment_seed@,
                    (INITIAL_COMMITMENT_NUMBER - commitment_number) as u64,
                );
                match r {
                    Ok(p) => crate::crypto::pubkey_of(secret) == Some(p@),
                    Err(e) => crate::crypto::pubkey_of(secret) is None && e.kind
                        == ValidationErrorKind::Internal && e.message@
                        == "invalid per-commitment secret"@,
                }
            }),
    {
        let secret = self.get_per_commitment_secret(commitment_number);
        match crate::crypto::secret_to_pubkey(&secret) {
            Some(p) => Ok(PubKey(p)),
            None => {
                let m = "invalid per-commitment secret".to_owned();
                proof {
                    reveal_strlit("invalid per-commitment secret");
                }
                Err(ValidationError::internal(m))
            },
        }
    }

    /// Derives the commitment transaction keys for the broadcaster whose
    /// basepoints are `a_pubkeys`, countersigned by `b_pubkeys`.
    pub fn make_tx_keys(
        &self,
        per_commitment_point: &PubKey,
        a_pubkeys: &ChannelPublicKeys,
        b_pubkeys: &ChannelPublicKeys,
    ) -> (r: Result<TxCreationKeys, ValidationError>)
        ensures
            match r {
                Ok(k) => {
                    &&& k.per_commitment_point@ == per_commitment_point@
                    &&& Some(k.revocation_key@) == spec_revocation_pubkey(
                        per_commitment_point@,
                        b_pubkeys.revocation_basepoint@,
                    )
                    &&& Some(k.broadcaster_htlc_key@) == spec_derived_pubkey(
                        per_commitment_point@,
                        a_pubkeys.htlc_basepoint@,
                    )
                    &&& Some(k.countersignatory_htlc_key@) == spec_derived_pubkey(
                        per_commitment_point@,
                        b_pubkeys.htlc_basepoint@,
                    )
                    &&& Some(k.broadcaster_delayed_payment_key@) == spec_derived_pubkey(
                        per_commitment_point@,
                        a_pubkeys.delayed_payment_basepoint@,
                    )
                },
                Err(e) => {
                    &&& e.kind == ValidationErrorKind::Internal
                    &&& e.message@ == "failed to derive keys"@
                    &&& e.message@.len() > 0
                    &&& (spec_revocation_pubkey(
                        per_commitment_point@,
                        b_pubkeys.revocation_basepoint@,
                    ) is None || spec_derived_pubkey(
                        per_commitment_point@,
                        a_pubkeys.htlc_basepoint@,
                    ) is None || spec_derived_pubkey(
                        per_commitment_point@,
                        b_pubkeys.htlc_basepoint@,
                    ) is None || spec_derived_pubkey(
                        per_commitment_point@,
                        a_pubkeys.delayed_payment_basepoint@,
                    ) is None)
                },
            },
    {
        match make_tx_creation_keys(
            per_commitment_point,
            &a_pubkeys.delayed_payment_basepoint,
            &a_pubkeys.htlc_basepoint,
            &b_pubkeys.revocation_basepoint,
            &b_pubkeys.htlc_basepoint,
        ) {
            Some(k) => Ok(k),
            None => {
                let m = "failed to derive keys".to_owned();
                proof {
                    reveal_strlit("failed to derive keys");
                }
                Err(ValidationError::internal(m))
            },
        }
    }

    /// Keys for a commitment the counterparty broadcasts.
    pub fn make_remote_tx_keys(&self, per_commitment_point: &PubKey) -> (r: Result<
        TxCreationKeys,
        ValidationError,
    >)
        ensures
            self.counterparty_points is None ==> (r matches Err(e) && e.kind
                == ValidationErrorKind::Internal && e.message@ == "channel must be accepted"@),
            self.counterparty_points is Some ==> match r {
                Ok(k) => {
                    &&& k.per_commitment_point@ == per_commitment_point@
                    &&& Some(k.revocation_key@) == spec_revocation_pubkey(
                        per_commitment_point@,
                        self.holder_points.revocation_basepoint@,
                    )
                    &&& Some(k.broadcaster_htlc_key@) == spec_derived_pubkey(
                        per_commitment_point@,
                        self.counterparty_points->0.htlc_basepoint@,
                    )
                    &&& Some(k.countersignatory_htlc_key@) == spec_derived_pubkey(
                        per_commitment_point@,
                        self.holder_points.htlc_basepoint@,
                    )
                    &&& Some(k.broadcaster_delayed_payment_key@) == spec_derived_pubkey(
                        per_commitment_point@,
                        self.counterparty_points->0.delayed_payment_basepoint@,
                    )
                },
                Err(e) => {
                    &&& e.kind == ValidationErrorKind::Internal
                    &&& e.message@ == "failed to derive keys"@
                    &&& (spec_revocation_pubkey(
                        per_commitment_point@,
                        self.holder_points.revocation_basepoint@,
                    ) is None || spec_derived_pubkey(
                        per_commitment_point@,
                        self.counterparty_points->0.htlc_basepoint@,
                    ) is None || spec_derived_pubkey(
                        per_commitment_point@,
                        self.holder_points.htlc_basepoint@,
                    ) is None || spec_derived_pubkey(
                        per_commitment_point@,
                        self.counterparty_points->0.delayed_payment_basepoint@,
                    ) is None)
                },
            },
    {
        match &self.counterparty_points {
            Some(remote) => self.make_tx_keys(per_commitment_point, remote, &self.holder_points),
            None => {
                let m = "channel must be accepted".to_owned();
                proof {
                    reveal_strlit("channel must be accepted");
                }
                Err(ValidationError::internal(m))
            },
        }
    }

    /// Keys for a commitment the holder broadcasts.
    pub fn make_local_tx_keys(&self, per_commitment_point: &PubKey) -> (r: Result<
        TxCreationKeys,
        ValidationError,
    >)
        ensures
            self.counterparty_points is None ==> (r matches Err(e) && e.kind
                == ValidationErrorKind::Internal && e.message@ == "channel must be accepted"@),
            self.counterparty_points is Some ==> match r {
                Ok(k) => {
                    &&& k.per_commitment_point@ == per_commitment_point@
                    &&& Some(k.revocation_key@) == spec_revocation_pubkey(
                        per_commitment_point@,
                        self.counterparty_points->0.revocation_basepoint@,
                    )
                    &&& Some(k.broadcaster_htlc_key@) == spec_derived_pubkey(
                        per_commitment_point@,
                        self.holder_points.htlc_basepoint@,
                    )
                    &&& Some(k.countersignatory_htlc_key@) == spec_derived_pubkey(
                        per_commitment_point@,
                        self.counterparty_points->0.htlc_basepoint@,
                    )
                    &&& Some(k.broadcaster_delayed_payment_key@) == spec_derived_pubkey(
                        per_commitment_point@,
                        self.holder_points.delayed_payment_basepoint@,
                    )
                },
                Err(e) => {
                    &&& e.kind == ValidationErrorKind::Internal
                    &&& e.message@ == "failed to derive keys"@
                    &&& (spec_revocation_pubkey(
                        per_commitment_point@,
                        self.counterparty_points->0.revocation_basepoint@,
                    ) is None || spec_derived_pubkey(
                        per_commitment_point@,
                        self.holder_points.htlc_basepoint@,
                    ) is None || spec_derived_pubkey(
                        per_commitment_point@,
                        self.counterparty_points->0.htlc_basepoint@,
                    ) is None || spec_derived_pubkey(
                        per_commitment_point@,
                        self.holder_points.delayed_payment_basepoint@,
                    ) is None)
                },
            },
    {
        match &self.counterparty_points {
            Some(remote) => self.make_tx_keys(per_commitment_point, &self.holder_points, remote),
            None => {
                let m = "channel must be accepted".to_owned();
                proof {
                    reveal_strlit("channel must be accepted");
                }
                Err(ValidationError::internal(m))
            },
        }
    }

    /// Builds the decomposed description of a commitment the counterparty
    /// broadcasts: the direct balances as supplied, and every output key
    /// derived from the remote per-commitment point.
    pub fn build_remote_commitment_info(
        &self,
        remote_per_commitment_point: &PubKey,
        feerate_per_kw: u32,
        to_local_value: u64,
        to_remote_value: u64,
        offered_htlcs: Vec<HTLCInfo2>,
        received_htlcs: Vec<HTLCInfo2>,
    ) -> (r: Result<CommitmentInfo2, ValidationError>)
        requires
            to_local_value + to_remote_value + sum_htlc_values(offered_htlcs@) + sum_htlc_values(
                received_htlcs@,
            ) <= u64::MAX,
        ensures
            match r {
                Ok(i) => {
                    &&& self.counterparty_points is Some
                    &&& i.is_counterparty_broadcaster
                    &&& i.to_broadcaster_value_sat == to_local_value
                    &&& i.to_countersigner_value_sat == to_remote_value
                    &&& i.feerate_per_kw == feerate_per_kw
                    &&& i.offered_htlcs@ == offered_htlcs@
                    &&& i.received_htlcs@ == received_htlcs@
                    &&& Some(i.delayed_payment_key@) == spec_derived_pubkey(
                        remote_per_commitment_point@,
                        self.counterparty_points->0.delayed_payment_basepoint@,
                    )
                    &&& Some(i.countersigner_payment_key@) == spec_derived_pubkey(
                        remote_per_commitment_point@,
                        self.holder_points.payment_point@,
                    )
                    &&& Some(i.revocation_key@) == spec_revocation_pubkey(
                        remote_per_commitment_point@,
                        self.holder_points.revocation_basepoint@,
                    )
                    &&& Some(i.htlc_key@) == spec_derived_pubkey(
                        remote_per_commitment_point@,
                        self.counterparty_points->0.htlc_basepoint@,
                    )
                    &&& i.wf()
                },
                Err(e) => {
                    &&& e.kind == ValidationErrorKind::Internal
                    &&& e.message@.len() > 0
                    &&& (self.counterparty_points is None ==> e.message@ == "channel not ready"@)
                    &&& (self.counterparty_points is Some ==> e.message@
                        == "could not derive keys"@ && (spec_derived_pubkey(
                        remote_per_commitment_point@,
                        self.counterparty_points->0.delayed_payment_basepoint@,
                    ) is None || spec_derived_pubkey(
                        remote_per_commitment_point@,
                        self.holder_points.payment_point@,
                    ) is None || spec_revocation_pubkey(
                        remote_per_commitment_point@,
                        self.holder_points.revocation_basepoint@,
                    ) is None || spec_derived_pubkey(
                        remote_per_commitment_point@,
                        self.counterparty_points->0.htlc_basepoint@,
                    ) is None))
                },
            },
    {
        let remote = match &self.counterparty_points {
            Some(remote) => remote,
            None => {
                let m = "channel not ready".to_owned();
                proof {
                    reveal_strlit("channel not ready");
                }
                return Err(ValidationError::internal(m));
            },
        };
        let to_local_delayed_key = derive_public_key(
            remote_per_commitment_point,
            &remote.delayed_payment_basepoint,
        );
        let remote_key = derive_public_key(
            remote_per_commitment_point,
            &self.holder_points.payment_point,
        );
        let revocation_key = derive_public_revocation_key(
            remote_per_commitment_point,
            &self.holder_points.revocation_basepoint,
        );
        let htlc_key = derive_public_key(remote_per_commitment_point, &remote.htlc_basepoint);
        match (to_local_delayed_key, remote_key, revocation_key, htlc_key) {
            (Some(delayed), Some(payment), Some(revocation), Some(htlc)) => Ok(
                CommitmentInfo2 {
                    is_counterparty_broadcaster: true,
                    to_broadcaster_value_sat: to_local_value,
                    to_countersigner_value_sat: to_remote_value,
                    feerate_per_kw,
                    offered_htlcs,
                    received_htlcs,
                    revocation_key: revocation,
                    delayed_payment_key: delayed,
                    htlc_key: htlc,
                    countersigner_payment_key: payment,
                },
            ),
            _ => {
                let m = "could not derive keys".to_owned();
                proof {
                    reveal_strlit("could not derive keys");
                }
                Err(ValidationError::internal(m))
            },
        }
    }

    /// Builds the decomposed description of a commitment the holder
    /// broadcasts.
    pub fn build_local_commitment_info(
        &self,
        per_commitment_point: &PubKey,
        feerate_per_kw: u32,
        to_local_value: u64,
        to_remote_value: u64,
        offered_htlcs: Vec<HTLCInfo2>,
        received_htlcs: Vec<HTLCInfo2>,
    ) -> (r: Result<CommitmentInfo2, ValidationError>)
        requires
            to_local_value + to_remote_value + sum_htlc_values(offered_htlcs@) + sum_htlc_values(
                received_htlcs@,
            ) <= u64::MAX,
        ensures
            match r {
                Ok(i) => {
                    &&& self.counterparty_points is Some
                    &&& !i.is_counterparty_broadcaster
                    &&& i.to_broadcaster_value_sat == to_local_value
                    &&& i.to_countersigner_value_sat == to_remote_value
                    &&& i.feerate_per_kw == feerate_per_kw
                    &&& i.offered_htlcs@ == offered_htlcs@
                    &&& i.received_htlcs@ == received_htlcs@
                    &&& Some(i.delayed_payment_key@) == spec_derived_pubkey(
                        per_commitment_point@,
                        self.holder_points.delayed_payment_basepoint@,
                    )
                    &&& Some(i.countersigner_payment_key@) == spec_derived_pubkey(
                        per_commitment_point@,
                        self.counterparty_points->0.payment_point@,
                    )
                    &&& Some(i.revocation_key@) == spec_revocation_pubkey(
                        per_commitment_point@,
                        self.counterparty_points->0.revocation_basepoint@,
                    )
                    &&& Some(i.htlc_key@) == spec_derived_pubkey(
                        per_commitment_point@,
                        self.holder_points.htlc_basepoint@,
                    )
                    &&& i.wf()
                },
                Err(e) => {
                    &&& e.kind == ValidationErrorKind::Internal
                    &&& e.message@.len() > 0
                    &&& (self.counterparty_points is None ==> e.message@ == "channel not ready"@)
                    &&& (self.counterparty_points is Some ==> e.message@
                        == "could not derive keys"@ && (spec_derived_pubkey(
                        per_commitment_point@,
                        self.holder_points.delayed_payment_basepoint@,
                    ) is None || spec_derived_pubkey(
                        per_commitment_point@,
                        self.counterparty_points->0.payment_point@,
                    ) is None || spec_revocation_pubkey(
                        per_commitment_point@,
                        self.counterparty_points->0.revocation_basepoint@,
                    ) is None || spec_derived_pubkey(
                        per_commitment_point@,
                        self.holder_points.htlc_basepoint@,
                    ) is None))
                },
            },
    {
        let remote = match &self.counterparty_points {
            Some(remote) => remote,
            None => {
                let m = "channel not ready".to_owned();
                proof {
                    reveal_strlit("channel not ready");
                }
                return Err(ValidationError::internal(m));
            },
        };
        let to_local_delayed_key = derive_public_key(
            per_commitment_point,
            &self.holder_points.delayed_payment_basepoint,
        );
        let remote_key = derive_public_key(per_commitment_point, &remote.payment_point);
        let revocation_key = derive_public_revocation_key(
            per_commitment_point,
            &remote.revocation_basepoint,
        );
        let htlc_key = derive_public_key(per_commitment_point, &self.holder_points.htlc_basepoint);
        match (to_local_delayed_key, remote_key, revocation_key, htlc_key) {
            (Some(delayed), Some(payment), Some(revocation), Some(htlc)) => Ok(
                CommitmentInfo2 {
                    is_counterparty_broadcaster: false,
                    to_broadcaster_value_sat: to_local_value,
                    to_countersigner_value_sat: to_remote_value,
                    feerate_per_kw,
                    offered_htlcs,
                    received_htlcs,
                    revocation_key: revocation,
                    delayed_payment_key: delayed,
                    htlc_key: htlc,
                    countersigner_payment_key: payment,
                },
            ),
            _ => {
                let m = "could not derive keys".to_owned();
                proof {
                    reveal_strlit("could not derive keys");
                }
                Err(ValidationError::internal(m))
            },
        }
    }
}

} // verus!
