//! The holder's wallet view and the operator allowlist.
//!
//! The wallet check is pure: a destination belongs to the holder exactly
//! when it equals a script derived from the node's seed at the claimed
//! path.  The allowlist holds the scripts of operator-approved external
//! addresses.

use vstd::prelude::*;

use crate::bytes::{any_equal, bytes_equal, push_slice};
use crate::channel::Network;
use crate::crypto::{
    base58check_decode, base58check_of, bip32_child_pubkey, child_pubkey_of, hash160, hash160_of,
    segwit_decode, segwit_decode_of,
};
use crate::error::{ValidationError, ValidationErrorKind};

verus! {

/// Pay-to-witness-pubkey-hash output script.
pub open spec fn p2wpkh_script(pkh: Seq<u8>) -> Seq<u8> {
    seq![0x00u8, 0x14u8] + pkh
}

/// Pay-to-script-hash output script.
pub open spec fn p2sh_script(sh: Seq<u8>) -> Seq<u8> {
    seq![0xa9u8, 0x14u8] + sh + seq![0x87u8]
}

/// Pay-to-pubkey-hash output script.
pub open spec fn p2pkh_script(pkh: Seq<u8>) -> Seq<u8> {
    seq![0x76u8, 0xa9u8, 0x14u8] + pkh + seq![0x88u8, 0xacu8]
}

/// Native witness-program output script for any witness version.
pub open spec fn witness_script(ver: u8, prog: Seq<u8>) -> Seq<u8> {
    seq![
        if ver == 0 {
            0x00u8
        } else {
            (0x50 + ver) as u8
        },
        prog.len() as u8,
    ] + prog
}

/// The bech32 human-readable part of the network.
pub open spec fn spec_hrp(network: Network) -> Seq<u8> {
    match network {
        Network::Bitcoin => seq![0x62u8, 0x63u8],
        Network::Regtest => seq![0x62u8, 0x63u8, 0x72u8, 0x74u8],
        _ => seq![0x74u8, 0x62u8],
    }
}

/// The base58 version byte of pay-to-pubkey-hash addresses.
pub open spec fn spec_p2pkh_prefix(network: Network) -> u8 {
    match network {
        Network::Bitcoin => 0x00u8,
        _ => 0x6fu8,
    }
}

/// The base58 version byte of pay-to-script-hash addresses.
pub open spec fn spec_p2sh_prefix(network: Network) -> u8 {
    match network {
        Network::Bitcoin => 0x05u8,
        _ => 0xc4u8,
    }
}

/// The output script a textual address stands for on the given network, or
/// nothing when the text is not a valid address of that network.
pub open spec fn spec_address_script(addr: Seq<char>, network: Network) -> Option<Seq<u8>> {
    if segwit_decode_of(addr) is Some {
        let t = segwit_decode_of(addr)->0;
        if t.0 == spec_hrp(network) && t.1 <= 16 && t.2.len() <= 40 {
            Some(witness_script(t.1, t.2))
        } else {
            None
        }
    } else if base58check_of(addr) is Some {
        let payload = base58check_of(addr)->0;
        if payload.len() == 21 && payload[0] == spec_p2pkh_prefix(network) {
            Some(p2pkh_script(payload.skip(1)))
        } else if payload.len() == 21 && payload[0] == spec_p2sh_prefix(network) {
            Some(p2sh_script(payload.skip(1)))
        } else {
            None
        }
    } else {
        None
    }
}

/// Whether `hrp` is the human-readable part of the network.
fn hrp_matches(hrp: &Vec<u8>, network: Network) -> (r: bool)
    ensures
        r == (hrp@ == spec_hrp(network)),
{
    let r = match network {
        Network::Bitcoin => hrp.len() == 2 && hrp[0] == 0x62 && hrp[1] == 0x63,
        Network::Regtest => hrp.len() == 4 && hrp[0] == 0x62 && hrp[1] == 0x63 && hrp[2] == 0x72
            && hrp[3] == 0x74,
        _ => hrp.len() == 2 && hrp[0] == 0x74 && hrp[1] == 0x62,
    };
    proof {
        if r {
            assert(hrp@ =~= spec_hrp(network));
        } else {
            assert(hrp@ != spec_hrp(network));
        }
    }
    r
}

/// Builds the native witness-program script.
fn build_witness_script(ver: u8, prog: &Vec<u8>) -> (r: Vec<u8>)
    requires
        ver <= 16,
        prog@.len() <= 40,
    ensures
        r@ == witness_script(ver, prog@),
{
    let mut r: Vec<u8> = Vec::new();
    r.push(
        if ver == 0 {
            0x00
        } else {
            0x50 + ver
        },
    );
    r.push(prog.len() as u8);
    push_slice(&mut r, prog.as_slice());
    proof {
        assert(r@ =~= witness_script(ver, prog@));
    }
    r
}

/// Builds the pay-to-pubkey-hash script.
fn build_p2pkh_script(pkh: &[u8]) -> (r: Vec<u8>)
    ensures
        r@ == p2pkh_script(pkh@),
{
    let mut r: Vec<u8> = Vec::new();
    r.push(0x76);
    r.push(0xa9);
    r.push(0x14);
    push_slice(&mut r, pkh);
    r.push(0x88);
    r.push(0xac);
    proof {
        assert(r@ =~= p2pkh_script(pkh@));
    }
    r
}

/// Builds the pay-to-script-hash script.
fn build_p2sh_script(sh: &[u8]) -> (r: Vec<u8>)
    ensures
        r@ == p2sh_script(sh@),
{
    let mut r: Vec<u8> = Vec::new();
    r.push(0xa9);
    r.push(0x14);
    push_slice(&mut r, sh);
    r.push(0x87);
    proof {
        assert(r@ =~= p2sh_script(sh@));
    }
    r
}

/// Builds the pay-to-witness-pubkey-hash script.
fn build_p2wpkh_script(pkh: &[u8]) -> (r: Vec<u8>)
    ensures
        r@ == p2wpkh_script(pkh@),
{
    let mut r: Vec<u8> = Vec::new();
    r.push(0x00);
    r.push(0x14);
    push_slice(&mut r, pkh);
    proof {
        assert(r@ =~= p2wpkh_script(pkh@));
    }
    r
}

/// Parses a textual address into its output script.
pub fn parse_address(addr: &str, network: Network) -> (r: Option<Vec<u8>>)
    ensures
        match r {
            Some(s) => spec_address_script(addr@, network) == Some(s@),
            None => spec_address_script(addr@, network) is None,
        },
{
    match segwit_decode(addr) {
        Some((hrp, ver, prog)) => {
            if hrp_matches(&hrp, network) && ver <= 16 && prog.len() <= 40 {
                Some(build_witness_script(ver, &prog))
            } else {
                None
            }
        },
        None => match base58check_decode(addr) {
            Some(payload) => {
                if payload.len() != 21 {
                    return None;
                }
                let mut h20: Vec<u8> = Vec::new();
                let mut i: usize = 1;
                while i < payload.len()
                    invariant
                        1 <= i <= payload@.len(),
                        h20@ == payload@.subrange(1, i as int),
                    decreases payload@.len() - i,
                {
                    h20.push(payload[i]);
                    proof {
                        assert(payload@.subrange(1, i + 1) =~= payload@.subrange(1, i as int).push(
                            payload@[i as int],
                        ));
                    }
                    i += 1;
                }
                proof {
                    assert(h20@ =~= payload@.skip(1));
                }
                if payload[0] == if network == Network::Bitcoin {
                    0x00
                } else {
                    0x6f
                } {
                    Some(build_p2pkh_script(h20.as_slice()))
                } else if payload[0] == if network == Network::Bitcoin {
                    0x05
                } else {
                    0xc4
                } {
                    Some(build_p2sh_script(h20.as_slice()))
                } else {
                    None
                }
            },
            None => None,
        },
    }
}

/// The operator-approved set of external destination scripts.
#[derive(Clone, Debug, PartialEq)]
pub struct Allowlist {
    pub scripts: Vec<Vec<u8>>,
    pub network: Network,
}

impl Allowlist {
    /// Whether `s` is an approved destination script.
    pub open spec fn contains_script(self, s: Seq<u8>) -> bool {
        crate::bytes::in_list(self.scripts@, s)
    }

    /// Whether an address parses to `s` on this list's network.
    pub open spec fn names_script(self, addresses: Seq<Seq<char>>, s: Seq<u8>) -> bool {
        exists|i: int|
            0 <= i < addresses.len() && spec_address_script(addresses[i], self.network) == Some(s)
    }

    /// An empty allowlist for the network.
    pub fn new(network: Network) -> (r: Allowlist)
        ensures
            r.network == network,
            forall|s: Seq<u8>| !#[trigger] r.contains_script(s),
    {
        Allowlist { scripts: Vec::new(), network }
    }

    /// Whether `script` is an approved destination.
    pub fn contains(&self, script: &Vec<u8>) -> (r: bool)
        ensures
            r == self.contains_script(script@),
    {
        any_equal(&self.scripts, script)
    }

    /// Adds the scripts of the given addresses.  If any address does not
    /// parse on this network, nothing is added.
    pub fn add(&mut self, addresses: &Vec<String>) -> (r: Result<(), ValidationError>)
        ensures
            final (self).network == old(self).network,
            match r {
                Ok(()) => {
                    &&& (forall|i: int|
                        0 <= i < addresses@.len() ==> #[trigger] spec_address_script(
                            addresses@[i]@,
                            old(self).network,
                        ) is Some)
                    &&& final (self).scripts@.len() == old(self).scripts@.len()
                        + addresses@.len()
                    &&& (forall|j: int|
                        0 <= j < old(self).scripts@.len() ==> #[trigger] final (self).scripts@[j]
                            == old(self).scripts@[j])
                    &&& (forall|i: int|
                        0 <= i < addresses@.len() ==> #[trigger] final (self).scripts@[old(
                            self,
                        ).scripts@.len() + i]@ == spec_address_script(
                            addresses@[i]@,
                            old(self).network,
                        )->0)
                },
                Err(e) => {
                    &&& *final (self) == *old(self)
                    &&& (exists|i: int|
                        0 <= i < addresses@.len() && #[trigger] spec_address_script(
                            addresses@[i]@,
                            old(self).network,
                        ) is None)
                    &&& e.kind == ValidationErrorKind::Policy
                    &&& e.message@ == "could not parse address"@
                },
            },
    {
        let mut parsed: Vec<Vec<u8>> = Vec::new();
        let mut i: usize = 0;
        while i < addresses.len()
            invariant
                i <= addresses@.len(),
                parsed@.len() == i,
                forall|k: int|
                    0 <= k < i ==> #[trigger] spec_address_script(addresses@[k]@, self.network)
                        == Some(parsed@[k]@),
            decreases addresses@.len() - i,
        {
            match parse_address(addresses[i].as_str(), self.network) {
                Some(s) => {
                    parsed.push(s);
                },
                None => {
                    return Err(ValidationError::policy("could not parse address".to_owned()));
                },
            }
            i += 1;
        }
        let ghost n0 = self.scripts@.len();
        let mut j: usize = 0;
        while j < parsed.len()
            invariant
                j <= parsed@.len(),
                self.network == old(self).network,
                self.scripts@.len() == n0 + j,
                forall|k: int| 0 <= k < n0 ==> #[trigger] self.scripts@[k] == old(self).scripts@[k],
                forall|k: int|
                    0 <= k < j ==> #[trigger] self.scripts@[n0 + k]@ == parsed@[k]@,
                parsed@.len() == addresses@.len(),
                forall|k: int|
                    0 <= k < addresses@.len() ==> #[trigger] spec_address_script(
                        addresses@[k]@,
                        self.network,
                    ) == Some(parsed@[k]@),
            decreases parsed@.len() - j,
        {
            let entry = crate::bytes::clone_bytes(&parsed[j]);
            self.scripts.push(entry);
            j += 1;
        }
        Ok(())
    }

    /// Removes every script named by the given addresses.  If any address
    /// does not parse on this network, nothing is removed.
    pub fn remove(&mut self, addresses: &Vec<String>) -> (r: Result<(), ValidationError>)
        ensures
            final (self).network == old(self).network,
            match r {
                Ok(()) => {
                    &&& (forall|i: int|
                        0 <= i < addresses@.len() ==> #[trigger] spec_address_script(
                            addresses@[i]@,
                            old(self).network,
                        ) is Some)
                    &&& (forall|s: Seq<u8>|
                        #[trigger] final (self).contains_script(s) <==> old(self).contains_script(
                            s,
                        ) && !old(self).names_script(addresses@.map_values(|a: String| a@), s))
                },
                Err(e) => {
                    &&& *final (self) == *old(self)
                    &&& (exists|i: int|
                        0 <= i < addresses@.len() && #[trigger] spec_address_script(
                            addresses@[i]@,
                            old(self).network,
                        ) is None)
                    &&& e.kind == ValidationErrorKind::Policy
                    &&& e.message@ == "could not parse address"@
                },
            },
    {
        let ghost addr_views = addresses@.map_values(|a: String| a@);
        let mut parsed: Vec<Vec<u8>> = Vec::new();
        let mut i: usize = 0;
        while i < addresses.len()
            invariant
                i <= addresses@.len(),
                parsed@.len() == i,
                addr_views == addresses@.map_values(|a: String| a@),
                forall|k: int|
                    0 <= k < i ==> #[trigger] spec_address_script(addresses@[k]@, self.network)
                        == Some(parsed@[k]@),
            decreases addresses@.len() - i,
        {
            match parse_address(addresses[i].as_str(), self.network) {
                Some(s) => {
                    parsed.push(s);
                },
                None => {
                    return Err(ValidationError::policy("could not parse address".to_owned()));
                },
            }
            i += 1;
        }
        let mut kept: Vec<Vec<u8>> = Vec::new();
        let mut j: usize = 0;
        while j < self.scripts.len()
            invariant
                j <= self.scripts@.len(),
                parsed@.len() == addresses@.len(),
                addr_views == addresses@.map_values(|a: String| a@),
                forall|k: int|
                    0 <= k < parsed@.len() ==> #[trigger] spec_address_script(
                        addresses@[k]@,
                        self.network,
                    ) == Some(parsed@[k]@),
                forall|s: Seq<u8>|
                    #[trigger] crate::bytes::in_list(kept@, s) <==> (crate::bytes::in_list(
                        self.scripts@.subrange(0, j as int),
                        s,
                    ) && !self.names_script(addr_views, s)),
            decreases self.scripts@.len() - j,
        {
            let ghost sj = self.scripts@[j as int]@;
            let ghost pre_kept = kept@;
            let ghost sub_j = self.scripts@.subrange(0, j as int);
            let keep = !any_equal(&parsed, &self.scripts[j]);
            proof {
                if keep {
                    assert(!self.names_script(addr_views, sj)) by {
                        assert forall|k: int|
                            0 <= k < addr_views.len() implies spec_address_script(
                            addr_views[k],
                            self.network,
                        ) != Some(sj) by {
                            assert(addr_views[k] == addresses@[k]@);
                            assert(spec_address_script(addresses@[k]@, self.network) == Some(
                                parsed@[k]@,
                            ));
                            assert(parsed@[k]@ != sj);
                        }
                    }
                } else {
                    let k = choose|k: int| 0 <= k < parsed@.len() && parsed@[k]@ == sj;
                    assert(addr_views[k] == addresses@[k]@);
                    assert(self.names_script(addr_views, sj));
                }
            }
            if keep {
                let entry = crate::bytes::clone_bytes(&self.scripts[j]);
                kept.push(entry);
            }
            proof {
                assert(self.scripts@.subrange(0, j + 1) =~= sub_j.push(
                    self.scripts@[j as int],
                ));
                assert forall|s: Seq<u8>| #[trigger] crate::bytes::in_list(kept@, s) <==> (
                crate::bytes::in_list(self.scripts@.subrange(0, j + 1), s) && !self.names_script(
                    addr_views,
                    s,
                )) by {
                    crate::bytes::lemma_in_list_push(sub_j, self.scripts@[j as int], s);
                    if keep {
                        crate::bytes::lemma_in_list_push(pre_kept, kept@.last(), s);
                    }
                }
            }
            j += 1;
        }
        proof {
            assert(self.scripts@.subrange(0, self.scripts@.len() as int) =~= self.scripts@);
        }
        self.scripts = kept;
        Ok(())
    }
}

/// The holder's deterministic wallet view.
#[derive(Clone, Debug, PartialEq)]
pub struct Wallet {
    pub node_seed: [u8; 32],
    pub network: Network,
    pub allowlist: Allowlist,
}

/// The holder's native-segwit script at a derivation path: the
/// pay-to-witness-pubkey-hash of the derived child key.
pub open spec fn spec_wallet_p2wpkh(seed: Seq<u8>, path: Seq<u32>) -> Option<Seq<u8>> {
    match child_pubkey_of(seed, path) {
        Some(pk) => Some(p2wpkh_script(hash160_of(pk))),
        None => None,
    }
}

/// The holder's wrapped-segwit script at a derivation path.
pub open spec fn spec_wallet_p2shwpkh(seed: Seq<u8>, path: Seq<u32>) -> Option<Seq<u8>> {
    match child_pubkey_of(seed, path) {
        Some(pk) => Some(p2sh_script(hash160_of(p2wpkh_script(hash160_of(pk))))),
        None => None,
    }
}

/// Whether `script` is one of the holder's own scripts at `path`.
pub open spec fn spec_can_spend(seed: Seq<u8>, path: Seq<u32>, script: Seq<u8>) -> bool {
    spec_wallet_p2wpkh(seed, path) == Some(script) || spec_wallet_p2shwpkh(seed, path) == Some(
        script,
    )
}

impl Wallet {
    /// The native-segwit destination at `child_path`, when the path is
    /// valid.
    pub fn p2wpkh_script_for_path(&self, child_path: &Vec<u32>) -> (r: Option<Vec<u8>>)
        ensures
            match r {
                Some(s) => spec_wallet_p2wpkh(self.node_seed@, child_path@) == Some(s@),
                None => spec_wallet_p2wpkh(self.node_seed@, child_path@) is None,
            },
    {
        match bip32_child_pubkey(&self.node_seed, child_path) {
            Some(pk) => {
                let pkh = hash160(pk.as_slice());
                Some(build_p2wpkh_script(pkh.as_slice()))
            },
            None => None,
        }
    }

    /// The wrapped-segwit destination at `child_path`, when the path is
    /// valid.
    pub fn p2shwpkh_script_for_path(&self, child_path: &Vec<u32>) -> (r: Option<Vec<u8>>)
        ensures
            match r {
                Some(s) => spec_wallet_p2shwpkh(self.node_seed@, child_path@) == Some(s@),
                None => spec_wallet_p2shwpkh(self.node_seed@, child_path@) is None,
            },
    {
        match bip32_child_pubkey(&self.node_seed, child_path) {
            Some(pk) => {
                let pkh = hash160(pk.as_slice());
                let redeem = build_p2wpkh_script(pkh.as_slice());
                let sh = hash160(redeem.as_slice());
                Some(build_p2sh_script(sh.as_slice()))
            },
            None => None,
        }
    }

    /// Whether `script_pubkey` is the holder's own destination at
    /// `child_path`, in either native or wrapped segwit form.  The check is
    /// pure: it consults nothing but the seed, the path and the script.
    pub fn can_spend(&self, child_path: &Vec<u32>, script_pubkey: &Vec<u8>) -> (r: bool)
        ensures
            r == spec_can_spend(self.node_seed@, child_path@, script_pubkey@),
    {
        match self.p2wpkh_script_for_path(child_path) {
            Some(native) => {
                if bytes_equal(&native, script_pubkey) {
                    return true;
                }
                match self.p2shwpkh_script_for_path(child_path) {
                    Some(wrapped) => bytes_equal(&wrapped, script_pubkey),
                    None => false,
                }
            },
            None => false,
        }
    }
}

} // verus!
