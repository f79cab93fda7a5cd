//! Tests for the node signing operations, the wallet view, the allowlist
//! and the key derivations.

use lightning_signer_core::channel::{
    Channel, ChannelId, ChannelPublicKeys, Network, RemoteChannelConfig,
};
use lightning_signer_core::derive::{derive_public_key, derive_public_revocation_key};
use lightning_signer_core::error::{build_nn, ValidationError, ValidationErrorKind};
use lightning_signer_core::model::PubKey;
use lightning_signer_core::node::{pack_base32, signature_to_bitcoin_vec, Node};
use lightning_signer_core::tx::OutPoint;
use lightning_signer_core::validator::EnforcementState;
use lightning_signer_core::wallet::{parse_address, Allowlist, Wallet};

fn make_test_pubkey(x: u8) -> PubKey {
    let sk = secp256k1::SecretKey::from_secret_bytes([x; 32]).expect("secret");
    PubKey(secp256k1::PublicKey::from_secret_key(&sk).serialize())
}

fn make_test_points(base: u8) -> ChannelPublicKeys {
    ChannelPublicKeys {
        funding_pubkey: make_test_pubkey(base),
        revocation_basepoint: make_test_pubkey(base + 1),
        payment_point: make_test_pubkey(base + 2),
        delayed_payment_basepoint: make_test_pubkey(base + 3),
        htlc_basepoint: make_test_pubkey(base + 4),
    }
}

fn make_test_channel() -> Channel {
    Channel {
        holder_points: make_test_points(0x50),
        commitment_seed: [13; 32],
        channel_value_satoshi: 100_000,
        local_to_self_delay: 6,
        is_outbound: true,
        counterparty_points: None,
        remote_config: None,
        enforcement_state: EnforcementState::new(0),
    }
}

#[test]
fn wallet_derivation_matches_bip32() {
    let wallet = Wallet {
        node_seed: [11; 32],
        network: Network::Testnet,
        allowlist: Allowlist::new(Network::Testnet),
    };
    let script = wallet.p2wpkh_script_for_path(&vec![19]).unwrap();

    // recompute the script independently
    let secp = bitcoin::secp256k1::Secp256k1::new();
    let master = bitcoin::bip32::Xpriv::new_master(bitcoin::NetworkKind::Main, &[11u8; 32])
        .unwrap();
    let child = master
        .derive_priv(&secp, &vec![bitcoin::bip32::ChildNumber::from_normal_idx(19).unwrap()])
        .unwrap();
    let pk = bitcoin::bip32::Xpub::from_priv(&secp, &child).public_key.serialize();
    let h = bitcoin_hashes::hash160::Hash::hash(&pk).to_byte_array();
    let mut expected = vec![0x00u8, 0x14];
    expected.extend_from_slice(&h);
    assert_eq!(script, expected);

    // different paths and different seeds give different scripts
    assert_ne!(script, wallet.p2wpkh_script_for_path(&vec![21]).unwrap());
    let other = Wallet {
        node_seed: [12; 32],
        network: Network::Testnet,
        allowlist: Allowlist::new(Network::Testnet),
    };
    assert_ne!(script, other.p2wpkh_script_for_path(&vec![19]).unwrap());

    // the wrapped form nests the native script's hash
    let wrapped = wallet.p2shwpkh_script_for_path(&vec![19]).unwrap();
    let sh = bitcoin_hashes::hash160::Hash::hash(&expected).to_byte_array();
    let mut expected_wrapped = vec![0xa9u8, 0x14];
    expected_wrapped.extend_from_slice(&sh);
    expected_wrapped.push(0x87);
    assert_eq!(wrapped, expected_wrapped);

    assert!(wallet.can_spend(&vec![19], &script));
    assert!(wallet.can_spend(&vec![19], &wrapped));
    assert!(!wallet.can_spend(&vec![21], &script));
}

#[test]
fn parse_address_forms() {
    // native segwit v0, program known from the address itself
    let script =
        parse_address("tb1qg975h6gdx5mryeac72h6lj2nzygugxhyk6dnhr", Network::Testnet).unwrap();
    let mut expected = vec![0x00u8, 0x14];
    expected.extend_from_slice(
        &[
            0x41u8, 0x7d, 0x4b, 0xe9, 0x0d, 0x35, 0x36, 0x32, 0x67, 0xb8, 0xf2, 0xaf, 0xaf, 0xc9,
            0x53, 0x11, 0x11, 0xc4, 0x1a, 0xe4,
        ],
    );
    assert_eq!(script, expected);

    // wrapped segwit via base58check
    let script2 = parse_address("2MspRgcQvaVN2RkpumN1X8GkzsE7BVTTb6y", Network::Testnet).unwrap();
    let mut expected2 = vec![0xa9u8, 0x14];
    expected2.extend_from_slice(
        &[
            0x06u8, 0x47, 0x7d, 0x4e, 0xd5, 0xf2, 0x05, 0xa6, 0x7d, 0xa7, 0x7c, 0xca, 0xbd, 0x12,
            0xa8, 0xbb, 0x96, 0x33, 0xfe, 0x94,
        ],
    );
    expected2.push(0x87);
    assert_eq!(script2, expected2);

    // a mainnet address is rejected on testnet and accepted on mainnet
    assert!(parse_address("tb1qg975h6gdx5mryeac72h6lj2nzygugxhyk6dnhr", Network::Bitcoin).is_none());
    assert!(parse_address("not an address", Network::Testnet).is_none());
}

#[test]
fn allowlist_add_contains_remove() {
    let mut allowlist = Allowlist::new(Network::Testnet);
    let addr = "tb1qg975h6gdx5mryeac72h6lj2nzygugxhyk6dnhr".to_string();
    let script = parse_address(&addr, Network::Testnet).unwrap();
    assert!(!allowlist.contains(&script));
    allowlist.add(&vec![addr.clone()]).unwrap();
    assert!(allowlist.contains(&script));
    // a bad address leaves the list unchanged
    let e = allowlist.add(&vec!["garbage".to_string()]).unwrap_err();
    assert_eq!(e.kind, ValidationErrorKind::Policy);
    assert_eq!(e.message, "could not parse address");
    assert!(allowlist.contains(&script));
    allowlist.remove(&vec![addr]).unwrap();
    assert!(!allowlist.contains(&script));
}

#[test]
fn sign_message_matches_reference_signature() {
    let node = Node::new([42; 32], Network::Testnet);
    let message = b"hello world".to_vec();
    let sig = node.sign_message(&message).unwrap();
    assert_eq!(sig.len(), 65);

    // recompute with the underlying primitives
    let mut buffer = b"Lightning Signed Message:".to_vec();
    buffer.extend_from_slice(&message);
    let hash = bitcoin_hashes::sha256d::Hash::hash(&buffer).to_byte_array();
    let sk = secp256k1::SecretKey::from_secret_bytes([42; 32]).unwrap();
    let msg = secp256k1::Message::from_digest(hash);
    let recsig = secp256k1::ecdsa::RecoverableSignature::sign_ecdsa_recoverable(msg, &sk);
    let (rid, compact) = recsig.serialize_compact();
    let mut expected = compact.to_vec();
    expected.push(u8::from(rid));
    assert_eq!(sig, expected);
}

#[test]
fn sign_node_announcement_matches_reference_signature() {
    let node = Node::new([42; 32], Network::Testnet);
    let na = vec![1u8, 2, 3, 4];
    let sig = node.sign_node_announcement(&na).unwrap();
    assert_eq!(sig, node.sign_channel_update(&na).unwrap());

    let hash = bitcoin_hashes::sha256d::Hash::hash(&na).to_byte_array();
    let sk = secp256k1::SecretKey::from_secret_bytes([42; 32]).unwrap();
    let msg = secp256k1::Message::from_digest(hash);
    let expected = secp256k1::ecdsa::sign(msg, &sk).serialize_der().to_vec();
    assert_eq!(sig, expected);

    // and it verifies against the node's public key
    let der = secp256k1::ecdsa::Signature::from_der(&sig).unwrap();
    let pk = secp256k1::PublicKey::from_secret_key(&sk);
    assert!(der.verify(msg, &pk).is_ok());
}

#[test]
fn sign_invoice_hashes_hrp_and_packed_data() {
    let node = Node::new([42; 32], Network::Testnet);
    let hrp = "lntb1m".to_string();
    // 5-bit data
    let data: Vec<u8> = vec![3, 14, 15, 9, 2, 6, 5, 31, 0, 1];
    let sig = node.sign_invoice(&data, &hrp).unwrap();
    assert_eq!(sig.len(), 65);

    // recompute: pack 5-bit groups and hash hrp || packed
    let mut acc: u32 = 0;
    let mut bits: u32 = 0;
    let mut packed: Vec<u8> = vec![];
    for d in &data {
        acc = (acc << 5) | (*d as u32);
        bits += 5;
        while bits >= 8 {
            bits -= 8;
            packed.push(((acc >> bits) & 0xff) as u8);
        }
    }
    if bits > 0 {
        packed.push(((acc << (8 - bits)) & 0xff) as u8);
    }
    let mut buf = hrp.as_bytes().to_vec();
    buf.extend_from_slice(&packed);
    let hash = bitcoin_hashes::sha256::Hash::hash(&buf).to_byte_array();
    let sk = secp256k1::SecretKey::from_secret_bytes([42; 32]).unwrap();
    let msg = secp256k1::Message::from_digest(hash);
    let recsig = secp256k1::ecdsa::RecoverableSignature::sign_ecdsa_recoverable(msg, &sk);
    let (rid, compact) = recsig.serialize_compact();
    let mut expected = compact.to_vec();
    expected.push(u8::from(rid));
    assert_eq!(sig, expected);
}

#[test]
fn pack_base32_vectors() {
    assert_eq!(pack_base32(&vec![31; 8]), vec![0xff; 5]);
    assert_eq!(pack_base32(&vec![1]), vec![0x08]);
    assert_eq!(pack_base32(&vec![]), Vec::<u8>::new());
    assert_eq!(pack_base32(&vec![1, 1]), vec![0x08, 0x40]);
}

#[test]
fn derived_keys_match_reference_derivation() {
    let point = make_test_pubkey(0x21);
    let base = make_test_pubkey(0x22);
    let derived = derive_public_key(&point, &base).unwrap();

    // recompute: base + SHA256(point || base) * G
    let mut buf = point.0.to_vec();
    buf.extend_from_slice(&base.0);
    let tweak = bitcoin_hashes::sha256::Hash::hash(&buf).to_byte_array();
    let base_pk = secp256k1::PublicKey::from_byte_array_compressed(base.0).unwrap();
    let scalar = secp256k1::Scalar::from_be_bytes(tweak).unwrap();
    let expected = base_pk.add_exp_tweak(&scalar).unwrap().serialize();
    assert_eq!(derived.0, expected);

    // revocation key: r*SHA256(r||p) + p*SHA256(p||r)
    let rev = derive_public_revocation_key(&point, &base).unwrap();
    let mut buf_rp = base.0.to_vec();
    buf_rp.extend_from_slice(&point.0);
    let t_rp = bitcoin_hashes::sha256::Hash::hash(&buf_rp).to_byte_array();
    let mut buf_pr = point.0.to_vec();
    buf_pr.extend_from_slice(&base.0);
    let t_pr = bitcoin_hashes::sha256::Hash::hash(&buf_pr).to_byte_array();
    let point_pk = secp256k1::PublicKey::from_byte_array_compressed(point.0).unwrap();
    let a = base_pk.mul_tweak(&secp256k1::Scalar::from_be_bytes(t_rp).unwrap()).unwrap();
    let b = point_pk.mul_tweak(&secp256k1::Scalar::from_be_bytes(t_pr).unwrap()).unwrap();
    let expected_rev = a.combine(&b).unwrap().serialize();
    assert_eq!(rev.0, expected_rev);
}

#[test]
fn channel_ready_and_commitment_info() {
    let mut chan = make_test_channel();
    assert!(!chan.is_ready());
    let e = chan.make_remote_tx_keys(&make_test_pubkey(0x21)).unwrap_err();
    assert_eq!(e.kind, ValidationErrorKind::Internal);
    assert_eq!(e.message, "channel must be accepted");

    let remote_points = make_test_points(0x60);
    chan.ready(
        &remote_points,
        7,
        vec![0x00, 0x14, 0xaa],
        OutPoint { txid: [9; 32], vout: 1 },
    );
    assert!(chan.is_ready());
    assert_eq!(
        chan.remote_config,
        Some(RemoteChannelConfig {
            to_self_delay: 7,
            shutdown_script: vec![0x00, 0x14, 0xaa],
            funding_outpoint: OutPoint { txid: [9; 32], vout: 1 },
        })
    );

    let point = make_test_pubkey(0x21);
    let keys = chan.make_remote_tx_keys(&point).unwrap();
    assert_eq!(
        keys.broadcaster_delayed_payment_key,
        derive_public_key(&point, &remote_points.delayed_payment_basepoint).unwrap()
    );
    assert_eq!(
        keys.revocation_key,
        derive_public_revocation_key(&point, &chan.holder_points.revocation_basepoint).unwrap()
    );

    let info = chan
        .build_remote_commitment_info(&point, 1000, 60_000, 39_000, vec![], vec![])
        .unwrap();
    assert!(info.is_counterparty_broadcaster);
    assert_eq!(info.to_broadcaster_value_sat, 60_000);
    assert_eq!(info.to_countersigner_value_sat, 39_000);
    assert_eq!(
        info.delayed_payment_key,
        derive_public_key(&point, &remote_points.delayed_payment_basepoint).unwrap()
    );
    assert_eq!(
        info.countersigner_payment_key,
        derive_public_key(&point, &chan.holder_points.payment_point).unwrap()
    );

    let local = chan
        .build_local_commitment_info(&point, 1000, 59_000, 40_000, vec![], vec![])
        .unwrap();
    assert!(!local.is_counterparty_broadcaster);
    assert_eq!(
        local.delayed_payment_key,
        derive_public_key(&point, &chan.holder_points.delayed_payment_basepoint).unwrap()
    );
    assert_eq!(
        local.revocation_key,
        derive_public_revocation_key(&point, &remote_points.revocation_basepoint).unwrap()
    );
}

#[test]
fn per_commitment_chain_matches_reference() {
    let chan = make_test_channel();
    let n: u64 = 5;
    let secret = chan.get_per_commitment_secret(n);

    // recompute: flip each set bit of the downward index from 47 to 0,
    // hashing after each flip
    let idx: u64 = 281474976710655 - n;
    let mut res = [13u8; 32];
    for i in 0..48u64 {
        let bitpos = 47 - i;
        if (idx >> bitpos) & 1 == 1 {
            res[(bitpos / 8) as usize] ^= 1 << (bitpos & 7);
            res = bitcoin_hashes::sha256::Hash::hash(&res).to_byte_array();
        }
    }
    assert_eq!(secret, res);

    let point = chan.get_per_commitment_point(n).unwrap();
    let sk = secp256k1::SecretKey::from_secret_bytes(secret).unwrap();
    assert_eq!(point.0, secp256k1::PublicKey::from_secret_key(&sk).serialize());

    // different commitment numbers give different secrets
    assert_ne!(secret, chan.get_per_commitment_secret(6));
}

#[test]
fn node_channel_registry() {
    let mut node = Node::new([42; 32], Network::Testnet);
    let id = ChannelId([5; 32]);
    assert!(node.find_channel(&id).is_err());
    node.insert_channel(id, make_test_channel()).unwrap();
    assert!(node.find_channel(&id).is_ok());
    let e = node.insert_channel(id, make_test_channel()).unwrap_err();
    assert_eq!(e.message, "channel already exists");
    let other = ChannelId([6; 32]);
    let e2 = node.find_channel(&other).unwrap_err();
    assert_eq!(e2.kind, ValidationErrorKind::Internal);
    assert_eq!(e2.message, "channel not found");
}

#[test]
fn signature_helpers_append_sighash_marker() {
    let der = vec![0x30, 0x44, 0x02, 0x20];
    assert_eq!(signature_to_bitcoin_vec(&der), vec![0x30, 0x44, 0x02, 0x20, 0x01]);
    let sigs = lightning_signer_core::node::signatures_to_bitcoin_vecs(&vec![
        vec![0x30],
        vec![0x31, 0x32],
    ]);
    assert_eq!(sigs, vec![vec![0x30, 0x01], vec![0x31, 0x32, 0x01]]);
}

#[test]
fn message_builders_render_decimals() {
    let s = build_nn("a ", 5, " b ", 17);
    assert_eq!(s, "a 5 b 17".to_string());
    let s2 = build_nn("x ", 0, " y ", 18_446_744_073_709_551_615);
    assert_eq!(s2, "x 0 y 18446744073709551615".to_string());
    let e = ValidationError::policy("oops".to_string());
    assert_eq!(e.description(), "policy failure: oops".to_string());
    let e2 = ValidationError::transaction_format("bad".to_string());
    assert_eq!(e2.description(), "transaction format: bad".to_string());
}

#[test]
fn model_key_equality_is_bytewise() {
    let a = make_test_pubkey(0x21);
    let b = make_test_pubkey(0x22);
    assert!(a.eq_bytes(&a));
    assert!(!a.eq_bytes(&b));
    let id1 = ChannelId([1; 32]);
    let id2 = ChannelId([2; 32]);
    assert!(id1.eq_bytes(&id1));
    assert!(!id1.eq_bytes(&id2));
}
