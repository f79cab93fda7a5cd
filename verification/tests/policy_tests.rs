//! Tests for the policy validators: sweeps, mutual close, commitments and
//! payment balance.

use lightning_signer_core::channel::{ChannelPublicKeys, ChannelSetup, CommitmentType, Network};
use lightning_signer_core::error::{ValidationError, ValidationErrorKind};
use lightning_signer_core::model::PubKey;
use lightning_signer_core::policy::{make_simple_policy, SimpleValidator};
use lightning_signer_core::tx::{
    CommitmentInfo2, HTLCInfo2, ListPreimageMap, OutPoint, PaymentHash, Transaction, TxIn, TxOut,
};
use lightning_signer_core::validator::{ChainState, EnforcementState};
use lightning_signer_core::wallet::{parse_address, Allowlist, Wallet};

fn make_test_pubkey(x: u8) -> PubKey {
    let sk = secp256k1::SecretKey::from_secret_bytes([x; 32]).expect("secret");
    PubKey(secp256k1::PublicKey::from_secret_key(&sk).serialize())
}

fn make_test_wallet() -> Wallet {
    Wallet {
        node_seed: [11; 32],
        network: Network::Testnet,
        allowlist: Allowlist::new(Network::Testnet),
    }
}

fn make_test_channel_setup() -> ChannelSetup {
    let points = ChannelPublicKeys {
        funding_pubkey: make_test_pubkey(0x40),
        revocation_basepoint: make_test_pubkey(0x41),
        payment_point: make_test_pubkey(0x42),
        delayed_payment_basepoint: make_test_pubkey(0x43),
        htlc_basepoint: make_test_pubkey(0x44),
    };
    ChannelSetup {
        network: Network::Testnet,
        is_outbound: true,
        channel_value_sat: 100_000,
        funding_outpoint: OutPoint { txid: [1; 32], vout: 0 },
        holder_funding_pubkey: make_test_pubkey(0x45),
        holder_selected_contest_delay: 6,
        counterparty_selected_contest_delay: 7,
        counterparty_points: points,
        holder_shutdown_script: None,
        counterparty_shutdown_script: None,
        commitment_type: CommitmentType::StaticRemoteKey,
    }
}

fn make_test_chain_state() -> ChainState {
    ChainState {
        current_height: 1000,
        funding_depth: 6,
        funding_double_spent_depth: 0,
        closing_depth: 0,
    }
}

fn make_test_delayed_sweep_tx(
    txid: [u8; 32],
    vout: u32,
    contest_delay: u16,
    script_pubkey: Vec<u8>,
    amount_sat: u64,
) -> Transaction {
    Transaction {
        version: 2,
        lock_time: 0,
        input: vec![TxIn {
            previous_output: OutPoint { txid, vout },
            script_sig: vec![],
            sequence: contest_delay as u32,
        }],
        output: vec![TxOut { script_pubkey, value: amount_sat }],
    }
}

/// Builds a valid delayed sweep to the given destination and applies the
/// mutator before validation, mirroring the signer's sweep entry point.
fn sign_delayed_sweep_with_mutators<MakeDestination, InputMutator>(
    make_dest: MakeDestination,
    mutate_signing_input: InputMutator,
) -> Result<(), ValidationError>
where
    MakeDestination: Fn(&Wallet) -> (Vec<u8>, Vec<u32>),
    InputMutator: Fn(&mut Wallet, &mut Transaction, &mut usize, &mut u64),
{
    let mut wallet = make_test_wallet();
    let setup = make_test_channel_setup();
    let cstate = make_test_chain_state();
    let validator = SimpleValidator::new(make_simple_policy(Network::Testnet));

    let mut input: usize = 0;
    let mut amount_sat: u64 = 1_979_997;
    let (script_pubkey, wallet_path) = make_dest(&wallet);
    let fee = 1_000;
    let mut tx = make_test_delayed_sweep_tx(
        [0x77; 32],
        4,
        setup.counterparty_selected_contest_delay,
        script_pubkey,
        amount_sat - fee,
    );

    mutate_signing_input(&mut wallet, &mut tx, &mut input, &mut amount_sat);

    validator.validate_delayed_sweep(
        &wallet,
        &setup,
        &cstate,
        &tx,
        input,
        amount_sat,
        &wallet_path,
    )
}

fn make_test_wallet_dest_p2wpkh(wallet: &Wallet, index: u32) -> (Vec<u8>, Vec<u32>) {
    (wallet.p2wpkh_script_for_path(&vec![index]).expect("derivable"), vec![index])
}

fn make_test_wallet_dest_p2shwpkh(wallet: &Wallet, index: u32) -> (Vec<u8>, Vec<u32>) {
    (wallet.p2shwpkh_script_for_path(&vec![index]).expect("derivable"), vec![index])
}

fn assert_failed_precondition_err(r: Result<(), ValidationError>, expected: &str) {
    let e = r.expect_err("expected a failure");
    assert_eq!(e.description(), expected.to_string());
}

#[test]
fn sign_delayed_to_local_wallet_p2wpkh_success() {
    assert!(sign_delayed_sweep_with_mutators(
        |wallet| make_test_wallet_dest_p2wpkh(wallet, 19),
        |_wallet, _tx, _input, _amount_sat| {},
    )
    .is_ok());
}

#[test]
fn sign_delayed_to_local_wallet_p2shwpkh_success() {
    assert!(sign_delayed_sweep_with_mutators(
        |wallet| make_test_wallet_dest_p2shwpkh(wallet, 19),
        |_wallet, _tx, _input, _amount_sat| {},
    )
    .is_ok());
}

#[test]
fn sign_delayed_to_local_allowlist_p2wpkh_success() {
    assert!(sign_delayed_sweep_with_mutators(
        |_wallet| {
            let script = parse_address(
                "tb1qg975h6gdx5mryeac72h6lj2nzygugxhyk6dnhr",
                Network::Testnet,
            )
            .expect("valid address");
            (script, vec![])
        },
        |wallet, _tx, _input, _amount_sat| {
            wallet
                .allowlist
                .add(&vec!["tb1qg975h6gdx5mryeac72h6lj2nzygugxhyk6dnhr".to_string()])
                .expect("add_allowlist");
        },
    )
    .is_ok());
}

#[test]
fn sign_delayed_to_local_allowlist_p2shwpkh_success() {
    assert!(sign_delayed_sweep_with_mutators(
        |_wallet| {
            let script = parse_address("2MspRgcQvaVN2RkpumN1X8GkzsE7BVTTb6y", Network::Testnet)
                .expect("valid address");
            (script, vec![])
        },
        |wallet, _tx, _input, _amount_sat| {
            wallet
                .allowlist
                .add(&vec!["2MspRgcQvaVN2RkpumN1X8GkzsE7BVTTb6y".to_string()])
                .expect("add_allowlist");
        },
    )
    .is_ok());
}

#[test]
fn sign_delayed_to_local_with_unknown_dest() {
    assert_failed_precondition_err(
        sign_delayed_sweep_with_mutators(
            |_wallet| {
                let script =
                    parse_address("2MspRgcQvaVN2RkpumN1X8GkzsE7BVTTb6y", Network::Testnet)
                        .expect("valid address");
                (script, vec![])
            },
            |_wallet, _tx, _input, _amount_sat| {},
        ),
        "policy failure: validate_delayed_sweep: destination is not in wallet or allowlist",
    );
}

#[test]
fn sign_delayed_sweep_with_wrong_wallet_path() {
    assert_failed_precondition_err(
        sign_delayed_sweep_with_mutators(
            |wallet| {
                // Build the dest from index 19, but report index 21.
                (make_test_wallet_dest_p2wpkh(wallet, 19).0, vec![21])
            },
            |_wallet, _tx, _input, _amount_sat| {},
        ),
        "policy failure: validate_delayed_sweep: destination is not in wallet or allowlist",
    );
}

#[test]
fn sign_delayed_sweep_with_bad_num_inputs() {
    assert_failed_precondition_err(
        sign_delayed_sweep_with_mutators(
            |wallet| make_test_wallet_dest_p2wpkh(wallet, 19),
            |_wallet, tx, _input, _amount_sat| {
                tx.input.push(tx.input[0].clone());
            },
        ),
        "transaction format: validate_delayed_sweep: bad number of delayed sweep inputs: 2 != 1",
    );
}

#[test]
fn sign_delayed_sweep_with_bad_num_outputs() {
    assert_failed_precondition_err(
        sign_delayed_sweep_with_mutators(
            |wallet| make_test_wallet_dest_p2wpkh(wallet, 19),
            |_wallet, tx, _input, _amount_sat| {
                tx.output.push(tx.output[0].clone());
            },
        ),
        "transaction format: validate_delayed_sweep: bad number of delayed sweep outputs: 2 != 1",
    );
}

#[test]
fn sign_delayed_sweep_with_bad_input_index() {
    assert_failed_precondition_err(
        sign_delayed_sweep_with_mutators(
            |wallet| make_test_wallet_dest_p2wpkh(wallet, 19),
            |_wallet, _tx, input, _amount_sat| {
                *input = 1;
            },
        ),
        "transaction format: validate_delayed_sweep: bad input index: 1 != 0",
    );
}

#[test]
fn sign_delayed_sweep_with_bad_version() {
    assert_failed_precondition_err(
        sign_delayed_sweep_with_mutators(
            |wallet| make_test_wallet_dest_p2wpkh(wallet, 19),
            |_wallet, tx, _input, _amount_sat| {
                tx.version = 3;
            },
        ),
        "transaction format: validate_delayed_sweep: bad delayed sweep version: 3",
    );
}

#[test]
fn sign_delayed_sweep_with_bad_locktime() {
    assert_failed_precondition_err(
        sign_delayed_sweep_with_mutators(
            |wallet| make_test_wallet_dest_p2wpkh(wallet, 19),
            |_wallet, tx, _input, _amount_sat| {
                tx.lock_time = 1_000_000;
            },
        ),
        "transaction format: validate_delayed_sweep: bad delayed sweep locktime: 1000000 > 0",
    );
}

#[test]
fn sign_delayed_sweep_with_bad_sequence() {
    assert_failed_precondition_err(
        sign_delayed_sweep_with_mutators(
            |wallet| make_test_wallet_dest_p2wpkh(wallet, 19),
            |_wallet, tx, _input, _amount_sat| {
                tx.input[0].sequence = 42;
            },
        ),
        "transaction format: validate_delayed_sweep: bad delayed sweep sequence: 42 != 7",
    );
}

#[test]
fn sign_delayed_sweep_with_fee_underflow() {
    assert_failed_precondition_err(
        sign_delayed_sweep_with_mutators(
            |wallet| make_test_wallet_dest_p2wpkh(wallet, 19),
            |_wallet, _tx, _input, amount_sat| {
                *amount_sat -= 100_000;
            },
        ),
        "policy failure: delayed sweep fee underflow: 1879997 - 1978997",
    );
}

#[test]
fn sign_delayed_sweep_with_fee_too_small() {
    assert_failed_precondition_err(
        sign_delayed_sweep_with_mutators(
            |wallet| make_test_wallet_dest_p2wpkh(wallet, 19),
            |_wallet, tx, _input, amount_sat| {
                *amount_sat = tx.output[0].value;  // fee = 0
            },
        ),
        "policy failure: validate_fee: validate_delayed_sweep: fee below minimum: 0 < 100",
    );
}

#[test]
fn sign_delayed_sweep_with_fee_too_large() {
    assert_failed_precondition_err(
        sign_delayed_sweep_with_mutators(
            |wallet| make_test_wallet_dest_p2wpkh(wallet, 19),
            |_wallet, tx, _input, _amount_sat| {
                tx.output[0].value = 1_000;
            },
        ),
        "policy failure: validate_fee: validate_delayed_sweep: fee above maximum: 1978997 > 46000",
    );
}

fn make_commit_info(broadcaster_cp: bool) -> CommitmentInfo2 {
    let k = make_test_pubkey(0x33);
    CommitmentInfo2 {
        is_counterparty_broadcaster: broadcaster_cp,
        to_broadcaster_value_sat: 0,
        to_countersigner_value_sat: 0,
        feerate_per_kw: 1000,
        offered_htlcs: vec![],
        received_htlcs: vec![],
        revocation_key: k,
        delayed_payment_key: k,
        htlc_key: k,
        countersigner_payment_key: k,
    }
}

#[test]
fn mutual_close_floor_enforced() {
    let wallet = make_test_wallet();
    let mut setup = make_test_channel_setup();
    setup.channel_value_sat = 210_000;
    let mut policy = make_simple_policy(Network::Testnet);
    policy.epsilon_sat = 10;
    let validator = SimpleValidator::new(policy);

    let mut state = EnforcementState::new(0);
    let mut hinfo = make_commit_info(false);
    hinfo.to_broadcaster_value_sat = 100_000;
    let mut cinfo = make_commit_info(true);
    cinfo.to_countersigner_value_sat = 100_005;
    state.current_holder_commit_info = Some(hinfo);
    state.current_counterparty_commit_info = Some(cinfo);

    assert_eq!(state.minimum_to_holder_value(10), Some(100_000));

    // below the floor: refused
    let r = validator.validate_mutual_close_tx(
        &wallet,
        &setup,
        &state,
        99_999,
        109_000,
        &None,
        &None,
        &vec![],
    );
    let e = r.unwrap_err();
    assert_eq!(e.kind, ValidationErrorKind::Policy);
    assert_eq!(
        e.message,
        "validate_mutual_close_tx: to_holder value 99999 below minimum 100000"
    );

    // at the floor: accepted, and the channel records the close
    let r2 = validator.validate_mutual_close_tx(
        &wallet,
        &setup,
        &state,
        100_000,
        109_000,
        &None,
        &None,
        &vec![],
    );
    assert!(r2.is_ok());
    state.mutual_close_signed = true;
    assert!(state.mutual_close_signed);
}

#[test]
fn balance_conservation_on_counterparty_commitment() {
    let setup = make_test_channel_setup();
    let cstate = make_test_chain_state();
    let mut policy = make_simple_policy(Network::Testnet);
    policy.enforce_balance = true;
    let validator = SimpleValidator::new(policy);

    let mut state = EnforcementState::new(0);
    let mut current = make_commit_info(true);
    current.to_broadcaster_value_sat = 49_000;
    current.to_countersigner_value_sat = 50_000;
    state.current_counterparty_commit_info = Some(current);
    state.current_counterparty_point = Some(make_test_pubkey(0x12));
    state.next_counterparty_commit_num = 1;

    let point2 = make_test_pubkey(0x16);
    let no_preimages = ListPreimageMap { hashes: vec![] };

    // our balance drops by 10_000 with no matching HTLC: refused
    let mut bad = make_commit_info(true);
    bad.to_broadcaster_value_sat = 59_000;
    bad.to_countersigner_value_sat = 40_000;
    let r = validator.validate_counterparty_commitment_tx(
        &state,
        2,
        &point2,
        &setup,
        &cstate,
        &bad,
        &no_preimages,
    );
    let e = r.unwrap_err();
    assert_eq!(
        e.message,
        "validate_counterparty_commitment_tx: holder balance decrease is not accounted for by outgoing payments"
    );

    // the same drop carried by an outgoing HTLC: accepted
    let mut good = make_commit_info(true);
    good.to_broadcaster_value_sat = 49_000;
    good.to_countersigner_value_sat = 40_000;
    good.received_htlcs = vec![HTLCInfo2 {
        value_sat: 10_000,
        payment_hash: PaymentHash([9; 32]),
        cltv_expiry: 2_000,
    }];
    let r2 = validator.validate_counterparty_commitment_tx(
        &state,
        2,
        &point2,
        &setup,
        &cstate,
        &good,
        &no_preimages,
    );
    assert!(r2.is_ok(), "{:?}", r2);

    // knowing the preimage of that hash must not hurt
    let with_preimage = ListPreimageMap { hashes: vec![PaymentHash([9; 32])] };
    let r3 = validator.validate_counterparty_commitment_tx(
        &state,
        2,
        &point2,
        &setup,
        &cstate,
        &good,
        &with_preimage,
    );
    assert!(r3.is_ok(), "{:?}", r3);
}

#[test]
fn commitment_progression_and_mutual_close_gate() {
    let setup = make_test_channel_setup();
    let cstate = make_test_chain_state();
    let validator = SimpleValidator::new(make_simple_policy(Network::Testnet));
    let no_preimages = ListPreimageMap { hashes: vec![] };

    let mut state = EnforcementState::new(0);
    let point = make_test_pubkey(0x12);
    let mut info = make_commit_info(true);
    info.to_broadcaster_value_sat = 49_000;
    info.to_countersigner_value_sat = 50_000;

    // skipping ahead is an invalid progression
    let e = validator
        .validate_counterparty_commitment_tx(
            &state, 2, &point, &setup, &cstate, &info, &no_preimages,
        )
        .unwrap_err();
    assert_eq!(e.message, "set_next_counterparty_commit_num: invalid progression: 0 to 2");

    // the first commitment is fine
    assert!(validator
        .validate_counterparty_commitment_tx(
            &state, 1, &point, &setup, &cstate, &info, &no_preimages,
        )
        .is_ok());

    // a closed channel signs no further commitments
    state.mutual_close_signed = true;
    let e2 = validator
        .validate_counterparty_commitment_tx(
            &state, 1, &point, &setup, &cstate, &info, &no_preimages,
        )
        .unwrap_err();
    assert_eq!(e2.message, "validate_counterparty_commitment_tx: channel is closing");
}

#[test]
fn holder_commitment_cltv_bounds() {
    let setup = make_test_channel_setup();
    let cstate = make_test_chain_state();
    let validator = SimpleValidator::new(make_simple_policy(Network::Testnet));
    let no_preimages = ListPreimageMap { hashes: vec![] };
    let state = EnforcementState::new(0);
    let point = make_test_pubkey(0x12);

    // an offered HTLC expiring at the current height is too soon
    let mut info = make_commit_info(false);
    info.to_broadcaster_value_sat = 49_000;
    info.to_countersigner_value_sat = 40_000;
    info.offered_htlcs = vec![HTLCInfo2 {
        value_sat: 10_000,
        payment_hash: PaymentHash([9; 32]),
        cltv_expiry: 1_000,
    }];
    let e = validator
        .validate_holder_commitment_tx(&state, 0, &point, &setup, &cstate, &info, &no_preimages)
        .unwrap_err();
    assert_eq!(e.message, "validate_holder_commitment_tx: offered htlc cltv too soon");

    // a received HTLC expiring beyond the window is out of range
    let mut info2 = make_commit_info(false);
    info2.to_broadcaster_value_sat = 49_000;
    info2.to_countersigner_value_sat = 40_000;
    info2.received_htlcs = vec![HTLCInfo2 {
        value_sat: 10_000,
        payment_hash: PaymentHash([9; 32]),
        cltv_expiry: 1_000_000,
    }];
    let e2 = validator
        .validate_holder_commitment_tx(&state, 0, &point, &setup, &cstate, &info2, &no_preimages)
        .unwrap_err();
    assert_eq!(e2.message, "validate_holder_commitment_tx: received htlc cltv out of range");

    // a commitment paying an absurdly low fee is refused
    let mut info3 = make_commit_info(false);
    info3.to_broadcaster_value_sat = 50_000;
    info3.to_countersigner_value_sat = 50_000;
    let e3 = validator
        .validate_holder_commitment_tx(&state, 0, &point, &setup, &cstate, &info3, &no_preimages)
        .unwrap_err();
    assert_eq!(e3.message, "validate_fee: validate_holder_commitment_tx: fee below minimum: 0 < 100");
}

#[test]
fn counterparty_revocation_checks_secret() {
    let validator = SimpleValidator::new(make_simple_policy(Network::Testnet));
    let mut state = EnforcementState::new(0);
    let secret1 = [0x12u8; 32];
    let point1 = make_test_pubkey(0x12);
    let secret2 = [0x16u8; 32];
    let point2 = make_test_pubkey(0x16);
    let info = make_commit_info(true);
    state.set_next_counterparty_commit_num(1, point1, info.clone()).unwrap();
    state.set_next_counterparty_commit_num(2, point2, info.clone()).unwrap();

    // revoking commitment 0 demands the secret behind its point
    let e = validator.validate_counterparty_revocation(&state, 0, &secret2).unwrap_err();
    assert_eq!(
        e.message,
        "validate_counterparty_revocation: revocation secret does not match the commitment point"
    );
    assert!(validator.validate_counterparty_revocation(&state, 0, &secret1).is_ok());
    // the secret for the just-signed commitment works one step ahead
    assert!(validator.validate_counterparty_revocation(&state, 1, &secret2).is_ok());

    // jumping two revocations ahead is an invalid progression
    let e2 = validator.validate_counterparty_revocation(&state, 2, &secret2).unwrap_err();
    assert_eq!(e2.message, "validate_counterparty_revocation: invalid progression: 0 to 2");
}

#[test]
fn payment_balance_rules() {
    let mut policy = make_simple_policy(Network::Testnet);
    policy.routing_fee_max_msat = 1_000;
    let validator = SimpleValidator::new(policy);

    // routing: incoming must cover outgoing
    assert!(validator.validate_payment_balance(10, 10, None).is_ok());
    assert!(validator.validate_payment_balance(11, 10, None).is_ok());
    let e = validator.validate_payment_balance(9, 10, None).unwrap_err();
    assert_eq!(e.message, "validate_payment_balance: incoming 9 less than outgoing 10");

    // origination: the net must cover the invoice but no more than the fee cap
    assert!(validator.validate_payment_balance(5_000, 0, Some(4_500)).is_ok());
    let e2 = validator.validate_payment_balance(4_000, 0, Some(4_500)).unwrap_err();
    assert_eq!(e2.message, "validate_payment_balance: net 4000 below invoiced amount 4500");
    let e3 = validator.validate_payment_balance(6_000, 0, Some(4_500)).unwrap_err();
    assert_eq!(e3.message, "validate_payment_balance: routing fee 1500 above maximum 1000");
}

#[test]
fn ready_channel_rules() {
    let wallet = make_test_wallet();
    let validator = SimpleValidator::new(make_simple_policy(Network::Testnet));

    let mut setup = make_test_channel_setup();
    assert!(validator.validate_ready_channel(&wallet, &setup, &vec![]).is_ok());

    setup.counterparty_selected_contest_delay = 2;
    let e = validator.validate_ready_channel(&wallet, &setup, &vec![]).unwrap_err();
    assert_eq!(
        e.message,
        "validate_ready_channel: counterparty selected contest delay too small: 2 < 4"
    );

    let mut setup2 = make_test_channel_setup();
    setup2.channel_value_sat = 2_000_000_000;
    let e2 = validator.validate_ready_channel(&wallet, &setup2, &vec![]).unwrap_err();
    assert_eq!(
        e2.message,
        "validate_ready_channel: channel value too large: 2000000000 > 1000000000"
    );
    assert!(validator.validate_channel_value(&setup2).is_err());

    // a negotiated shutdown script must be ours or allowlisted
    let mut setup3 = make_test_channel_setup();
    setup3.holder_shutdown_script =
        Some(parse_address("tb1qg975h6gdx5mryeac72h6lj2nzygugxhyk6dnhr", Network::Testnet).unwrap());
    let e3 = validator.validate_ready_channel(&wallet, &setup3, &vec![]).unwrap_err();
    assert_eq!(
        e3.message,
        "validate_ready_channel: holder shutdown script is not in wallet or allowlist"
    );
    setup3.holder_shutdown_script = wallet.p2wpkh_script_for_path(&vec![3]);
    assert!(validator.validate_ready_channel(&wallet, &setup3, &vec![3]).is_ok());

    // with no shutdown script, the key path must be empty
    let setup4 = make_test_channel_setup();
    let e4 = validator.validate_ready_channel(&wallet, &setup4, &vec![3]).unwrap_err();
    assert_eq!(e4.message, "validate_ready_channel: unexpected holder shutdown key path");
}

#[test]
fn onchain_tx_rules() {
    let wallet = make_test_wallet();
    let validator = SimpleValidator::new(make_simple_policy(Network::Testnet));
    let setup = make_test_channel_setup();
    let funding = lightning_signer_core::channel::funding_script(&setup);

    // one funding output plus wallet change, fee in range: accepted
    let change = wallet.p2wpkh_script_for_path(&vec![2]).unwrap();
    let tx = Transaction {
        version: 2,
        lock_time: 0,
        input: vec![],
        output: vec![
            TxOut { value: 100_000, script_pubkey: funding.clone() },
            TxOut { value: 49_000, script_pubkey: change.clone() },
        ],
    };
    let channels = vec![Some(setup.clone()), None];
    let opaths = vec![vec![], vec![2]];
    assert!(validator
        .validate_onchain_tx(&wallet, &channels, &tx, &vec![150_000], &opaths)
        .is_ok());

    // an output nobody vouches for is refused
    let stranger = parse_address("2MspRgcQvaVN2RkpumN1X8GkzsE7BVTTb6y", Network::Testnet).unwrap();
    let mut tx2 = tx.clone();
    tx2.output[1].script_pubkey = stranger;
    let e = validator
        .validate_onchain_tx(&wallet, &channels, &tx2, &vec![150_000], &opaths)
        .unwrap_err();
    assert_eq!(
        e.message,
        "validate_onchain_tx: output is not to a channel, the wallet or the allowlist"
    );

    // two channels sharing a funding outpoint are refused
    let channels_dup = vec![Some(setup.clone()), Some(setup.clone())];
    let tx3 = Transaction {
        version: 2,
        lock_time: 0,
        input: vec![],
        output: vec![
            TxOut { value: 100_000, script_pubkey: funding.clone() },
            TxOut { value: 49_000, script_pubkey: funding.clone() },
        ],
    };
    let e2 = validator
        .validate_onchain_tx(&wallet, &channels_dup, &tx3, &vec![150_000], &vec![vec![], vec![]])
        .unwrap_err();
    assert_eq!(e2.message, "validate_onchain_tx: duplicate funding outpoint");

    // an excessive fee is refused
    let tx4 = Transaction {
        version: 2,
        lock_time: 0,
        input: vec![],
        output: vec![TxOut { value: 100_000, script_pubkey: funding.clone() }],
    };
    let e3 = validator
        .validate_onchain_tx(&wallet, &vec![Some(setup.clone())], &tx4, &vec![200_000], &vec![
            vec![],
        ])
        .unwrap_err();
    assert_eq!(
        e3.message,
        "validate_fee: validate_onchain_tx: fee above maximum: 100000 > 46000"
    );
}

#[test]
fn counterparty_htlc_sweep_and_justice_sweep_rules() {
    let wallet = make_test_wallet();
    let setup = make_test_channel_setup();
    let cstate = make_test_chain_state();
    let validator = SimpleValidator::new(make_simple_policy(Network::Testnet));
    let dest = wallet.p2wpkh_script_for_path(&vec![19]).unwrap();
    // sequence is free for these sweeps, so zero is accepted
    let mut tx = make_test_delayed_sweep_tx([0x77; 32], 0, 7, dest.clone(), 1_000_000);
    tx.input[0].sequence = 0;
    let redeemscript = vec![0x51u8];
    assert!(validator
        .validate_counterparty_htlc_sweep(
            &wallet,
            &setup,
            &cstate,
            &tx,
            &redeemscript,
            0,
            1_001_000,
            &vec![19],
        )
        .is_ok());
    assert!(validator
        .validate_justice_sweep(&wallet, &setup, &cstate, &tx, 0, 1_001_000, &vec![19])
        .is_ok());

    let mut bad = tx.clone();
    bad.version = 1;
    let e = validator
        .validate_counterparty_htlc_sweep(
            &wallet,
            &setup,
            &cstate,
            &bad,
            &redeemscript,
            0,
            1_001_000,
            &vec![19],
        )
        .unwrap_err();
    assert_eq!(
        e.description(),
        "transaction format: validate_counterparty_htlc_sweep: bad counterparty htlc sweep version: 1"
    );
    let e2 = validator
        .validate_justice_sweep(&wallet, &setup, &cstate, &bad, 0, 1_001_000, &vec![19])
        .unwrap_err();
    assert_eq!(
        e2.description(),
        "transaction format: validate_justice_sweep: bad justice sweep version: 1"
    );
}

#[test]
fn mutual_close_destination_rules() {
    let mut wallet = make_test_wallet();
    let mut setup = make_test_channel_setup();
    setup.channel_value_sat = 210_000;
    let mut policy = make_simple_policy(Network::Testnet);
    policy.epsilon_sat = 10;
    let validator = SimpleValidator::new(policy);

    let mut state = EnforcementState::new(0);
    let mut hinfo = make_commit_info(false);
    hinfo.to_broadcaster_value_sat = 100_000;
    let mut cinfo = make_commit_info(true);
    cinfo.to_countersigner_value_sat = 100_000;
    state.current_holder_commit_info = Some(hinfo);
    state.current_counterparty_commit_info = Some(cinfo);

    let stranger = parse_address("2MspRgcQvaVN2RkpumN1X8GkzsE7BVTTb6y", Network::Testnet).unwrap();
    let e = validator
        .validate_mutual_close_tx(
            &wallet,
            &setup,
            &state,
            100_000,
            109_000,
            &Some(stranger.clone()),
            &None,
            &vec![],
        )
        .unwrap_err();
    assert_eq!(
        e.message,
        "validate_mutual_close_tx: holder output is not to wallet, allowlist or the negotiated script"
    );

    // a wallet-derived holder output is accepted with its path hint
    let ours = wallet.p2wpkh_script_for_path(&vec![5]).unwrap();
    assert!(validator
        .validate_mutual_close_tx(
            &wallet,
            &setup,
            &state,
            100_000,
            109_000,
            &Some(ours),
            &None,
            &vec![5],
        )
        .is_ok());

    // an allowlisted counterparty output is accepted
    wallet
        .allowlist
        .add(&vec!["2MspRgcQvaVN2RkpumN1X8GkzsE7BVTTb6y".to_string()])
        .unwrap();
    assert!(validator
        .validate_mutual_close_tx(
            &wallet,
            &setup,
            &state,
            100_000,
            109_000,
            &None,
            &Some(stranger),
            &vec![],
        )
        .is_ok());

    // with no commitments there is no safe floor
    let empty = EnforcementState::new(0);
    let e2 = validator
        .validate_mutual_close_tx(&wallet, &setup, &empty, 100_000, 109_000, &None, &None, &vec![])
        .unwrap_err();
    assert_eq!(e2.message, "validate_mutual_close_tx: cannot determine a safe to_holder minimum");
}

#[test]
fn mutual_close_decoding_splits_outputs() {
    let wallet = make_test_wallet();
    let mut setup = make_test_channel_setup();
    setup.channel_value_sat = 210_000;
    let mut policy = make_simple_policy(Network::Testnet);
    policy.epsilon_sat = 10;
    let validator = SimpleValidator::new(policy);

    let mut state = EnforcementState::new(0);
    let mut hinfo = make_commit_info(false);
    hinfo.to_broadcaster_value_sat = 100_000;
    let mut cinfo = make_commit_info(true);
    cinfo.to_countersigner_value_sat = 100_000;
    state.current_holder_commit_info = Some(hinfo);
    state.current_counterparty_commit_info = Some(cinfo);

    let ours = wallet.p2wpkh_script_for_path(&vec![5]).unwrap();
    let theirs = parse_address("2MspRgcQvaVN2RkpumN1X8GkzsE7BVTTb6y", Network::Testnet).unwrap();
    let mut setup2 = setup.clone();
    setup2.counterparty_shutdown_script = Some(theirs.clone());

    let tx = Transaction {
        version: 2,
        lock_time: 0,
        input: vec![],
        output: vec![
            TxOut { value: 109_000, script_pubkey: theirs.clone() },
            TxOut { value: 100_000, script_pubkey: ours.clone() },
        ],
    };
    let opaths = vec![vec![], vec![5]];
    let split = validator
        .decode_and_validate_mutual_close_tx(&wallet, &setup2, &state, &tx, &opaths)
        .unwrap();
    assert_eq!(split, (100_000, 109_000));

    // too many outputs
    let mut tx3 = tx.clone();
    tx3.output.push(TxOut { value: 1, script_pubkey: ours.clone() });
    let e = validator
        .decode_and_validate_mutual_close_tx(
            &wallet,
            &setup2,
            &state,
            &tx3,
            &vec![vec![], vec![5], vec![]],
        )
        .unwrap_err();
    assert_eq!(
        e.description(),
        "transaction format: decode_and_validate_mutual_close_tx: bad number of mutual close outputs: 3"
    );

    // two outputs that both look like the counterparty's cannot be split
    let tx4 = Transaction {
        version: 2,
        lock_time: 0,
        input: vec![],
        output: vec![
            TxOut { value: 109_000, script_pubkey: theirs.clone() },
            TxOut { value: 100_000, script_pubkey: theirs.clone() },
        ],
    };
    let e2 = validator
        .decode_and_validate_mutual_close_tx(&wallet, &setup2, &state, &tx4, &vec![vec![], vec![]])
        .unwrap_err();
    assert_eq!(
        e2.message,
        "decode_and_validate_mutual_close_tx: cannot split the outputs between the parties"
    );

    // a single all-to-counterparty output fails the holder floor
    let tx5 = Transaction {
        version: 2,
        lock_time: 0,
        input: vec![],
        output: vec![TxOut { value: 209_000, script_pubkey: theirs.clone() }],
    };
    let e3 = validator
        .decode_and_validate_mutual_close_tx(&wallet, &setup2, &state, &tx5, &vec![vec![]])
        .unwrap_err();
    assert_eq!(
        e3.message,
        "validate_mutual_close_tx: to_holder value 0 below minimum 100000"
    );
}
