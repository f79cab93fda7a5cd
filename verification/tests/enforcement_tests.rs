//! Tests for the per-channel enforcement state machine.

use lightning_signer_core::error::{ValidationError, ValidationErrorKind};
use lightning_signer_core::model::PubKey;
use lightning_signer_core::summary::{summarize_payments, PaymentSummary};
use lightning_signer_core::tx::{CommitmentInfo2, HTLCInfo2, ListPreimageMap, PaymentHash};
use lightning_signer_core::validator::EnforcementState;
use lightning_signer_core::min_opt;
use lightning_signer_core::channel::{ChannelPublicKeys, ChannelSetup, CommitmentType, Network};
use lightning_signer_core::tx::OutPoint;

fn make_test_pubkey(x: u8) -> PubKey {
    let sk = secp256k1::SecretKey::from_secret_bytes([x; 32]).expect("secret");
    PubKey(secp256k1::PublicKey::from_secret_key(&sk).serialize())
}

fn make_test_commitment_info() -> CommitmentInfo2 {
    let k = make_test_pubkey(0x33);
    CommitmentInfo2 {
        is_counterparty_broadcaster: true,
        to_broadcaster_value_sat: 0,
        to_countersigner_value_sat: 0,
        feerate_per_kw: 0,
        offered_htlcs: vec![],
        received_htlcs: vec![],
        revocation_key: k,
        delayed_payment_key: k,
        htlc_key: k,
        countersigner_payment_key: k,
    }
}

fn assert_policy_err(r: Result<(), ValidationError>, msg: &str) {
    let e = r.expect_err("expected a policy failure");
    assert_eq!(e.kind, ValidationErrorKind::Policy);
    assert_eq!(e.message, msg.to_string());
}

fn assert_point_err(r: Result<PubKey, ValidationError>, msg: &str) {
    let e = r.expect_err("expected a policy failure");
    assert_eq!(e.kind, ValidationErrorKind::Policy);
    assert_eq!(e.message, msg.to_string());
}

#[test]
fn enforcement_state_previous_counterparty_point_test() {
    let mut state = EnforcementState::new(0);

    let point0 = make_test_pubkey(0x12);
    let commit_info = make_test_commitment_info();

    // you can never set next to 0
    assert_policy_err(
        state.set_next_counterparty_commit_num(0, point0.clone(), commit_info.clone()),
        "set_next_counterparty_commit_num: can't set next to 0",
    );

    // point for 0 is not set yet
    assert_point_err(
        state.get_previous_counterparty_point(0),
        "get_previous_counterparty_point: 0 out of range, next is 0",
    );

    // can't look forward either
    assert_point_err(
        state.get_previous_counterparty_point(1),
        "get_previous_counterparty_point: 1 out of range, next is 0",
    );

    // can't skip forward
    assert_policy_err(
        state.set_next_counterparty_commit_num(2, point0.clone(), commit_info.clone()),
        "set_next_counterparty_commit_num: invalid progression: 0 to 2",
    );

    // set point 0
    assert!(state.set_next_counterparty_commit_num(1, point0.clone(), commit_info.clone()).is_ok());

    // and now you can get it.
    assert_eq!(state.get_previous_counterparty_point(0).unwrap(), point0.clone());

    // you can set it again to the same thing (retry)
    assert!(state.set_next_counterparty_commit_num(1, point0.clone(), commit_info.clone()).is_ok());
    assert_eq!(state.next_counterparty_commit_num, 1);

    // but setting it to something else is an error
    let point1 = make_test_pubkey(0x16);
    assert_policy_err(
        state.set_next_counterparty_commit_num(1, point1.clone(), commit_info.clone()),
        "set_next_counterparty_commit_num: retry 1: point different than prior",
    );
    assert_eq!(state.next_counterparty_commit_num, 1);

    // can't get commit_num 1 yet
    assert_point_err(
        state.get_previous_counterparty_point(1),
        "get_previous_counterparty_point: 1 out of range, next is 1",
    );

    // can't skip forward
    assert_policy_err(
        state.set_next_counterparty_commit_num(3, point1.clone(), commit_info.clone()),
        "set_next_counterparty_commit_num: 3 too large relative to next_counterparty_revoke_num 0",
    );
    assert_eq!(state.next_counterparty_commit_num, 1);

    // set point 1
    assert!(state.set_next_counterparty_commit_num(2, point1.clone(), commit_info.clone()).is_ok());
    assert_eq!(state.next_counterparty_commit_num, 2);

    // you can still get commit_num 0
    assert_eq!(state.get_previous_counterparty_point(0).unwrap(), point0.clone());

    // Now you can get commit_num 1
    assert_eq!(state.get_previous_counterparty_point(1).unwrap(), point1.clone());

    // can't look forward
    assert_point_err(
        state.get_previous_counterparty_point(2),
        "get_previous_counterparty_point: 2 out of range, next is 2",
    );

    // can't skip forward
    assert_policy_err(
        state.set_next_counterparty_commit_num(4, point1.clone(), commit_info.clone()),
        "set_next_counterparty_commit_num: 4 too large relative to next_counterparty_revoke_num 0",
    );
    assert_eq!(state.next_counterparty_commit_num, 2);

    assert!(state.set_next_counterparty_revoke_num(1).is_ok());

    // set point 2
    let point2 = make_test_pubkey(0x20);
    assert!(state.set_next_counterparty_commit_num(3, point2.clone(), commit_info.clone()).is_ok());
    assert_eq!(state.next_counterparty_commit_num, 3);

    // You can't get commit_num 0 anymore
    assert_point_err(
        state.get_previous_counterparty_point(0),
        "get_previous_counterparty_point: 0 out of range, next is 3",
    );

    // you can still get commit_num 1
    assert_eq!(state.get_previous_counterparty_point(1).unwrap(), point1.clone());

    // now you can get commit_num 2
    assert_eq!(state.get_previous_counterparty_point(2).unwrap(), point2.clone());

    // can't look forward
    assert_point_err(
        state.get_previous_counterparty_point(3),
        "get_previous_counterparty_point: 3 out of range, next is 3",
    );
}

#[test]
fn skip_rejected_from_fresh_state() {
    let mut state = EnforcementState::new(0);
    let point = make_test_pubkey(0x12);
    let info = make_test_commitment_info();
    assert_policy_err(
        state.set_next_counterparty_commit_num(2, point, info),
        "set_next_counterparty_commit_num: invalid progression: 0 to 2",
    );
}

#[test]
fn retry_is_observable_noop() {
    let mut state = EnforcementState::new(0);
    let point = make_test_pubkey(0x12);
    let info = make_test_commitment_info();
    state.set_next_counterparty_commit_num(1, point, info.clone()).unwrap();
    let before = state.clone();
    state.set_next_counterparty_commit_num(1, point, info.clone()).unwrap();
    assert_eq!(state, before);
}

#[test]
fn retry_with_different_point_leaves_state_unchanged() {
    let mut state = EnforcementState::new(0);
    let point = make_test_pubkey(0x12);
    let other = make_test_pubkey(0x16);
    let info = make_test_commitment_info();
    state.set_next_counterparty_commit_num(1, point, info.clone()).unwrap();
    let before = state.clone();
    let e = state.set_next_counterparty_commit_num(1, other, info.clone()).unwrap_err();
    assert_eq!(e.kind, ValidationErrorKind::Policy);
    assert_eq!(
        e.message,
        "set_next_counterparty_commit_num: retry 1: point different than prior"
    );
    assert_eq!(state, before);
}

#[test]
fn revocation_clears_previous_summary_keeps_point() {
    let mut state = EnforcementState::new(0);
    let p0 = make_test_pubkey(0x12);
    let p1 = make_test_pubkey(0x16);
    let info = make_test_commitment_info();
    state.set_next_counterparty_commit_num(1, p0, info.clone()).unwrap();
    state.set_next_counterparty_commit_num(2, p1, info.clone()).unwrap();
    assert!(state.previous_counterparty_commit_info.is_some());
    assert!(state.previous_counterparty_point.is_some());
    // n + 1 == next_counterparty_commit_num: the revoked summary goes away
    state.set_next_counterparty_revoke_num(1).unwrap();
    assert!(state.previous_counterparty_commit_info.is_none());
    assert_eq!(state.previous_counterparty_point, Some(p0));
}

#[test]
fn failed_operations_leave_state_identical() {
    let mut state = EnforcementState::new(7777);
    let p0 = make_test_pubkey(0x12);
    let info = make_test_commitment_info();
    state.set_next_counterparty_commit_num(1, p0, info.clone()).unwrap();
    let before = state.clone();
    assert!(state.set_next_counterparty_commit_num(0, p0, info.clone()).is_err());
    assert_eq!(state, before);
    assert!(state.set_next_counterparty_commit_num(5, p0, info.clone()).is_err());
    assert_eq!(state, before);
    assert!(state.set_next_counterparty_revoke_num(0).is_err());
    assert_eq!(state, before);
    assert!(state.set_next_counterparty_revoke_num(3).is_err());
    assert_eq!(state, before);
    assert!(state.set_next_holder_commit_num(9, info.clone()).is_err());
    assert_eq!(state, before);
}

#[test]
fn minimum_to_holder_value_agreement_window() {
    let mut state = EnforcementState::new(0);
    let mut hinfo = make_test_commitment_info();
    hinfo.is_counterparty_broadcaster = false;
    hinfo.to_broadcaster_value_sat = 100_000;
    let mut cinfo = make_test_commitment_info();
    cinfo.to_countersigner_value_sat = 100_005;
    state.current_holder_commit_info = Some(hinfo);
    state.current_counterparty_commit_info = Some(cinfo);
    assert_eq!(state.minimum_to_holder_value(10), Some(100_000));
    assert_eq!(state.minimum_to_holder_value(5), Some(100_000));
    assert_eq!(state.minimum_to_holder_value(4), None);
    // absent commitments give no floor
    let empty = EnforcementState::new(0);
    assert_eq!(empty.minimum_to_holder_value(10), None);
}

#[test]
fn minimum_to_counterparty_value_agreement_window() {
    let mut state = EnforcementState::new(0);
    let mut hinfo = make_test_commitment_info();
    hinfo.to_countersigner_value_sat = 42_000;
    let mut cinfo = make_test_commitment_info();
    cinfo.to_broadcaster_value_sat = 42_007;
    state.current_holder_commit_info = Some(hinfo);
    state.current_counterparty_commit_info = Some(cinfo);
    assert_eq!(state.minimum_to_counterparty_value(7), Some(42_000));
    assert_eq!(state.minimum_to_counterparty_value(6), None);
}

#[test]
fn min_opt_combines_optionals() {
    assert_eq!(min_opt(Some(3), Some(5)), Some(3));
    assert_eq!(min_opt(Some(5), Some(3)), Some(3));
    assert_eq!(min_opt(Some(4), None), Some(4));
    assert_eq!(min_opt(None, Some(9)), Some(9));
    assert_eq!(min_opt(None, None), None);
}

fn hash(x: u8) -> PaymentHash {
    PaymentHash([x; 32])
}

fn htlc(h: u8, v: u64) -> HTLCInfo2 {
    HTLCInfo2 { value_sat: v, payment_hash: hash(h), cltv_expiry: 500 }
}

fn get(s: &PaymentSummary, h: u8) -> Option<u64> {
    s.get(&hash(h))
}

#[test]
fn payments_summary_takes_max_per_hash() {
    let mut state = EnforcementState::new(0);
    let mut hinfo = make_test_commitment_info();
    hinfo.is_counterparty_broadcaster = false;
    hinfo.offered_htlcs = vec![htlc(1, 5), htlc(1, 3), htlc(2, 4)];
    let mut cinfo = make_test_commitment_info();
    cinfo.received_htlcs = vec![htlc(1, 7), htlc(3, 2)];
    state.current_holder_commit_info = Some(hinfo);
    state.current_counterparty_commit_info = Some(cinfo);
    let s = state.payments_summary(None, None);
    assert_eq!(get(&s, 1), Some(8)); // max(5 + 3, 7)
    assert_eq!(get(&s, 2), Some(4));
    assert_eq!(get(&s, 3), Some(2));
    assert_eq!(get(&s, 4), None);
}

#[test]
fn payments_summary_is_order_insensitive() {
    let mut a = EnforcementState::new(0);
    let mut b = EnforcementState::new(0);
    let mut ha = make_test_commitment_info();
    ha.offered_htlcs = vec![htlc(1, 5), htlc(2, 4), htlc(1, 3)];
    let mut hb = make_test_commitment_info();
    hb.offered_htlcs = vec![htlc(1, 3), htlc(1, 5), htlc(2, 4)];
    a.current_holder_commit_info = Some(ha);
    b.current_holder_commit_info = Some(hb);
    let sa = a.payments_summary(None, None);
    let sb = b.payments_summary(None, None);
    for h in 0..5u8 {
        assert_eq!(get(&sa, h), get(&sb, h));
    }
}

#[test]
fn incoming_payments_summary_requires_both_views() {
    let mut state = EnforcementState::new(0);
    let mut hinfo = make_test_commitment_info();
    hinfo.received_htlcs = vec![htlc(1, 5), htlc(4, 6)];
    let mut cinfo = make_test_commitment_info();
    cinfo.offered_htlcs = vec![htlc(1, 9), htlc(2, 1)];
    state.current_holder_commit_info = Some(hinfo);
    state.current_counterparty_commit_info = Some(cinfo);
    let s = state.incoming_payments_summary(None, None);
    assert_eq!(get(&s, 1), Some(5)); // min(5, 9), present in both
    assert_eq!(get(&s, 2), None); // counterparty only
    assert_eq!(get(&s, 4), None); // holder only
}

fn make_test_channel_setup() -> ChannelSetup {
    let points = ChannelPublicKeys {
        funding_pubkey: make_test_pubkey(0x40),
        revocation_basepoint: make_test_pubkey(0x41),
        payment_point: make_test_pubkey(0x42),
        delayed_payment_basepoint: make_test_pubkey(0x43),
        htlc_basepoint: make_test_pubkey(0x44),
    };
    ChannelSetup {
        network: Network::Testnet,
        is_outbound: true,
        channel_value_sat: 100_000,
        funding_outpoint: OutPoint { txid: [1; 32], vout: 0 },
        holder_funding_pubkey: make_test_pubkey(0x45),
        holder_selected_contest_delay: 6,
        counterparty_selected_contest_delay: 7,
        counterparty_points: points,
        holder_shutdown_script: None,
        counterparty_shutdown_script: None,
        commitment_type: CommitmentType::StaticRemoteKey,
    }
}

#[test]
fn claimable_balances_credit_known_preimages() {
    let mut state = EnforcementState::new(1234);
    let setup = make_test_channel_setup();
    let no_preimages = ListPreimageMap { hashes: vec![] };
    // No current commitments: the current balance is the initial value.
    let mut new_cp = make_test_commitment_info();
    new_cp.to_countersigner_value_sat = 40_000;
    new_cp.offered_htlcs = vec![htlc(9, 7_000)];
    let d = state.claimable_balances(&no_preimages, None, Some(&new_cp), &setup);
    assert_eq!(d.0, 1234);
    assert_eq!(d.1, 40_000);
    // With the preimage known, the incoming HTLC counts.
    let with_preimage = ListPreimageMap { hashes: vec![hash(9)] };
    let d2 = state.claimable_balances(&with_preimage, None, Some(&new_cp), &setup);
    assert_eq!(d2.1, 47_000);
    // Once a current commitment exists, the current balance follows it.
    state.current_counterparty_commit_info = Some(new_cp.clone());
    state.current_counterparty_point = Some(make_test_pubkey(0x12));
    state.next_counterparty_commit_num = 1;
    let mut next_cp = new_cp.clone();
    next_cp.to_countersigner_value_sat = 39_000;
    let d3 = state.claimable_balances(&no_preimages, None, Some(&next_cp), &setup);
    assert_eq!(d3.0, 40_000);
    assert_eq!(d3.1, 39_000);
}

#[test]
fn holder_commit_num_progression() {
    let mut state = EnforcementState::new(0);
    let info = make_test_commitment_info();
    // a retry of the current number is accepted, even at birth
    assert!(state.set_next_holder_commit_num(0, info.clone()).is_ok());
    assert!(state.set_next_holder_commit_num(1, info.clone()).is_ok());
    let e = state.set_next_holder_commit_num(3, info.clone()).unwrap_err();
    assert_eq!(e.message, "set_next_holder_commit_num: invalid progression: 1 to 3");
    // the stored summary is handed back for the commitment in sync
    assert!(state.get_current_holder_commitment_info(0).is_ok());
    let e2 = state.get_current_holder_commitment_info(5).unwrap_err();
    assert_eq!(
        e2.message,
        "get_current_holder_commitment_info: invalid next holder commitment number: 6 != 1"
    );
}

#[test]
fn previous_counterparty_commit_info_window() {
    let mut state = EnforcementState::new(0);
    let p0 = make_test_pubkey(0x12);
    let p1 = make_test_pubkey(0x16);
    let mut info0 = make_test_commitment_info();
    info0.to_broadcaster_value_sat = 111;
    let mut info1 = make_test_commitment_info();
    info1.to_broadcaster_value_sat = 222;
    state.set_next_counterparty_commit_num(1, p0, info0.clone()).unwrap();
    state.set_next_counterparty_commit_num(2, p1, info1.clone()).unwrap();
    assert_eq!(
        state.get_previous_counterparty_commit_info(1).unwrap().to_broadcaster_value_sat,
        222
    );
    assert_eq!(
        state.get_previous_counterparty_commit_info(0).unwrap().to_broadcaster_value_sat,
        111
    );
    let e = state.get_previous_counterparty_commit_info(2).unwrap_err();
    assert_eq!(e.message, "get_previous_counterparty_commit_info: 2 out of range, next is 2");
}

#[test]
fn test_hooks_force_counters() {
    let mut state = EnforcementState::new(0);
    state.set_next_holder_commit_num_for_testing(9);
    assert_eq!(state.next_holder_commit_num, 9);
    state.set_next_counterparty_commit_num_for_testing(4, make_test_pubkey(0x12));
    assert_eq!(state.next_counterparty_commit_num, 4);
    state.set_next_counterparty_revoke_num_for_testing(3);
    assert_eq!(state.next_counterparty_revoke_num, 3);
}

#[test]
fn summaries_accept_proposed_commitments() {
    let mut state = EnforcementState::new(0);
    let mut current = make_test_commitment_info();
    current.is_counterparty_broadcaster = false;
    current.offered_htlcs = vec![htlc(1, 5)];
    state.current_holder_commit_info = Some(current);
    // a proposed holder commitment replaces the current one in the summary
    let mut proposed = make_test_commitment_info();
    proposed.is_counterparty_broadcaster = false;
    proposed.offered_htlcs = vec![htlc(2, 6)];
    let s = state.payments_summary(Some(&proposed), None);
    assert_eq!(get(&s, 1), None);
    assert_eq!(get(&s, 2), Some(6));
    // and symmetrically for the incoming view
    let mut hin = make_test_commitment_info();
    hin.received_htlcs = vec![htlc(3, 4)];
    let mut cin = make_test_commitment_info();
    cin.offered_htlcs = vec![htlc(3, 9)];
    let s2 = state.incoming_payments_summary(Some(&hin), Some(&cin));
    assert_eq!(get(&s2, 3), Some(4));
}

#[test]
fn payment_summary_operations() {
    let mut s = PaymentSummary::new();
    assert_eq!(get(&s, 1), None);
    s.bump(hash(1), 5);
    s.bump(hash(1), 3);
    s.raise_to(hash(1), 6);
    s.raise_to(hash(2), 2);
    assert_eq!(get(&s, 1), Some(8));
    assert_eq!(get(&s, 2), Some(2));
    let t = summarize_payments(&vec![htlc(7, 1), htlc(7, 2), htlc(8, 5)]);
    assert_eq!(get(&t, 7), Some(3));
    assert_eq!(get(&t, 8), Some(5));
    let m = s.intersect_min(&t);
    assert_eq!(get(&m, 1), None);
    assert_eq!(get(&m, 7), None);
}

#[test]
fn balance_delta_default_is_zero() {
    let d = lightning_signer_core::validator::BalanceDelta::default();
    assert_eq!(d, lightning_signer_core::validator::BalanceDelta(0, 0));
}
