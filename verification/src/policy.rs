//! The production policy: the named rules applied to each signing request.
//! Every check is side-effect-free; the caller commits state transitions
//! only after a validation succeeds.

use vstd::prelude::*;

use crate::bytes::bytes_equal;
use crate::channel::{ChannelSetup, Network};
use crate::crypto::{pubkey_of, secret_to_pubkey};
use crate::error::{
    build_nn, lemma_u64_dec_len, msg_nn, push_str, push_u64, u64_dec, ValidationError,
    ValidationErrorKind,
};
use crate::model::PubKey;
use crate::tx::{
    sum_htlc_values, sum_htlc_vec, CommitmentInfo2, HTLCInfo2, PreimageMap, Transaction,
};
use crate::validator::{ChainState, CpCommitOutcome, EnforcementState};
use crate::wallet::{spec_can_spend, Wallet};

verus! {

/// Enumerated policy options (amounts in satoshi unless named otherwise).
#[derive(Clone, Copy, Debug, PartialEq, Eq)]
pub struct SimplePolicy {
    /// Minimum accepted `to_self_delay`.
    pub min_delay: u16,
    /// Maximum accepted `to_self_delay`.
    pub max_delay: u16,
    /// Upper bound on channel capacity.
    pub channel_value_max_sat: u64,
    /// Lower bound on channel capacity.
    pub channel_value_min_sat: u64,
    /// Max allowed divergence between the two views of the same balance.
    pub epsilon_sat: u64,
    /// Lower bound for on-chain, commitment and sweep fees.
    pub fee_min_sat: u64,
    /// Upper bound for on-chain, commitment and sweep fees.
    pub fee_max_sat: u64,
    /// Lower bound on an HTLC CLTV delta relative to the current height.
    pub cltv_delta_min: u32,
    /// Upper bound on an HTLC CLTV delta relative to the current height.
    pub cltv_delta_max: u32,
    /// Max fee above the invoiced amount for originated payments.
    pub routing_fee_max_msat: u64,
    /// Gate enabling holder balance conservation enforcement.
    pub enforce_balance: bool,
}

/// A production policy with conservative defaults for the network.
pub fn make_simple_policy(network: Network) -> (r: SimplePolicy)
    ensures
        r.fee_min_sat == 100,
        r.fee_max_sat == 46_000,
        r.min_delay == 4,
        r.max_delay == 1440,
        r.channel_value_max_sat == 1_000_000_000,
        r.channel_value_min_sat == 10_000,
        r.epsilon_sat == 10_000,
        r.cltv_delta_min == 6,
        r.cltv_delta_max == 2016,
        r.routing_fee_max_msat == 10_000,
        !r.enforce_balance,
{
    let _ = network;
    SimplePolicy {
        min_delay: 4,
        max_delay: 1440,
        channel_value_max_sat: 1_000_000_000,
        channel_value_min_sat: 10_000,
        epsilon_sat: 10_000,
        fee_min_sat: 100,
        fee_max_sat: 46_000,
        cltv_delta_min: 6,
        cltv_delta_max: 2016,
        routing_fee_max_msat: 10_000,
        enforce_balance: false,
    }
}

/// The message of a below-minimum fee failure in context `ctx`.
pub open spec fn spec_fee_low(ctx: Seq<char>, fee: u64, lo: u64) -> Seq<char> {
    "validate_fee: "@ + ctx + ": fee below minimum: "@ + u64_dec(fee) + " < "@ + u64_dec(lo)
}

/// The message of an above-maximum fee failure in context `ctx`.
pub open spec fn spec_fee_high(ctx: Seq<char>, fee: u64, hi: u64) -> Seq<char> {
    "validate_fee: "@ + ctx + ": fee above maximum: "@ + u64_dec(fee) + " > "@ + u64_dec(hi)
}

/// Builds the below-minimum fee message.
fn build_fee_low(ctx: &str, fee: u64, lo: u64) -> (s: String)
    ensures
        s@ == spec_fee_low(ctx@, fee, lo),
        s@.len() > 0,
{
    let mut s: String = "validate_fee: ".to_owned();
    push_str(&mut s, ctx);
    push_str(&mut s, ": fee below minimum: ");
    push_u64(&mut s, fee);
    push_str(&mut s, " < ");
    push_u64(&mut s, lo);
    proof {
        lemma_u64_dec_len(fee);
        assert(s@ =~= spec_fee_low(ctx@, fee, lo));
    }
    s
}

/// Builds the above-maximum fee message.
fn build_fee_high(ctx: &str, fee: u64, hi: u64) -> (s: String)
    ensures
        s@ == spec_fee_high(ctx@, fee, hi),
        s@.len() > 0,
{
    let mut s: String = "validate_fee: ".to_owned();
    push_str(&mut s, ctx);
    push_str(&mut s, ": fee above maximum: ");
    push_u64(&mut s, fee);
    push_str(&mut s, " > ");
    push_u64(&mut s, hi);
    proof {
        lemma_u64_dec_len(fee);
        assert(s@ =~= spec_fee_high(ctx@, fee, hi));
    }
    s
}

/// The first rule a proposed sweep breaks, with the exact failure it earns,
/// or nothing when the sweep is acceptable.  `check_sequence` is set for
/// delayed sweeps, whose single input must wait out the contest delay.
pub open spec fn spec_sweep_error(
    policy: SimplePolicy,
    wallet: Wallet,
    setup: ChannelSetup,
    tx: Transaction,
    input: usize,
    amount_sat: u64,
    key_path: Seq<u32>,
    ctx: Seq<char>,
    kind_name: Seq<char>,
    check_sequence: bool,
) -> Option<(ValidationErrorKind, Seq<char>)> {
    if tx.input@.len() != 1 {
        Some(
            (
                ValidationErrorKind::TransactionFormat,
                ctx + ": bad number of "@ + kind_name + " inputs: "@ + u64_dec(
                    tx.input@.len() as u64,
                ) + " != 1"@,
            ),
        )
    } else if tx.output@.len() != 1 {
        Some(
            (
                ValidationErrorKind::TransactionFormat,
                ctx + ": bad number of "@ + kind_name + " outputs: "@ + u64_dec(
                    tx.output@.len() as u64,
                ) + " != 1"@,
            ),
        )
    } else if input != 0 {
        Some(
            (
                ValidationErrorKind::TransactionFormat,
                ctx + ": bad input index: "@ + u64_dec(input as u64) + " != 0"@,
            ),
        )
    } else if tx.version != 2 {
        Some(
            (
                ValidationErrorKind::TransactionFormat,
                ctx + ": bad "@ + kind_name + " version: "@ + u64_dec(tx.version as u64),
            ),
        )
    } else if tx.lock_time > 0 {
        Some(
            (
                ValidationErrorKind::TransactionFormat,
                ctx + ": bad "@ + kind_name + " locktime: "@ + u64_dec(tx.lock_time as u64)
                    + " > 0"@,
            ),
        )
    } else if check_sequence && tx.input@[0].sequence
        != setup.counterparty_selected_contest_delay as u32 {
        Some(
            (
                ValidationErrorKind::TransactionFormat,
                ctx + ": bad "@ + kind_name + " sequence: "@ + u64_dec(
                    tx.input@[0].sequence as u64,
                ) + " != "@ + u64_dec(setup.counterparty_selected_contest_delay as u64),
            ),
        )
    } else if !(spec_can_spend(wallet.node_seed@, key_path, tx.output@[0].script_pubkey@)
        || wallet.allowlist.contains_script(tx.output@[0].script_pubkey@)) {
        Some(
            (
                ValidationErrorKind::Policy,
                ctx + ": destination is not in wallet or allowlist"@,
            ),
        )
    } else if amount_sat < tx.output@[0].value {
        Some(
            (
                ValidationErrorKind::Policy,
                kind_name + " fee underflow: "@ + u64_dec(amount_sat) + " - "@ + u64_dec(
                    tx.output@[0].value,
                ),
            ),
        )
    } else if amount_sat - tx.output@[0].value < policy.fee_min_sat {
        Some(
            (
                ValidationErrorKind::Policy,
                spec_fee_low(ctx, (amount_sat - tx.output@[0].value) as u64, policy.fee_min_sat),
            ),
        )
    } else if amount_sat - tx.output@[0].value > policy.fee_max_sat {
        Some(
            (
                ValidationErrorKind::Policy,
                spec_fee_high(ctx, (amount_sat - tx.output@[0].value) as u64, policy.fee_max_sat),
            ),
        )
    } else {
        None
    }
}

/// The production policy validator.
#[derive(Clone, Debug, PartialEq)]
pub struct SimpleValidator {
    pub policy: SimplePolicy,
}

impl SimpleValidator {
    /// A validator applying the given policy.
    pub fn new(policy: SimplePolicy) -> (r: SimpleValidator)
        ensures
            r.policy == policy,
    {
        SimpleValidator { policy }
    }

    /// Whether the policy tracks and enforces the holder balance.
    pub fn enforce_balance(&self) -> (r: bool)
        ensures
            r == self.policy.enforce_balance,
    {
        self.policy.enforce_balance
    }

    /// The minimum initial commitment balance owed to the holder, in
    /// satoshi, given the holder's funding amount in millisatoshi.
    pub fn minimum_initial_balance(&self, holder_value_msat: u64) -> (r: u64)
        ensures
            r == holder_value_msat / 1000,
    {
        holder_value_msat / 1000
    }

    /// Fee bounds check shared by every fee-carrying validation.
    pub fn validate_fee(&self, ctx: &str, fee: u64) -> (r: Result<(), ValidationError>)
        ensures
            match r {
                Ok(()) => self.policy.fee_min_sat <= fee <= self.policy.fee_max_sat,
                Err(e) => {
                    &&& e.kind == ValidationErrorKind::Policy
                    &&& e.message@.len() > 0
                    &&& (fee < self.policy.fee_min_sat ==> e.message@ == spec_fee_low(
                        ctx@,
                        fee,
                        self.policy.fee_min_sat,
                    ))
                    &&& (fee >= self.policy.fee_min_sat && fee > self.policy.fee_max_sat
                        ==> e.message@ == spec_fee_high(ctx@, fee, self.policy.fee_max_sat))
                    &&& (fee < self.policy.fee_min_sat || fee > self.policy.fee_max_sat)
                },
            },
    {
        if fee < self.policy.fee_min_sat {
            return Err(ValidationError::policy(build_fee_low(ctx, fee, self.policy.fee_min_sat)));
        }
        if fee > self.policy.fee_max_sat {
            return Err(ValidationError::policy(build_fee_high(ctx, fee, self.policy.fee_max_sat)));
        }
        Ok(())
    }

    /// Validation of the payment state for a payment hash.  A routing node
    /// must not lose funds; an originating node must pay the invoice and no
    /// more than the allowed routing fee on top.
    pub fn validate_payment_balance(
        &self,
        incoming: u64,
        outgoing: u64,
        invoiced_amount_msat: Option<u64>,
    ) -> (r: Result<(), ValidationError>)
        ensures
            match r {
                Ok(()) => match invoiced_amount_msat {
                    None => incoming >= outgoing,
                    Some(inv) => incoming >= outgoing && incoming - outgoing >= inv && incoming
                        - outgoing <= inv + self.policy.routing_fee_max_msat,
                },
                Err(e) => {
                    &&& e.kind == ValidationErrorKind::Policy
                    &&& e.message@.len() > 0
                    &&& match invoiced_amount_msat {
                        None => incoming < outgoing && e.message@ == msg_nn(
                            "validate_payment_balance: incoming "@,
                            incoming,
                            " less than outgoing "@,
                            outgoing,
                        ),
                        Some(inv) => {
                            &&& !(incoming >= outgoing && incoming - outgoing >= inv && incoming
                                - outgoing <= inv + self.policy.routing_fee_max_msat)
                            &&& (incoming < outgoing || incoming - outgoing < inv ==> e.message@
                                == msg_nn(
                                "validate_payment_balance: net "@,
                                if incoming >= outgoing {
                                    (incoming - outgoing) as u64
                                } else {
                                    0u64
                                },
                                " below invoiced amount "@,
                                inv,
                            ))
                            &&& (incoming >= outgoing && incoming - outgoing >= inv ==> e.message@
                                == msg_nn(
                                "validate_payment_balance: routing fee "@,
                                (incoming - outgoing - inv) as u64,
                                " above maximum "@,
                                self.policy.routing_fee_max_msat,
                            ))
                        },
                    }
                },
            },
    {
        match invoiced_amount_msat {
            None => {
                if incoming < outgoing {
                    proof {
                        lemma_u64_dec_len(incoming);
                    }
                    return Err(ValidationError::policy(build_nn(
                        "validate_payment_balance: incoming ",
                        incoming,
                        " less than outgoing ",
                        outgoing,
                    )));
                }
                Ok(())
            },
            Some(inv) => {
                let net: u64 = if incoming >= outgoing {
                    incoming - outgoing
                } else {
                    0
                };
                if incoming < outgoing || net < inv {
                    proof {
                        lemma_u64_dec_len(net);
                    }
                    return Err(ValidationError::policy(build_nn(
                        "validate_payment_balance: net ",
                        net,
                        " below invoiced amount ",
                        inv,
                    )));
                }
                if net - inv > self.policy.routing_fee_max_msat {
                    proof {
                        lemma_u64_dec_len((net - inv) as u64);
                    }
                    return Err(ValidationError::policy(build_nn(
                        "validate_payment_balance: routing fee ",
                        net - inv,
                        " above maximum ",
                        self.policy.routing_fee_max_msat,
                    )));
                }
                Ok(())
            },
        }
    }

    /// Validation of a delayed sweep: the spend of the holder's own
    /// to-local output after the contest delay.
    pub fn validate_delayed_sweep(
        &self,
        wallet: &Wallet,
        setup: &ChannelSetup,
        _cstate: &ChainState,
        tx: &Transaction,
        input: usize,
        amount_sat: u64,
        key_path: &Vec<u32>,
    ) -> (r: Result<(), ValidationError>)
        ensures
            ({
                let verdict = spec_sweep_error(
                    self.policy,
                    *wallet,
                    *setup,
                    *tx,
                    input,
                    amount_sat,
                    key_path@,
                    "validate_delayed_sweep"@,
                    "delayed sweep"@,
                    true,
                );
                match r {
                    Ok(()) => verdict is None,
                    Err(e) => verdict == Some((e.kind, e.message@)) && e.message@.len() > 0,
                }
            }),
    {
        self.validate_sweep_common(
            wallet,
            setup,
            tx,
            input,
            amount_sat,
            key_path,
            "validate_delayed_sweep",
            "delayed sweep",
            true,
        )
    }

    /// Validation of a counterparty HTLC sweep: the spend of a first-level
    /// HTLC output of the counterparty's published commitment.
    pub fn validate_counterparty_htlc_sweep(
        &self,
        wallet: &Wallet,
        setup: &ChannelSetup,
        _cstate: &ChainState,
        tx: &Transaction,
        _redeemscript: &Vec<u8>,
        input: usize,
        amount_sat: u64,
        key_path: &Vec<u32>,
    ) -> (r: Result<(), ValidationError>)
        ensures
            ({
                let verdict = spec_sweep_error(
                    self.policy,
                    *wallet,
                    *setup,
                    *tx,
                    input,
                    amount_sat,
                    key_path@,
                    "validate_counterparty_htlc_sweep"@,
                    "counterparty htlc sweep"@,
                    false,
                );
                match r {
                    Ok(()) => verdict is None,
                    Err(e) => verdict == Some((e.kind, e.message@)) && e.message@.len() > 0,
                }
            }),
    {
        self.validate_sweep_common(
            wallet,
            setup,
            tx,
            input,
            amount_sat,
            key_path,
            "validate_counterparty_htlc_sweep",
            "counterparty htlc sweep",
            false,
        )
    }

    /// Validation of a justice sweep: the spend of an output of a revoked
    /// commitment the counterparty published.
    pub fn validate_justice_sweep(
        &self,
        wallet: &Wallet,
        setup: &ChannelSetup,
        _cstate: &ChainState,
        tx: &Transaction,
        input: usize,
        amount_sat: u64,
        key_path: &Vec<u32>,
    ) -> (r: Result<(), ValidationError>)
        ensures
            ({
                let verdict = spec_sweep_error(
                    self.policy,
                    *wallet,
                    *setup,
                    *tx,
                    input,
                    amount_sat,
                    key_path@,
                    "validate_justice_sweep"@,
                    "justice sweep"@,
                    false,
                );
                match r {
                    Ok(()) => verdict is None,
                    Err(e) => verdict == Some((e.kind, e.message@)) && e.message@.len() > 0,
                }
            }),
    {
        self.validate_sweep_common(
            wallet,
            setup,
            tx,
            input,
            amount_sat,
            key_path,
            "validate_justice_sweep",
            "justice sweep",
            false,
        )
    }

    /// The shared sweep rules: exactly one input and one output, version 2,
    /// zero locktime, the contest-delay sequence where demanded, a
    /// wallet-owned or allowlisted destination, and a fee within bounds.
    fn validate_sweep_common(
        &self,
        wallet: &Wallet,
        setup: &ChannelSetup,
        tx: &Transaction,
        input: usize,
        amount_sat: u64,
        key_path: &Vec<u32>,
        ctx: &str,
        kind_name: &str,
        check_sequence: bool,
    ) -> (r: Result<(), ValidationError>)
        ensures
            ({
                let verdict = spec_sweep_error(
                    self.policy,
                    *wallet,
                    *setup,
                    *tx,
                    input,
                    amount_sat,
                    key_path@,
                    ctx@,
                    kind_name@,
                    check_sequence,
                );
                match r {
                    Ok(()) => verdict is None,
                    Err(e) => verdict == Some((e.kind, e.message@)) && e.message@.len() > 0,
                }
            }),
    {
        if tx.input.len() != 1 {
            let mut s: String = ctx.to_owned();
            push_str(&mut s, ": bad number of ");
            push_str(&mut s, kind_name);
            push_str(&mut s, " inputs: ");
            push_u64(&mut s, tx.input.len() as u64);
            push_str(&mut s, " != 1");
            proof {
                lemma_u64_dec_len(tx.input@.len() as u64);
            }
            return Err(ValidationError::transaction_format(s));
        }
        if tx.output.len() != 1 {
            let mut s: String = ctx.to_owned();
            push_str(&mut s, ": bad number of ");
            push_str(&mut s, kind_name);
            push_str(&mut s, " outputs: ");
            push_u64(&mut s, tx.output.len() as u64);
            push_str(&mut s, " != 1");
            proof {
                lemma_u64_dec_len(tx.output@.len() as u64);
            }
            return Err(ValidationError::transaction_format(s));
        }
        if input != 0 {
            let mut s: String = ctx.to_owned();
            push_str(&mut s, ": bad input index: ");
            push_u64(&mut s, input as u64);
            push_str(&mut s, " != 0");
            proof {
                lemma_u64_dec_len(input as u64);
            }
            return Err(ValidationError::transaction_format(s));
        }
        if tx.version != 2 {
            let mut s: String = ctx.to_owned();
            push_str(&mut s, ": bad ");
            push_str(&mut s, kind_name);
            push_str(&mut s, " version: ");
            push_u64(&mut s, tx.version as u64);
            proof {
                lemma_u64_dec_len(tx.version as u64);
            }
            return Err(ValidationError::transaction_format(s));
        }
        if tx.lock_time > 0 {
            let mut s: String = ctx.to_owned();
            push_str(&mut s, ": bad ");
            push_str(&mut s, kind_name);
            push_str(&mut s, " locktime: ");
            push_u64(&mut s, tx.lock_time as u64);
            push_str(&mut s, " > 0");
            proof {
                lemma_u64_dec_len(tx.lock_time as u64);
            }
            return Err(ValidationError::transaction_format(s));
        }
        if check_sequence && tx.input[0].sequence
            != setup.counterparty_selected_contest_delay as u32 {
            let mut s: String = ctx.to_owned();
            push_str(&mut s, ": bad ");
            push_str(&mut s, kind_name);
            push_str(&mut s, " sequence: ");
            push_u64(&mut s, tx.input[0].sequence as u64);
            push_str(&mut s, " != ");
            push_u64(&mut s, setup.counterparty_selected_contest_delay as u64);
            proof {
                lemma_u64_dec_len(tx.input@[0].sequence as u64);
            }
            return Err(ValidationError::transaction_format(s));
        }
        let dest_ok = wallet.can_spend(key_path, &tx.output[0].script_pubkey)
            || wallet.allowlist.contains(&tx.output[0].script_pubkey);
        if !dest_ok {
            let mut s: String = ctx.to_owned();
            push_str(&mut s, ": destination is not in wallet or allowlist");
            proof {
                reveal_strlit(": destination is not in wallet or allowlist");
            }
            return Err(ValidationError::policy(s));
        }
        if amount_sat < tx.output[0].value {
            let mut s: String = kind_name.to_owned();
            push_str(&mut s, " fee underflow: ");
            push_u64(&mut s, amount_sat);
            push_str(&mut s, " - ");
            push_u64(&mut s, tx.output[0].value);
            proof {
                lemma_u64_dec_len(amount_sat);
            }
            return Err(ValidationError::policy(s));
        }
        let fee = amount_sat - tx.output[0].value;
        self.validate_fee(ctx, fee)
    }
}

/// Total of a sequence of satoshi amounts.
pub open spec fn sum_u64(s: Seq<u64>) -> int
    decreases s.len(),
{
    if s.len() == 0 {
        0
    } else {
        sum_u64(s.drop_last()) + s.last()
    }
}

/// Amount totals are non-negative.
pub proof fn lemma_sum_u64_nonneg(s: Seq<u64>)
    ensures
        sum_u64(s) >= 0,
    decreases s.len(),
{
    if s.len() > 0 {
        lemma_sum_u64_nonneg(s.drop_last());
    }
}

/// Prefix sums stay below the total and step by the next element.
pub proof fn lemma_sum_u64_bounds(s: Seq<u64>, i: int)
    requires
        0 <= i <= s.len(),
    ensures
        0 <= sum_u64(s.subrange(0, i)) <= sum_u64(s),
        i < s.len() ==> sum_u64(s.subrange(0, i + 1)) == sum_u64(s.subrange(0, i)) + s[i],
    decreases s.len() - i,
{
    lemma_sum_u64_nonneg(s.subrange(0, i));
    if i == s.len() {
        assert(s.subrange(0, i) =~= s);
    } else {
        assert(s.subrange(0, i + 1).drop_last() =~= s.subrange(0, i));
        assert(s.subrange(0, i + 1).last() == s[i]);
        lemma_sum_u64_bounds(s, i + 1);
    }
}

/// Sums a list of satoshi amounts.
pub fn sum_values(v: &Vec<u64>) -> (r: u64)
    requires
        sum_u64(v@) <= u64::MAX,
    ensures
        r == sum_u64(v@),
{
    let mut total: u64 = 0;
    let mut i: usize = 0;
    while i < v.len()
        invariant
            i <= v@.len(),
            sum_u64(v@) <= u64::MAX,
            total == sum_u64(v@.subrange(0, i as int)),
        decreases v@.len() - i,
    {
        proof {
            lemma_sum_u64_bounds(v@, i as int);
            lemma_sum_u64_bounds(v@, i + 1);
        }
        total = total + v[i];
        i += 1;
    }
    proof {
        assert(v@.subrange(0, v@.len() as int) =~= v@);
    }
    total
}

/// The satoshi amounts of a transaction's outputs.
pub open spec fn spec_output_values(tx: Transaction) -> Seq<u64> {
    tx.output@.map_values(|o: crate::tx::TxOut| o.value)
}

/// Sums the output values of a transaction.
pub fn sum_outputs(tx: &Transaction) -> (r: u64)
    requires
        sum_u64(spec_output_values(*tx)) <= u64::MAX,
    ensures
        r == sum_u64(spec_output_values(*tx)),
{
    let ghost vals = spec_output_values(*tx);
    let mut total: u64 = 0;
    let mut i: usize = 0;
    while i < tx.output.len()
        invariant
            i <= tx.output@.len(),
            vals == spec_output_values(*tx),
            vals.len() == tx.output@.len(),
            sum_u64(vals) <= u64::MAX,
            total == sum_u64(vals.subrange(0, i as int)),
        decreases tx.output@.len() - i,
    {
        proof {
            lemma_sum_u64_bounds(vals, i as int);
            lemma_sum_u64_bounds(vals, i + 1);
            assert(vals[i as int] == tx.output@[i as int].value);
        }
        total = total + tx.output[i].value;
        i += 1;
    }
    proof {
        assert(vals.subrange(0, vals.len() as int) =~= vals);
    }
    total
}

/// Whether a mutual close with the given split passes every close rule:
/// both scripts go to approved destinations, the two commitment views
/// agree within epsilon, the holder's share reaches the floor both views
/// support, and the fee is within bounds.
pub open spec fn spec_mutual_close_accepts(
    policy: SimplePolicy,
    wallet: Wallet,
    setup: ChannelSetup,
    state: EnforcementState,
    to_holder_value_sat: u64,
    to_counterparty_value_sat: u64,
    holder_script: Option<Seq<u8>>,
    counterparty_script: Option<Seq<u8>>,
    holder_wallet_path_hint: Seq<u32>,
) -> bool {
    let holder_ok = match holder_script {
        Some(s) => (setup.holder_shutdown_script matches Some(n) && n@ == s) || spec_can_spend(
            wallet.node_seed@,
            holder_wallet_path_hint,
            s,
        ) || wallet.allowlist.contains_script(s),
        None => true,
    };
    let cp_ok = match counterparty_script {
        Some(s) => (setup.counterparty_shutdown_script matches Some(n) && n@ == s)
            || wallet.allowlist.contains_script(s),
        None => true,
    };
    let floor = ({
        let h = state.current_holder_commit_info->0.to_broadcaster_value_sat;
        let c = state.current_counterparty_commit_info->0.to_countersigner_value_sat;
        if h <= c {
            h
        } else {
            c
        }
    });
    &&& holder_ok
    &&& cp_ok
    &&& state.views_agree_to_holder(policy.epsilon_sat)
    &&& to_holder_value_sat >= floor
    &&& to_holder_value_sat + to_counterparty_value_sat <= setup.channel_value_sat
    &&& policy.fee_min_sat <= setup.channel_value_sat - to_holder_value_sat
        - to_counterparty_value_sat <= policy.fee_max_sat
}

/// Whether an output pays the holder in a mutual close: the negotiated
/// holder shutdown script, or a wallet destination at the claimed path.
pub open spec fn spec_holder_output(
    wallet: Wallet,
    setup: ChannelSetup,
    opath: Vec<u32>,
    out: crate::tx::TxOut,
) -> bool {
    (setup.holder_shutdown_script matches Some(n) && n@ == out.script_pubkey@) || (opath@.len() > 0
        && spec_can_spend(wallet.node_seed@, opath@, out.script_pubkey@))
}

/// Whether output `out` is acceptable: it funds the channel in its slot,
/// or is allowlisted, or is wallet change at the claimed derivation path.
pub open spec fn spec_output_ok(
    wallet: Wallet,
    slot: Option<ChannelSetup>,
    opath: Vec<u32>,
    out: crate::tx::TxOut,
) -> bool {
    match slot {
        Some(setup) => out.script_pubkey@ == crate::channel::spec_funding_script(setup),
        None => wallet.allowlist.contains_script(out.script_pubkey@) || (opath@.len() > 0
            && spec_can_spend(wallet.node_seed@, opath@, out.script_pubkey@)),
    }
}

/// Whether slots `i` and `j` fund channels with the same funding outpoint.
pub open spec fn spec_dup_pair(channels: Seq<Option<ChannelSetup>>, i: int, j: int) -> bool {
    &&& 0 <= i < j < channels.len()
    &&& channels[i] is Some
    &&& channels[j] is Some
    &&& channels[i]->0.funding_outpoint.txid@ == channels[j]->0.funding_outpoint.txid@
    &&& channels[i]->0.funding_outpoint.vout == channels[j]->0.funding_outpoint.vout
}

/// Every HTLC paying away from the holder expires strictly after `bound`.
pub open spec fn all_cltv_after(s: Seq<HTLCInfo2>, bound: int) -> bool {
    forall|i: int| 0 <= i < s.len() ==> #[trigger] s[i].cltv_expiry as int > bound
}

/// Every HTLC paying toward the holder expires within `[lo, hi]`.
pub open spec fn all_cltv_within(s: Seq<HTLCInfo2>, lo: int, hi: int) -> bool {
    forall|i: int| 0 <= i < s.len() ==> lo <= #[trigger] s[i].cltv_expiry as int <= hi
}

/// Checks that every expiry is strictly after `bound`.
fn check_cltv_after(s: &Vec<HTLCInfo2>, bound: u64) -> (r: bool)
    ensures
        r == all_cltv_after(s@, bound as int),
{
    let mut i: usize = 0;
    while i < s.len()
        invariant
            i <= s@.len(),
            forall|j: int| 0 <= j < i ==> #[trigger] s@[j].cltv_expiry as int > bound as int,
        decreases s@.len() - i,
    {
        if s[i].cltv_expiry as u64 <= bound {
            return false;
        }
        i += 1;
    }
    true
}

/// Checks that every expiry lies within `[lo, hi]`.
fn check_cltv_within(s: &Vec<HTLCInfo2>, lo: u64, hi: u64) -> (r: bool)
    ensures
        r == all_cltv_within(s@, lo as int, hi as int),
{
    let mut i: usize = 0;
    while i < s.len()
        invariant
            i <= s@.len(),
            forall|j: int|
                0 <= j < i ==> lo as int <= #[trigger] s@[j].cltv_expiry as int <= hi as int,
        decreases s@.len() - i,
    {
        if (s[i].cltv_expiry as u64) < lo || s[i].cltv_expiry as u64 > hi {
            return false;
        }
        i += 1;
    }
    true
}

/// The first rule a proposed counterparty commitment breaks and the exact
/// message it earns, or nothing when the commitment must be accepted.
pub open spec fn spec_cp_commitment_error(
    policy: SimplePolicy,
    estate: &EnforcementState,
    commit_num: u64,
    point: PubKey,
    setup: &ChannelSetup,
    cstate: &ChainState,
    info2: &CommitmentInfo2,
    preimages: Set<Seq<u8>>,
) -> Option<Seq<char>> {
    let o = estate.cp_commit_outcome(commit_num, point);
    let rev = estate.next_counterparty_revoke_num;
    let cur = estate.next_counterparty_commit_num;
    let total = info2.to_broadcaster_value_sat + info2.to_countersigner_value_sat
        + sum_htlc_values(info2.offered_htlcs@) + sum_htlc_values(info2.received_htlcs@);
    let lo = cstate.current_height + policy.cltv_delta_min;
    let hi = cstate.current_height + policy.cltv_delta_max;
    let cur_bal = estate.spec_current_balance(preimages);
    let new_bal = estate.spec_new_balance(None, Some(info2), preimages);
    if estate.mutual_close_signed {
        Some("validate_counterparty_commitment_tx: channel is closing"@)
    } else if o == CpCommitOutcome::RejectZero {
        Some("set_next_counterparty_commit_num: can't set next to 0"@)
    } else if o == CpCommitOutcome::RejectTooSmallVsRevoke {
        Some(
            msg_nn(
                "set_next_counterparty_commit_num: "@,
                commit_num,
                " too small relative to next_counterparty_revoke_num "@,
                rev,
            ),
        )
    } else if o == CpCommitOutcome::RejectTooLargeVsRevoke {
        Some(
            msg_nn(
                "set_next_counterparty_commit_num: "@,
                commit_num,
                " too large relative to next_counterparty_revoke_num "@,
                rev,
            ),
        )
    } else if o == CpCommitOutcome::RejectRetryPointMismatch {
        Some(
            crate::error::msg_n(
                "set_next_counterparty_commit_num: retry "@,
                commit_num,
                ": point different than prior"@,
            ),
        )
    } else if o == CpCommitOutcome::RejectProgression {
        Some(
            msg_nn(
                "set_next_counterparty_commit_num: invalid progression: "@,
                cur,
                " to "@,
                commit_num,
            ),
        )
    } else if total > setup.channel_value_sat {
        Some("validate_counterparty_commitment_tx"@ + ": fee underflow"@)
    } else if setup.channel_value_sat - total < policy.fee_min_sat {
        Some(
            spec_fee_low(
                "validate_counterparty_commitment_tx"@,
                (setup.channel_value_sat - total) as u64,
                policy.fee_min_sat,
            ),
        )
    } else if setup.channel_value_sat - total > policy.fee_max_sat {
        Some(
            spec_fee_high(
                "validate_counterparty_commitment_tx"@,
                (setup.channel_value_sat - total) as u64,
                policy.fee_max_sat,
            ),
        )
    } else if !all_cltv_after(info2.received_htlcs@, lo as int) {
        Some("validate_counterparty_commitment_tx"@ + ": "@ + "received"@ + " htlc cltv too soon"@)
    } else if !all_cltv_within(info2.offered_htlcs@, lo as int, hi as int) {
        Some(
            "validate_counterparty_commitment_tx"@ + ": "@ + "offered"@
                + " htlc cltv out of range"@,
        )
    } else if policy.enforce_balance && new_bal < cur_bal && cur_bal - new_bal > sum_htlc_values(
        info2.received_htlcs@,
    ) {
        Some(
            "validate_counterparty_commitment_tx: holder balance decrease is not accounted for by outgoing payments"@,
        )
    } else {
        None
    }
}

/// The first rule a proposed holder commitment breaks and the exact message
/// it earns, or nothing when the commitment must be accepted.
pub open spec fn spec_holder_commitment_error(
    policy: SimplePolicy,
    estate: &EnforcementState,
    commit_num: u64,
    setup: &ChannelSetup,
    cstate: &ChainState,
    info2: &CommitmentInfo2,
    preimages: Set<Seq<u8>>,
) -> Option<Seq<char>> {
    let cur = estate.next_holder_commit_num;
    let total = info2.to_broadcaster_value_sat + info2.to_countersigner_value_sat
        + sum_htlc_values(info2.offered_htlcs@) + sum_htlc_values(info2.received_htlcs@);
    let lo = cstate.current_height + policy.cltv_delta_min;
    let hi = cstate.current_height + policy.cltv_delta_max;
    let cur_bal = estate.spec_current_balance(preimages);
    let new_bal = estate.spec_new_balance(Some(info2), None, preimages);
    if estate.mutual_close_signed {
        Some("validate_holder_commitment_tx: channel is closing"@)
    } else if commit_num != cur && commit_num != cur + 1 {
        Some(
            msg_nn(
                "validate_holder_commitment_tx: invalid progression: "@,
                cur,
                " to "@,
                commit_num,
            ),
        )
    } else if total > setup.channel_value_sat {
        Some("validate_holder_commitment_tx"@ + ": fee underflow"@)
    } else if setup.channel_value_sat - total < policy.fee_min_sat {
        Some(
            spec_fee_low(
                "validate_holder_commitment_tx"@,
                (setup.channel_value_sat - total) as u64,
                policy.fee_min_sat,
            ),
        )
    } else if setup.channel_value_sat - total > policy.fee_max_sat {
        Some(
            spec_fee_high(
                "validate_holder_commitment_tx"@,
                (setup.channel_value_sat - total) as u64,
                policy.fee_max_sat,
            ),
        )
    } else if !all_cltv_after(info2.offered_htlcs@, lo as int) {
        Some("validate_holder_commitment_tx"@ + ": "@ + "offered"@ + " htlc cltv too soon"@)
    } else if !all_cltv_within(info2.received_htlcs@, lo as int, hi as int) {
        Some("validate_holder_commitment_tx"@ + ": "@ + "received"@ + " htlc cltv out of range"@)
    } else if policy.enforce_balance && new_bal < cur_bal && cur_bal - new_bal > sum_htlc_values(
        info2.offered_htlcs@,
    ) {
        Some(
            "validate_holder_commitment_tx: holder balance decrease is not accounted for by outgoing payments"@,
        )
    } else {
        None
    }
}

impl SimpleValidator {
    /// Validate ready channel parameters.  The holder_shutdown_key_path
    /// must be empty when no holder shutdown script was negotiated.
    pub fn validate_ready_channel(
        &self,
        wallet: &Wallet,
        setup: &ChannelSetup,
        holder_shutdown_key_path: &Vec<u32>,
    ) -> (r: Result<(), ValidationError>)
        ensures
            ({
                let cd = setup.counterparty_selected_contest_delay;
                let hd = setup.holder_selected_contest_delay;
                let v = setup.channel_value_sat;
                let shutdown_ok = match setup.holder_shutdown_script {
                    Some(s) => spec_can_spend(wallet.node_seed@, holder_shutdown_key_path@, s@)
                        || wallet.allowlist.contains_script(s@),
                    None => holder_shutdown_key_path@.len() == 0,
                };
                match r {
                    Ok(()) => {
                        &&& self.policy.min_delay <= cd <= self.policy.max_delay
                        &&& self.policy.min_delay <= hd <= self.policy.max_delay
                        &&& self.policy.channel_value_min_sat <= v
                            <= self.policy.channel_value_max_sat
                        &&& shutdown_ok
                    },
                    Err(e) => {
                        &&& e.kind == ValidationErrorKind::Policy
                        &&& e.message@.len() > 0
                        &&& !(self.policy.min_delay <= cd <= self.policy.max_delay
                            && self.policy.min_delay <= hd <= self.policy.max_delay
                            && self.policy.channel_value_min_sat <= v
                            <= self.policy.channel_value_max_sat && shutdown_ok)
                    },
                }
            }),
    {
        let cd = setup.counterparty_selected_contest_delay;
        if cd < self.policy.min_delay {
            proof {
                lemma_u64_dec_len(cd as u64);
            }
            return Err(ValidationError::policy(build_nn(
                "validate_ready_channel: counterparty selected contest delay too small: ",
                cd as u64,
                " < ",
                self.policy.min_delay as u64,
            )));
        }
        if cd > self.policy.max_delay {
            proof {
                lemma_u64_dec_len(cd as u64);
            }
            return Err(ValidationError::policy(build_nn(
                "validate_ready_channel: counterparty selected contest delay too large: ",
                cd as u64,
                " > ",
                self.policy.max_delay as u64,
            )));
        }
        let hd = setup.holder_selected_contest_delay;
        if hd < self.policy.min_delay {
            proof {
                lemma_u64_dec_len(hd as u64);
            }
            return Err(ValidationError::policy(build_nn(
                "validate_ready_channel: holder selected contest delay too small: ",
                hd as u64,
                " < ",
                self.policy.min_delay as u64,
            )));
        }
        if hd > self.policy.max_delay {
            proof {
                lemma_u64_dec_len(hd as u64);
            }
            return Err(ValidationError::policy(build_nn(
                "validate_ready_channel: holder selected contest delay too large: ",
                hd as u64,
                " > ",
                self.policy.max_delay as u64,
            )));
        }
        if setup.channel_value_sat < self.policy.channel_value_min_sat {
            proof {
                lemma_u64_dec_len(setup.channel_value_sat);
            }
            return Err(ValidationError::policy(build_nn(
                "validate_ready_channel: channel value too small: ",
                setup.channel_value_sat,
                " < ",
                self.policy.channel_value_min_sat,
            )));
        }
        if setup.channel_value_sat > self.policy.channel_value_max_sat {
            proof {
                lemma_u64_dec_len(setup.channel_value_sat);
            }
            return Err(ValidationError::policy(build_nn(
                "validate_ready_channel: channel value too large: ",
                setup.channel_value_sat,
                " > ",
                self.policy.channel_value_max_sat,
            )));
        }
        match &setup.holder_shutdown_script {
            Some(s) => {
                let ok = wallet.can_spend(holder_shutdown_key_path, s)
                    || wallet.allowlist.contains(s);
                if !ok {
                    let m =
                        "validate_ready_channel: holder shutdown script is not in wallet or allowlist".to_owned();
                    proof {
                        reveal_strlit(
                            "validate_ready_channel: holder shutdown script is not in wallet or allowlist",
                        );
                    }
                    return Err(ValidationError::policy(m));
                }
            },
            None => {
                if holder_shutdown_key_path.len() != 0 {
                    let m =
                        "validate_ready_channel: unexpected holder shutdown key path".to_owned();
                    proof {
                        reveal_strlit("validate_ready_channel: unexpected holder shutdown key path");
                    }
                    return Err(ValidationError::policy(m));
                }
            },
        }
        Ok(())
    }

    /// Validate channel value after it is late-filled.
    pub fn validate_channel_value(&self, setup: &ChannelSetup) -> (r: Result<(), ValidationError>)
        ensures
            match r {
                Ok(()) => setup.channel_value_sat <= self.policy.channel_value_max_sat,
                Err(e) => {
                    &&& setup.channel_value_sat > self.policy.channel_value_max_sat
                    &&& e.kind == ValidationErrorKind::Policy
                    &&& e.message@ == msg_nn(
                        "validate_channel_value: channel value too large: "@,
                        setup.channel_value_sat,
                        " > "@,
                        self.policy.channel_value_max_sat,
                    )
                    &&& e.message@.len() > 0
                },
            },
    {
        if setup.channel_value_sat > self.policy.channel_value_max_sat {
            proof {
                lemma_u64_dec_len(setup.channel_value_sat);
            }
            return Err(ValidationError::policy(build_nn(
                "validate_channel_value: channel value too large: ",
                setup.channel_value_sat,
                " > ",
                self.policy.channel_value_max_sat,
            )));
        }
        Ok(())
    }

    /// Validate a counterparty commitment: the progression is simulated
    /// against the enforcement state, the commitment fee and every HTLC
    /// expiry are bounded, and under balance enforcement any decrease of
    /// the holder's claimable funds must be covered by outgoing HTLCs.
    /// On success the caller commits the transition with
    /// `set_next_counterparty_commit_num`.
    pub fn validate_counterparty_commitment_tx<T: PreimageMap>(
        &self,
        estate: &EnforcementState,
        commit_num: u64,
        commitment_point: &PubKey,
        setup: &ChannelSetup,
        cstate: &ChainState,
        info2: &CommitmentInfo2,
        preimage_map: &T,
    ) -> (r: Result<(), ValidationError>)
        requires
            estate.wf(),
            info2.wf(),
        ensures
            ({
                let verdict = spec_cp_commitment_error(
                    self.policy,
                    estate,
                    commit_num,
                    *commitment_point,
                    setup,
                    cstate,
                    info2,
                    preimage_map.preimages(),
                );
                match r {
                    Ok(()) => verdict is None,
                    Err(e) => e.kind == ValidationErrorKind::Policy && verdict == Some(e.message@)
                        && e.message@.len() > 0,
                }
            }),
    {
        if estate.mutual_close_signed {
            let m = "validate_counterparty_commitment_tx: channel is closing".to_owned();
            proof {
                reveal_strlit("validate_counterparty_commitment_tx: channel is closing");
            }
            return Err(ValidationError::policy(m));
        }
        if let Err(e) = self.check_counterparty_progression(estate, commit_num, commitment_point) {
            return Err(e);
        }
        if let Err(e) = self.check_commitment_body(
            "validate_counterparty_commitment_tx",
            setup,
            cstate,
            info2,
            false,
        ) {
            return Err(e);
        }
        if self.policy.enforce_balance {
            let delta = estate.claimable_balances(preimage_map, None, Some(info2), setup);
            if delta.1 < delta.0 {
                proof {
                    crate::tx::lemma_sum_values_nonneg(info2.offered_htlcs@);
                    crate::tx::lemma_sum_values_nonneg(info2.received_htlcs@);
                }
                let outgoing = sum_htlc_vec(&info2.received_htlcs);
                if delta.0 - delta.1 > outgoing {
                    let m =
                        "validate_counterparty_commitment_tx: holder balance decrease is not accounted for by outgoing payments".to_owned();
                    proof {
                        reveal_strlit(
                            "validate_counterparty_commitment_tx: holder balance decrease is not accounted for by outgoing payments",
                        );
                    }
                    return Err(ValidationError::policy(m));
                }
            }
        }
        Ok(())
    }

    /// Validate a holder commitment, symmetrically to the counterparty
    /// case, against `next_holder_commit_num`.  On success the caller
    /// commits the transition with `set_next_holder_commit_num`.
    pub fn validate_holder_commitment_tx<T: PreimageMap>(
        &self,
        estate: &EnforcementState,
        commit_num: u64,
        _commitment_point: &PubKey,
        setup: &ChannelSetup,
        cstate: &ChainState,
        info2: &CommitmentInfo2,
        preimage_map: &T,
    ) -> (r: Result<(), ValidationError>)
        requires
            estate.wf(),
            info2.wf(),
        ensures
            ({
                let verdict = spec_holder_commitment_error(
                    self.policy,
                    estate,
                    commit_num,
                    setup,
                    cstate,
                    info2,
                    preimage_map.preimages(),
                );
                match r {
                    Ok(()) => verdict is None,
                    Err(e) => e.kind == ValidationErrorKind::Policy && verdict == Some(e.message@)
                        && e.message@.len() > 0,
                }
            }),
    {
        if estate.mutual_close_signed {
            let m = "validate_holder_commitment_tx: channel is closing".to_owned();
            proof {
                reveal_strlit("validate_holder_commitment_tx: channel is closing");
            }
            return Err(ValidationError::policy(m));
        }
        let cur = estate.next_holder_commit_num;
        if commit_num != cur && !(commit_num > cur && commit_num - cur == 1) {
            proof {
                lemma_u64_dec_len(cur);
            }
            return Err(ValidationError::policy(build_nn(
                "validate_holder_commitment_tx: invalid progression: ",
                cur,
                " to ",
                commit_num,
            )));
        }
        if let Err(e) = self.check_commitment_body(
            "validate_holder_commitment_tx",
            setup,
            cstate,
            info2,
            true,
        ) {
            return Err(e);
        }
        if self.policy.enforce_balance {
            let delta = estate.claimable_balances(preimage_map, Some(info2), None, setup);
            if delta.1 < delta.0 {
                proof {
                    crate::tx::lemma_sum_values_nonneg(info2.offered_htlcs@);
                    crate::tx::lemma_sum_values_nonneg(info2.received_htlcs@);
                }
                let outgoing = sum_htlc_vec(&info2.offered_htlcs);
                if delta.0 - delta.1 > outgoing {
                    let m =
                        "validate_holder_commitment_tx: holder balance decrease is not accounted for by outgoing payments".to_owned();
                    proof {
                        reveal_strlit(
                            "validate_holder_commitment_tx: holder balance decrease is not accounted for by outgoing payments",
                        );
                    }
                    return Err(ValidationError::policy(m));
                }
            }
        }
        Ok(())
    }

    /// The progression part of counterparty-commitment validation: the same
    /// rules and messages as `set_next_counterparty_commit_num`, checked
    /// without touching the state.
    fn check_counterparty_progression(
        &self,
        estate: &EnforcementState,
        num: u64,
        point: &PubKey,
    ) -> (r: Result<(), ValidationError>)
        requires
            estate.wf(),
        ensures
            ({
                let o = estate.cp_commit_outcome(num, *point);
                let rev = estate.next_counterparty_revoke_num;
                let cur = estate.next_counterparty_commit_num;
                match r {
                    Ok(()) => o == CpCommitOutcome::Retry || o == CpCommitOutcome::Advance,
                    Err(e) => {
                        &&& e.kind == ValidationErrorKind::Policy
                        &&& e.message@.len() > 0
                        &&& o != CpCommitOutcome::Retry && o != CpCommitOutcome::Advance
                        &&& (o == CpCommitOutcome::RejectZero ==> e.message@
                            == "set_next_counterparty_commit_num: can't set next to 0"@)
                        &&& (o == CpCommitOutcome::RejectTooSmallVsRevoke ==> e.message@ == msg_nn(
                            "set_next_counterparty_commit_num: "@,
                            num,
                            " too small relative to next_counterparty_revoke_num "@,
                            rev,
                        ))
                        &&& (o == CpCommitOutcome::RejectTooLargeVsRevoke ==> e.message@ == msg_nn(
                            "set_next_counterparty_commit_num: "@,
                            num,
                            " too large relative to next_counterparty_revoke_num "@,
                            rev,
                        ))
                        &&& (o == CpCommitOutcome::RejectRetryPointMismatch ==> e.message@
                            == crate::error::msg_n(
                            "set_next_counterparty_commit_num: retry "@,
                            num,
                            ": point different than prior"@,
                        ))
                        &&& (o == CpCommitOutcome::RejectProgression ==> e.message@ == msg_nn(
                            "set_next_counterparty_commit_num: invalid progression: "@,
                            cur,
                            " to "@,
                            num,
                        ))
                    },
                }
            }),
    {
        if num == 0 {
            let m = "set_next_counterparty_commit_num: can't set next to 0".to_owned();
            proof {
                reveal_strlit("set_next_counterparty_commit_num: can't set next to 0");
            }
            return Err(ValidationError::policy(m));
        }
        let delta: u64 = if num == 1 {
            1
        } else {
            2
        };
        let rev = estate.next_counterparty_revoke_num;
        if num <= rev || num - rev < delta {
            proof {
                lemma_u64_dec_len(num);
            }
            return Err(ValidationError::policy(build_nn(
                "set_next_counterparty_commit_num: ",
                num,
                " too small relative to next_counterparty_revoke_num ",
                rev,
            )));
        }
        if num - rev > 2 {
            proof {
                lemma_u64_dec_len(num);
            }
            return Err(ValidationError::policy(build_nn(
                "set_next_counterparty_commit_num: ",
                num,
                " too large relative to next_counterparty_revoke_num ",
                rev,
            )));
        }
        let cur = estate.next_counterparty_commit_num;
        if num == cur {
            let prior = estate.current_counterparty_point.unwrap();
            if !prior.eq_bytes(point) {
                proof {
                    lemma_u64_dec_len(num);
                }
                return Err(ValidationError::policy(crate::error::build_n(
                    "set_next_counterparty_commit_num: retry ",
                    num,
                    ": point different than prior",
                )));
            }
            Ok(())
        } else if num > cur && num - cur == 1 {
            Ok(())
        } else {
            proof {
                lemma_u64_dec_len(cur);
            }
            Err(ValidationError::policy(build_nn(
                "set_next_counterparty_commit_num: invalid progression: ",
                cur,
                " to ",
                num,
            )))
        }
    }

    /// The fee and expiry rules shared by both commitment validators.
    /// `ours_offered` says whether the commitment's offered HTLCs are the
    /// ones the holder sends (a holder commitment) rather than receives.
    fn check_commitment_body(
        &self,
        ctx: &str,
        setup: &ChannelSetup,
        cstate: &ChainState,
        info2: &CommitmentInfo2,
        ours_offered: bool,
    ) -> (r: Result<(), ValidationError>)
        requires
            info2.wf(),
        ensures
            ({
                let total = info2.to_broadcaster_value_sat + info2.to_countersigner_value_sat
                    + sum_htlc_values(info2.offered_htlcs@) + sum_htlc_values(
                    info2.received_htlcs@,
                );
                let lo = cstate.current_height + self.policy.cltv_delta_min;
                let hi = cstate.current_height + self.policy.cltv_delta_max;
                let away = if ours_offered {
                    info2.offered_htlcs@
                } else {
                    info2.received_htlcs@
                };
                let toward = if ours_offered {
                    info2.received_htlcs@
                } else {
                    info2.offered_htlcs@
                };
                let away_name = if ours_offered {
                    "offered"
                } else {
                    "received"
                };
                match r {
                    Ok(()) => {
                        &&& total <= setup.channel_value_sat
                        &&& self.policy.fee_min_sat <= setup.channel_value_sat - total
                            <= self.policy.fee_max_sat
                        &&& all_cltv_after(away, lo as int)
                        &&& all_cltv_within(toward, lo as int, hi as int)
                    },
                    Err(e) => {
                        &&& e.kind == ValidationErrorKind::Policy
                        &&& e.message@.len() > 0
                        &&& (total > setup.channel_value_sat ==> e.message@ == ctx@
                            + ": fee underflow"@)
                        &&& (total <= setup.channel_value_sat && setup.channel_value_sat - total
                            < self.policy.fee_min_sat ==> e.message@ == spec_fee_low(
                            ctx@,
                            (setup.channel_value_sat - total) as u64,
                            self.policy.fee_min_sat,
                        ))
                        &&& (total <= setup.channel_value_sat && self.policy.fee_min_sat
                            <= setup.channel_value_sat - total && setup.channel_value_sat - total
                            > self.policy.fee_max_sat ==> e.message@ == spec_fee_high(
                            ctx@,
                            (setup.channel_value_sat - total) as u64,
                            self.policy.fee_max_sat,
                        ))
                        &&& (total <= setup.channel_value_sat && self.policy.fee_min_sat
                            <= setup.channel_value_sat - total <= self.policy.fee_max_sat
                            && !all_cltv_after(away, lo as int) ==> e.message@ == ctx@ + ": "@
                            + away_name@ + " htlc cltv too soon"@)
                        &&& (total <= setup.channel_value_sat && self.policy.fee_min_sat
                            <= setup.channel_value_sat - total <= self.policy.fee_max_sat
                            && all_cltv_after(away, lo as int) && !all_cltv_within(
                            toward,
                            lo as int,
                            hi as int,
                        ) ==> e.message@ == ctx@ + ": "@ + (if ours_offered {
                            "received"
                        } else {
                            "offered"
                        })@ + " htlc cltv out of range"@)
                        &&& !(total <= setup.channel_value_sat && self.policy.fee_min_sat
                            <= setup.channel_value_sat - total <= self.policy.fee_max_sat
                            && all_cltv_after(away, lo as int) && all_cltv_within(
                            toward,
                            lo as int,
                            hi as int,
                        ))
                    },
                }
            }),
    {
        proof {
            crate::tx::lemma_sum_values_nonneg(info2.offered_htlcs@);
            crate::tx::lemma_sum_values_nonneg(info2.received_htlcs@);
        }
        let so = sum_htlc_vec(&info2.offered_htlcs);
        let sr = sum_htlc_vec(&info2.received_htlcs);
        let total = info2.to_broadcaster_value_sat + info2.to_countersigner_value_sat + so + sr;
        if total > setup.channel_value_sat {
            let mut m: String = ctx.to_owned();
            push_str(&mut m, ": fee underflow");
            proof {
                reveal_strlit(": fee underflow");
            }
            return Err(ValidationError::policy(m));
        }
        if let Err(e) = self.validate_fee(ctx, setup.channel_value_sat - total) {
            return Err(e);
        }
        let lo = cstate.current_height as u64 + self.policy.cltv_delta_min as u64;
        let hi = cstate.current_height as u64 + self.policy.cltv_delta_max as u64;
        let away = if ours_offered {
            &info2.offered_htlcs
        } else {
            &info2.received_htlcs
        };
        let toward = if ours_offered {
            &info2.received_htlcs
        } else {
            &info2.offered_htlcs
        };
        if !check_cltv_after(away, lo) {
            let mut m: String = ctx.to_owned();
            push_str(&mut m, ": ");
            push_str(
                &mut m,
                if ours_offered {
                    "offered"
                } else {
                    "received"
                },
            );
            push_str(&mut m, " htlc cltv too soon");
            proof {
                reveal_strlit(": ");
            }
            return Err(ValidationError::policy(m));
        }
        if !check_cltv_within(toward, lo, hi) {
            let mut m: String = ctx.to_owned();
            push_str(&mut m, ": ");
            push_str(
                &mut m,
                if ours_offered {
                    "received"
                } else {
                    "offered"
                },
            );
            push_str(&mut m, " htlc cltv out of range");
            proof {
                reveal_strlit(": ");
            }
            return Err(ValidationError::policy(m));
        }
        Ok(())
    }

    /// Check a counterparty's revocation of an old state: the revocation
    /// number may only be retried or advanced by one, and the disclosed
    /// secret must derive to the per-commitment point recorded for it.
    pub fn validate_counterparty_revocation(
        &self,
        state: &EnforcementState,
        revoke_num: u64,
        commitment_secret: &[u8; 32],
    ) -> (r: Result<(), ValidationError>)
        requires
            state.wf(),
        ensures
            ({
                let c = state.next_counterparty_commit_num;
                let rv = state.next_counterparty_revoke_num;
                let expected = if revoke_num + 1 == c {
                    state.current_counterparty_point
                } else {
                    state.previous_counterparty_point
                };
                match r {
                    Ok(()) => {
                        &&& (revoke_num == rv || revoke_num == rv + 1)
                        &&& (revoke_num + 1 == c || revoke_num + 2 == c)
                        &&& pubkey_of(commitment_secret@) == Some(expected->0@)
                    },
                    Err(e) => {
                        &&& e.kind == ValidationErrorKind::Policy
                        &&& e.message@.len() > 0
                        &&& (!(revoke_num == rv || revoke_num == rv + 1) ==> e.message@ == msg_nn(
                            "validate_counterparty_revocation: invalid progression: "@,
                            rv,
                            " to "@,
                            revoke_num,
                        ))
                        &&& ((revoke_num == rv || revoke_num == rv + 1) && !(revoke_num + 1 == c
                            || revoke_num + 2 == c) ==> e.message@ == msg_nn(
                            "validate_counterparty_revocation: "@,
                            revoke_num,
                            " out of range, next commit is "@,
                            c,
                        ))
                        &&& ((revoke_num == rv || revoke_num == rv + 1) && (revoke_num + 1 == c
                            || revoke_num + 2 == c) ==> pubkey_of(commitment_secret@) != Some(
                            expected->0@,
                        ) && e.message@
                            == "validate_counterparty_revocation: revocation secret does not match the commitment point"@)
                    },
                }
            }),
    {
        let rv = state.next_counterparty_revoke_num;
        if !(revoke_num == rv || (revoke_num > rv && revoke_num - rv == 1)) {
            proof {
                lemma_u64_dec_len(rv);
            }
            return Err(ValidationError::policy(build_nn(
                "validate_counterparty_revocation: invalid progression: ",
                rv,
                " to ",
                revoke_num,
            )));
        }
        let c = state.next_counterparty_commit_num;
        let expected: PubKey = if revoke_num < c && c - revoke_num == 1 {
            state.current_counterparty_point.unwrap()
        } else if revoke_num < c && c - revoke_num == 2 {
            state.previous_counterparty_point.unwrap()
        } else {
            proof {
                lemma_u64_dec_len(revoke_num);
            }
            return Err(ValidationError::policy(build_nn(
                "validate_counterparty_revocation: ",
                revoke_num,
                " out of range, next commit is ",
                c,
            )));
        };
        let derived = secret_to_pubkey(commitment_secret);
        let ok = match &derived {
            Some(p) => {
                let pk = PubKey(*p);
                pk.eq_bytes(&expected)
            },
            None => false,
        };
        if !ok {
            let m =
                "validate_counterparty_revocation: revocation secret does not match the commitment point".to_owned();
            proof {
                reveal_strlit(
                    "validate_counterparty_revocation: revocation secret does not match the commitment point",
                );
            }
            return Err(ValidationError::policy(m));
        }
        Ok(())
    }

    /// Validate an onchain transaction (funding tx, simple sweeps): every
    /// output must fund its declared channel, be allowlisted, or be wallet
    /// change; funded channels must have distinct funding outpoints; and
    /// the fee must be within bounds.
    pub fn validate_onchain_tx(
        &self,
        wallet: &Wallet,
        channels: &Vec<Option<ChannelSetup>>,
        tx: &Transaction,
        values_sat: &Vec<u64>,
        opaths: &Vec<Vec<u32>>,
    ) -> (r: Result<(), ValidationError>)
        requires
            channels@.len() == tx.output@.len(),
            opaths@.len() == tx.output@.len(),
            sum_u64(values_sat@) <= u64::MAX,
            sum_u64(spec_output_values(*tx)) <= u64::MAX,
        ensures
            ({
                let outs_ok = forall|i: int|
                    0 <= i < tx.output@.len() ==> #[trigger] spec_output_ok(
                        *wallet,
                        channels@[i],
                        opaths@[i],
                        tx.output@[i],
                    );
                let dup = exists|i: int, j: int| spec_dup_pair(channels@, i, j);
                let total_in = sum_u64(values_sat@);
                let total_out = sum_u64(spec_output_values(*tx));
                match r {
                    Ok(()) => {
                        &&& outs_ok
                        &&& !dup
                        &&& total_out <= total_in
                        &&& self.policy.fee_min_sat <= total_in - total_out
                            <= self.policy.fee_max_sat
                    },
                    Err(e) => {
                        &&& e.kind == ValidationErrorKind::Policy
                        &&& e.message@.len() > 0
                        &&& (!outs_ok ==> e.message@
                            == "validate_onchain_tx: output is not to a channel, the wallet or the allowlist"@)
                        &&& (outs_ok && dup ==> e.message@
                            == "validate_onchain_tx: duplicate funding outpoint"@)
                        &&& (outs_ok && !dup && total_out > total_in ==> e.message@
                            == "validate_onchain_tx"@ + ": fee underflow"@)
                        &&& (outs_ok && !dup && total_out <= total_in && total_in - total_out
                            < self.policy.fee_min_sat ==> e.message@ == spec_fee_low(
                            "validate_onchain_tx"@,
                            (total_in - total_out) as u64,
                            self.policy.fee_min_sat,
                        ))
                        &&& (outs_ok && !dup && total_out <= total_in && total_in - total_out
                            >= self.policy.fee_min_sat && total_in - total_out
                            > self.policy.fee_max_sat ==> e.message@ == spec_fee_high(
                            "validate_onchain_tx"@,
                            (total_in - total_out) as u64,
                            self.policy.fee_max_sat,
                        ))
                        &&& !(outs_ok && !dup && total_out <= total_in && self.policy.fee_min_sat
                            <= total_in - total_out <= self.policy.fee_max_sat)
                    },
                }
            }),
    {
        let mut i: usize = 0;
        while i < tx.output.len()
            invariant
                channels@.len() == tx.output@.len(),
                opaths@.len() == tx.output@.len(),
                i <= tx.output@.len(),
                forall|k: int|
                    0 <= k < i ==> #[trigger] spec_output_ok(
                        *wallet,
                        channels@[k],
                        opaths@[k],
                        tx.output@[k],
                    ),
            decreases tx.output@.len() - i,
        {
            let ok = match &channels[i] {
                Some(setup) => {
                    let fs = crate::channel::funding_script(setup);
                    bytes_equal(&fs, &tx.output[i].script_pubkey)
                },
                None => wallet.allowlist.contains(&tx.output[i].script_pubkey) || (opaths[i].len()
                    > 0 && wallet.can_spend(&opaths[i], &tx.output[i].script_pubkey)),
            };
            if !ok {
                let m =
                    "validate_onchain_tx: output is not to a channel, the wallet or the allowlist".to_owned();
                proof {
                    reveal_strlit(
                        "validate_onchain_tx: output is not to a channel, the wallet or the allowlist",
                    );
                    assert(!spec_output_ok(
                        *wallet,
                        channels@[i as int],
                        opaths@[i as int],
                        tx.output@[i as int],
                    ));
                }
                return Err(ValidationError::policy(m));
            }
            i += 1;
        }
        let mut j: usize = 1;
        while j < channels.len()
            invariant
                forall|k: int|
                    0 <= k < tx.output@.len() ==> #[trigger] spec_output_ok(
                        *wallet,
                        channels@[k],
                        opaths@[k],
                        tx.output@[k],
                    ),
                j >= 1,
                j <= channels@.len() || channels@.len() == 0,
                forall|a: int, b: int| b < j ==> !spec_dup_pair(channels@, a, b),
            decreases channels@.len() - j,
        {
            let mut k: usize = 0;
            while k < j
                invariant
                    forall|m: int|
                        0 <= m < tx.output@.len() ==> #[trigger] spec_output_ok(
                            *wallet,
                            channels@[m],
                            opaths@[m],
                            tx.output@[m],
                        ),
                    k <= j < channels@.len(),
                    forall|a: int, b: int| b < j ==> !spec_dup_pair(channels@, a, b),
                    forall|a: int| a < k ==> !spec_dup_pair(channels@, a, j as int),
                decreases j - k,
            {
                let dup = match (&channels[k], &channels[j]) {
                    (Some(a), Some(b)) => a.funding_outpoint.same_as(&b.funding_outpoint),
                    _ => false,
                };
                if dup {
                    let m = "validate_onchain_tx: duplicate funding outpoint".to_owned();
                    proof {
                        reveal_strlit("validate_onchain_tx: duplicate funding outpoint");
                        assert(spec_dup_pair(channels@, k as int, j as int));
                    }
                    return Err(ValidationError::policy(m));
                }
                k += 1;
            }
            j += 1;
        }
        proof {
            assert forall|a: int, b: int| !spec_dup_pair(channels@, a, b) by {}
        }
        let total_in = sum_values(values_sat);
        let total_out = sum_outputs(tx);
        if total_out > total_in {
            let mut m: String = "validate_onchain_tx".to_owned();
            push_str(&mut m, ": fee underflow");
            proof {
                reveal_strlit(": fee underflow");
            }
            return Err(ValidationError::policy(m));
        }
        self.validate_fee("validate_onchain_tx", total_in - total_out)
    }

    /// Phase 1 decoding of a mutual close: the transaction's one or two
    /// outputs are split into the holder's share and the counterparty's
    /// share, and the result is validated.  An output belongs to the holder
    /// when it pays the negotiated holder shutdown script or is derivable
    /// from the wallet at its claimed path.
    pub fn decode_and_validate_mutual_close_tx(
        &self,
        wallet: &Wallet,
        setup: &ChannelSetup,
        state: &EnforcementState,
        tx: &Transaction,
        opaths: &Vec<Vec<u32>>,
    ) -> (r: Result<(u64, u64), ValidationError>)
        requires
            opaths@.len() == tx.output@.len(),
        ensures
            ({
                let n = tx.output@.len();
                let h0 = n >= 1 && spec_holder_output(
                    *wallet,
                    *setup,
                    opaths@[0],
                    tx.output@[0],
                );
                let h1 = n >= 2 && spec_holder_output(
                    *wallet,
                    *setup,
                    opaths@[1],
                    tx.output@[1],
                );
                let accepts_one = if h0 {
                    spec_mutual_close_accepts(
                        self.policy,
                        *wallet,
                        *setup,
                        *state,
                        tx.output@[0].value,
                        0u64,
                        Some(tx.output@[0].script_pubkey@),
                        None,
                        opaths@[0]@,
                    )
                } else {
                    spec_mutual_close_accepts(
                        self.policy,
                        *wallet,
                        *setup,
                        *state,
                        0u64,
                        tx.output@[0].value,
                        None,
                        Some(tx.output@[0].script_pubkey@),
                        Seq::<u32>::empty(),
                    )
                };
                let accepts_two = if h0 {
                    spec_mutual_close_accepts(
                        self.policy,
                        *wallet,
                        *setup,
                        *state,
                        tx.output@[0].value,
                        tx.output@[1].value,
                        Some(tx.output@[0].script_pubkey@),
                        Some(tx.output@[1].script_pubkey@),
                        opaths@[0]@,
                    )
                } else {
                    spec_mutual_close_accepts(
                        self.policy,
                        *wallet,
                        *setup,
                        *state,
                        tx.output@[1].value,
                        tx.output@[0].value,
                        Some(tx.output@[1].script_pubkey@),
                        Some(tx.output@[0].script_pubkey@),
                        opaths@[1]@,
                    )
                };
                match r {
                    Ok(v) => {
                        &&& 1 <= n <= 2
                        &&& (n == 1 ==> accepts_one && v == (if h0 {
                            (tx.output@[0].value, 0u64)
                        } else {
                            (0u64, tx.output@[0].value)
                        }))
                        &&& (n == 2 ==> h0 != h1 && accepts_two && v == (if h0 {
                            (tx.output@[0].value, tx.output@[1].value)
                        } else {
                            (tx.output@[1].value, tx.output@[0].value)
                        }))
                    },
                    Err(e) => {
                        &&& e.message@.len() > 0
                        &&& ((n < 1 || n > 2) ==> e.kind
                            == ValidationErrorKind::TransactionFormat && e.message@
                            == crate::error::msg_n(
                            "decode_and_validate_mutual_close_tx: bad number of mutual close outputs: "@,
                            n as u64,
                            ""@,
                        ))
                        &&& (n == 2 && h0 == h1 ==> e.kind
                            == ValidationErrorKind::TransactionFormat && e.message@
                            == "decode_and_validate_mutual_close_tx: cannot split the outputs between the parties"@)
                        &&& (n == 1 ==> e.kind == ValidationErrorKind::Policy && !accepts_one)
                        &&& (n == 2 && h0 != h1 ==> e.kind == ValidationErrorKind::Policy
                            && !accepts_two)
                    },
                }
            }),
    {
        if tx.output.len() < 1 || tx.output.len() > 2 {
            proof {
                lemma_u64_dec_len(tx.output@.len() as u64);
            }
            return Err(ValidationError::transaction_format(crate::error::build_n(
                "decode_and_validate_mutual_close_tx: bad number of mutual close outputs: ",
                tx.output.len() as u64,
                "",
            )));
        }
        let h0 = self.is_holder_output(wallet, setup, &opaths[0], &tx.output[0]);
        if tx.output.len() == 1 {
            let (to_holder, to_counterparty, holder_script, cp_script, hint) = if h0 {
                (
                    tx.output[0].value,
                    0u64,
                    Some(crate::bytes::clone_bytes(&tx.output[0].script_pubkey)),
                    None,
                    crate::bytes::clone_path(&opaths[0]),
                )
            } else {
                (0u64, tx.output[0].value, None, Some(
                    crate::bytes::clone_bytes(&tx.output[0].script_pubkey),
                ), Vec::new())
            };
            return match self.validate_mutual_close_tx(
                wallet,
                setup,
                state,
                to_holder,
                to_counterparty,
                &holder_script,
                &cp_script,
                &hint,
            ) {
                Ok(()) => Ok((to_holder, to_counterparty)),
                Err(e) => Err(e),
            };
        }
        let h1 = self.is_holder_output(wallet, setup, &opaths[1], &tx.output[1]);
        if h0 == h1 {
            let m =
                "decode_and_validate_mutual_close_tx: cannot split the outputs between the parties".to_owned();
            proof {
                reveal_strlit(
                    "decode_and_validate_mutual_close_tx: cannot split the outputs between the parties",
                );
            }
            return Err(ValidationError::transaction_format(m));
        }
        let (hi, ci): (usize, usize) = if h0 {
            (0, 1)
        } else {
            (1, 0)
        };
        let to_holder = tx.output[hi].value;
        let to_counterparty = tx.output[ci].value;
        let holder_script = Some(crate::bytes::clone_bytes(&tx.output[hi].script_pubkey));
        let cp_script = Some(crate::bytes::clone_bytes(&tx.output[ci].script_pubkey));
        let hint = crate::bytes::clone_path(&opaths[hi]);
        match self.validate_mutual_close_tx(
            wallet,
            setup,
            state,
            to_holder,
            to_counterparty,
            &holder_script,
            &cp_script,
            &hint,
        ) {
            Ok(()) => Ok((to_holder, to_counterparty)),
            Err(e) => Err(e),
        }
    }

    /// Whether an output pays the holder: the negotiated holder shutdown
    /// script, or a wallet destination at the output's claimed path.
    fn is_holder_output(
        &self,
        wallet: &Wallet,
        setup: &ChannelSetup,
        opath: &Vec<u32>,
        out: &crate::tx::TxOut,
    ) -> (r: bool)
        ensures
            r == spec_holder_output(*wallet, *setup, *opath, *out),
    {
        let negotiated = match &setup.holder_shutdown_script {
            Some(n) => bytes_equal(n, &out.script_pubkey),
            None => false,
        };
        negotiated || (opath.len() > 0 && wallet.can_spend(opath, &out.script_pubkey))
    }

    /// Phase 2 validation of a mutual close: both outputs must go to
    /// approved destinations, the holder's share must reach the safe floor
    /// both commitment views support, and the fee must be within bounds.
    /// On success the caller records `mutual_close_signed`.
    pub fn validate_mutual_close_tx(
        &self,
        wallet: &Wallet,
        setup: &ChannelSetup,
        state: &EnforcementState,
        to_holder_value_sat: u64,
        to_counterparty_value_sat: u64,
        holder_shutdown_script: &Option<Vec<u8>>,
        counterparty_shutdown_script: &Option<Vec<u8>>,
        holder_wallet_path_hint: &Vec<u32>,
    ) -> (r: Result<(), ValidationError>)
        ensures
            ({
                let accepts = spec_mutual_close_accepts(
                    self.policy,
                    *wallet,
                    *setup,
                    *state,
                    to_holder_value_sat,
                    to_counterparty_value_sat,
                    match holder_shutdown_script {
                        Some(s) => Some(s@),
                        None => None,
                    },
                    match counterparty_shutdown_script {
                        Some(s) => Some(s@),
                        None => None,
                    },
                    holder_wallet_path_hint@,
                );
                match r {
                    Ok(()) => accepts,
                    Err(e) => {
                        &&& e.kind == ValidationErrorKind::Policy
                        &&& e.message@.len() > 0
                        &&& !accepts
                    },
                }
            }),
    {
        if let Some(s) = holder_shutdown_script {
            let negotiated = match &setup.holder_shutdown_script {
                Some(n) => bytes_equal(n, s),
                None => false,
            };
            let ok = negotiated || wallet.can_spend(holder_wallet_path_hint, s)
                || wallet.allowlist.contains(s);
            if !ok {
                let m =
                    "validate_mutual_close_tx: holder output is not to wallet, allowlist or the negotiated script".to_owned();
                proof {
                    reveal_strlit(
                        "validate_mutual_close_tx: holder output is not to wallet, allowlist or the negotiated script",
                    );
                }
                return Err(ValidationError::policy(m));
            }
        }
        if let Some(s) = counterparty_shutdown_script {
            let negotiated = match &setup.counterparty_shutdown_script {
                Some(n) => bytes_equal(n, s),
                None => false,
            };
            let ok = negotiated || wallet.allowlist.contains(s);
            if !ok {
                let m =
                    "validate_mutual_close_tx: counterparty output is not the negotiated script or allowlisted".to_owned();
                proof {
                    reveal_strlit(
                        "validate_mutual_close_tx: counterparty output is not the negotiated script or allowlisted",
                    );
                }
                return Err(ValidationError::policy(m));
            }
        }
        match state.minimum_to_holder_value(self.policy.epsilon_sat) {
            Some(floor) => {
                if to_holder_value_sat < floor {
                    proof {
                        lemma_u64_dec_len(to_holder_value_sat);
                    }
                    return Err(ValidationError::policy(build_nn(
                        "validate_mutual_close_tx: to_holder value ",
                        to_holder_value_sat,
                        " below minimum ",
                        floor,
                    )));
                }
            },
            None => {
                let m =
                    "validate_mutual_close_tx: cannot determine a safe to_holder minimum".to_owned();
                proof {
                    reveal_strlit(
                        "validate_mutual_close_tx: cannot determine a safe to_holder minimum",
                    );
                }
                return Err(ValidationError::policy(m));
            },
        }
        if to_holder_value_sat > setup.channel_value_sat || setup.channel_value_sat
            - to_holder_value_sat < to_counterparty_value_sat {
            let m = "validate_mutual_close_tx: fee underflow".to_owned();
            proof {
                reveal_strlit("validate_mutual_close_tx: fee underflow");
            }
            return Err(ValidationError::policy(m));
        }
        let fee = setup.channel_value_sat - to_holder_value_sat - to_counterparty_value_sat;
        self.validate_fee("validate_mutual_close_tx", fee)
    }
}

} // verus!
