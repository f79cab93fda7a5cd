//! Per-channel enforcement state: the commitment-number and revocation state
//! machine that decides which signing requests may advance channel state.

use vstd::prelude::*;

use crate::channel::ChannelSetup;
use crate::error::{
    build_n, build_nn, lemma_u64_dec_len, msg_n, msg_nn, ValidationError, ValidationErrorKind,
};
use crate::min_opt;
use crate::model::PubKey;
use crate::summary::{
    htlc_summary, max_combine, min_combine, summarize_payments, PaymentSummary,
};
use crate::tx::{
    lemma_sum_values_nonneg, CommitmentInfo2, HTLCInfo2, PreimageMap,
};

verus! {

/// Blockchain state used by the validator.
#[derive(Clone, Copy, Debug, PartialEq, Eq)]
pub struct ChainState {
    /// The current blockchain height.
    pub current_height: u32,
    /// Zero or the number of confirmations of the funding tx.
    pub funding_depth: u32,
    /// Zero or the number of confirmations of a double-spend of the funding tx.
    pub funding_double_spent_depth: u32,
    /// Zero or the number of confirmations of a closing tx.
    pub closing_depth: u32,
}

/// Claimable balance before and after a new commitment tx, in satoshi.
#[derive(Clone, Copy, Debug, PartialEq, Eq)]
pub struct BalanceDelta(pub u64, pub u64);

impl Default for BalanceDelta {
    /// The zero delta.
    fn default() -> (r: Self)
        ensures
            r.0 == 0 && r.1 == 0,
    {
        BalanceDelta(0, 0)
    }
}

/// How a proposed counterparty commitment number relates to the current
/// state: a retry of the same commitment, an advance by one, or a reject
/// with a closed set of reasons.
#[derive(Clone, Copy, Debug, PartialEq, Eq, Structural)]
pub enum CpCommitOutcome {
    /// Commitment numbers start at 1; 0 can never be set.
    RejectZero,
    /// The number would regress behind what the revocation state requires.
    RejectTooSmallVsRevoke,
    /// The number would run more than one step ahead of revocation.
    RejectTooLargeVsRevoke,
    /// Same number, same point: an idempotent retry.
    Retry,
    /// Same number but a different per-commitment point.
    RejectRetryPointMismatch,
    /// The next number in sequence: the state advances.
    Advance,
    /// Any other progression.
    RejectProgression,
}

/// Enforcement state for a channel.
///
/// This keeps track of commitments on both sides and whether the channel
/// was closed.
#[derive(Clone, Debug, PartialEq)]
pub struct EnforcementState {
    pub next_holder_commit_num: u64,
    pub next_counterparty_commit_num: u64,
    pub next_counterparty_revoke_num: u64,
    /// Point for commitment `next_counterparty_commit_num - 1`.
    pub current_counterparty_point: Option<PubKey>,
    /// Point for commitment `next_counterparty_commit_num - 2`.
    pub previous_counterparty_point: Option<PubKey>,
    pub current_holder_commit_info: Option<CommitmentInfo2>,
    pub current_counterparty_commit_info: Option<CommitmentInfo2>,
    pub previous_counterparty_commit_info: Option<CommitmentInfo2>,
    pub mutual_close_signed: bool,
    pub initial_holder_value: u64,
}

impl EnforcementState {
    /// The invariant every reachable state satisfies: the counterparty
    /// commitment number stays within one or two steps of the revocation
    /// number, the points and summaries demanded by the current numbers are
    /// present, and the previous summary is present exactly while the state
    /// it describes is not yet revoked.
    pub open spec fn wf(self) -> bool {
        let c = self.next_counterparty_commit_num;
        let r = self.next_counterparty_revoke_num;
        &&& (c == 0 ==> r == 0 && self.current_counterparty_point is None
            && self.previous_counterparty_point is None
            && self.current_counterparty_commit_info is None
            && self.previous_counterparty_commit_info is None)
        &&& (c >= 1 ==> r + 1 <= c <= r + 2)
        &&& (c >= 1 ==> self.current_counterparty_point is Some
            && self.current_counterparty_commit_info is Some)
        &&& (c >= 2 ==> self.previous_counterparty_point is Some)
        &&& (self.previous_counterparty_commit_info is Some <==> c >= 2 && r + 2 <= c)
        &&& (self.next_holder_commit_num >= 1 ==> self.current_holder_commit_info is Some)
        &&& (self.current_holder_commit_info matches Some(i) ==> i.wf())
        &&& (self.current_counterparty_commit_info matches Some(i) ==> i.wf())
        &&& (self.previous_counterparty_commit_info matches Some(i) ==> i.wf())
    }

    /// Create state for a new channel.
    ///
    /// `initial_holder_value` is in satoshi and represents the lowest value
    /// that we expect the initial commitment to send to us.
    pub fn new(initial_holder_value: u64) -> (r: EnforcementState)
        ensures
            r.next_holder_commit_num == 0,
            r.next_counterparty_commit_num == 0,
            r.next_counterparty_revoke_num == 0,
            r.current_counterparty_point is None,
            r.previous_counterparty_point is None,
            r.current_holder_commit_info is None,
            r.current_counterparty_commit_info is None,
            r.previous_counterparty_commit_info is None,
            !r.mutual_close_signed,
            r.initial_holder_value == initial_holder_value,
            r.wf(),
    {
        EnforcementState {
            next_holder_commit_num: 0,
            next_counterparty_commit_num: 0,
            next_counterparty_revoke_num: 0,
            current_counterparty_point: None,
            previous_counterparty_point: None,
            current_holder_commit_info: None,
            current_counterparty_commit_info: None,
            previous_counterparty_commit_info: None,
            mutual_close_signed: false,
            initial_holder_value,
        }
    }

    /// Whether both current commitments exist and their views of the value
    /// `h` (holder view) and `c` (counterparty view) agree within `eps`.
    pub open spec fn views_agree_to_holder(self, eps: u64) -> bool {
        &&& self.current_holder_commit_info is Some
        &&& self.current_counterparty_commit_info is Some
        &&& {
            let h = self.current_holder_commit_info->0.to_broadcaster_value_sat;
            let c = self.current_counterparty_commit_info->0.to_countersigner_value_sat;
            (if h >= c {
                h - c
            } else {
                c - h
            }) <= eps
        }
    }

    /// Returns the minimum amount to_holder from both commitments or
    /// None if the amounts are not within epsilon_sat.
    pub fn minimum_to_holder_value(&self, epsilon_sat: u64) -> (r: Option<u64>)
        ensures
            r is Some <==> self.views_agree_to_holder(epsilon_sat),
            r matches Some(v) ==> {
                let h = self.current_holder_commit_info->0.to_broadcaster_value_sat;
                let c = self.current_counterparty_commit_info->0.to_countersigner_value_sat;
                v == if h <= c {
                    h
                } else {
                    c
                }
            },
    {
        if let Some(hinfo) = &self.current_holder_commit_info {
            if let Some(cinfo) = &self.current_counterparty_commit_info {
                let hval = hinfo.to_broadcaster_value_sat;
                let cval = cinfo.to_countersigner_value_sat;
                if hval > cval {
                    if hval - cval <= epsilon_sat {
                        return Some(cval);
                    }
                } else {
                    if cval - hval <= epsilon_sat {
                        return Some(hval);
                    }
                }
            }
        }
        None
    }

    /// Whether both current commitments exist and their views of the
    /// counterparty's value agree within `eps`.
    pub open spec fn views_agree_to_counterparty(self, eps: u64) -> bool {
        &&& self.current_holder_commit_info is Some
        &&& self.current_counterparty_commit_info is Some
        &&& {
            let h = self.current_holder_commit_info->0.to_countersigner_value_sat;
            let c = self.current_counterparty_commit_info->0.to_broadcaster_value_sat;
            (if h >= c {
                h - c
            } else {
                c - h
            }) <= eps
        }
    }

    /// Returns the minimum amount to_counterparty from both commitments or
    /// None if the amounts are not within epsilon_sat.
    pub fn minimum_to_counterparty_value(&self, epsilon_sat: u64) -> (r: Option<u64>)
        ensures
            r is Some <==> self.views_agree_to_counterparty(epsilon_sat),
            r matches Some(v) ==> {
                let h = self.current_holder_commit_info->0.to_countersigner_value_sat;
                let c = self.current_counterparty_commit_info->0.to_broadcaster_value_sat;
                v == if h <= c {
                    h
                } else {
                    c
                }
            },
    {
        if let Some(hinfo) = &self.current_holder_commit_info {
            if let Some(cinfo) = &self.current_counterparty_commit_info {
                let hval = hinfo.to_countersigner_value_sat;
                let cval = cinfo.to_broadcaster_value_sat;
                if hval > cval {
                    if hval - cval <= epsilon_sat {
                        return Some(cval);
                    }
                } else {
                    if cval - hval <= epsilon_sat {
                        return Some(hval);
                    }
                }
            }
        }
        None
    }

    /// Set next holder commitment number: only a retry of the current number
    /// or an advance by one is accepted, and the supplied summary becomes the
    /// current holder commitment summary.
    pub fn set_next_holder_commit_num(
        &mut self,
        num: u64,
        current_commitment_info: CommitmentInfo2,
    ) -> (r: Result<(), ValidationError>)
        requires
            old(self).wf(),
            current_commitment_info.wf(),
        ensures
            final (self).wf(),
            ({
                let cur = old(self).next_holder_commit_num;
                match r {
                    Ok(()) => (num == cur || num == cur + 1) && *final (self)
                        == (EnforcementState {
                        next_holder_commit_num: num,
                        current_holder_commit_info: Some(current_commitment_info),
                        ..*old(self)
                    }),
                    Err(e) => {
                        &&& num != cur && num != cur + 1
                        &&& *final (self) == *old(self)
                        &&& e.kind == ValidationErrorKind::Policy
                        &&& e.message@ == msg_nn(
                            "set_next_holder_commit_num: invalid progression: "@,
                            cur,
                            " to "@,
                            num,
                        )
                        &&& e.message@.len() > 0
                    },
                }
            }),
    {
        let current = self.next_holder_commit_num;
        if num != current && !(num > current && num - current == 1) {
            proof {
                lemma_u64_dec_len(current);
            }
            return Err(ValidationError::policy(build_nn(
                "set_next_holder_commit_num: invalid progression: ",
                current,
                " to ",
                num,
            )));
        }
        self.next_holder_commit_num = num;
        self.current_holder_commit_info = Some(current_commitment_info);
        Ok(())
    }

    /// Get the current holder commitment summary; the caller must name the
    /// commitment number it believes is current.
    pub fn get_current_holder_commitment_info(&self, commitment_number: u64) -> (r: Result<
        CommitmentInfo2,
        ValidationError,
    >)
        requires
            self.wf(),
            commitment_number < u64::MAX,
        ensures
            match r {
                Ok(i) => commitment_number + 1 == self.next_holder_commit_num && i.eqv(
                    self.current_holder_commit_info->0,
                ),
                Err(e) => {
                    &&& commitment_number + 1 != self.next_holder_commit_num
                    &&& e.kind == ValidationErrorKind::Policy
                    &&& e.message@ == msg_nn(
                        "get_current_holder_commitment_info: invalid next holder commitment number: "@,
                        (commitment_number + 1) as u64,
                        " != "@,
                        self.next_holder_commit_num,
                    )
                    &&& e.message@.len() > 0
                },
            },
    {
        if commitment_number + 1 != self.next_holder_commit_num {
            proof {
                lemma_u64_dec_len((commitment_number + 1) as u64);
            }
            return Err(ValidationError::policy(build_nn(
                "get_current_holder_commitment_info: invalid next holder commitment number: ",
                commitment_number + 1,
                " != ",
                self.next_holder_commit_num,
            )));
        }
        match &self.current_holder_commit_info {
            Some(i) => Ok(i.duplicate()),
            None => {
                proof {
                    assert(false);
                }
                Err(ValidationError::internal("unreachable".to_owned()))
            },
        }
    }

    /// The classification of a proposed counterparty commitment number and
    /// point against this state.
    pub open spec fn cp_commit_outcome(self, num: u64, point: PubKey) -> CpCommitOutcome {
        let rev = self.next_counterparty_revoke_num;
        let cur = self.next_counterparty_commit_num;
        let delta: int = if num == 1 {
            1
        } else {
            2
        };
        if num == 0 {
            CpCommitOutcome::RejectZero
        } else if (num as int) < rev + delta {
            CpCommitOutcome::RejectTooSmallVsRevoke
        } else if (num as int) > rev + 2 {
            CpCommitOutcome::RejectTooLargeVsRevoke
        } else if num == cur {
            if point@ == self.current_counterparty_point->0@ {
                CpCommitOutcome::Retry
            } else {
                CpCommitOutcome::RejectRetryPointMismatch
            }
        } else if num == cur + 1 {
            CpCommitOutcome::Advance
        } else {
            CpCommitOutcome::RejectProgression
        }
    }

    /// The state after accepting a new counterparty commitment: the current
    /// point and summary rotate into the previous slots.
    pub open spec fn advanced_cp_commit(
        self,
        num: u64,
        point: PubKey,
        info: CommitmentInfo2,
    ) -> EnforcementState {
        EnforcementState {
            next_counterparty_commit_num: num,
            previous_counterparty_point: self.current_counterparty_point,
            previous_counterparty_commit_info: self.current_counterparty_commit_info,
            current_counterparty_point: Some(point),
            current_counterparty_commit_info: Some(info),
            ..self
        }
    }

    /// Set next counterparty commitment number: a retry with the same point
    /// is an accepted no-op, an advance by one rotates the point and summary,
    /// and everything else is refused without touching the state.
    pub fn set_next_counterparty_commit_num(
        &mut self,
        num: u64,
        current_point: PubKey,
        current_commitment_info: CommitmentInfo2,
    ) -> (r: Result<(), ValidationError>)
        requires
            old(self).wf(),
            current_commitment_info.wf(),
        ensures
            final (self).wf(),
            ({
                let o = old(self).cp_commit_outcome(num, current_point);
                let rev = old(self).next_counterparty_revoke_num;
                let cur = old(self).next_counterparty_commit_num;
                match r {
                    Ok(()) => (o == CpCommitOutcome::Retry && *final (self) == *old(self)) || (o
                        == CpCommitOutcome::Advance && *final (self) == old(
                        self,
                    ).advanced_cp_commit(num, current_point, current_commitment_info)),
                    Err(e) => {
                        &&& *final (self) == *old(self)
                        &&& e.kind == ValidationErrorKind::Policy
                        &&& e.message@.len() > 0
                        &&& o != CpCommitOutcome::Retry && o != CpCommitOutcome::Advance
                        &&& (o == CpCommitOutcome::RejectZero ==> e.message@
                            == "set_next_counterparty_commit_num: can't set next to 0"@)
                        &&& (o == CpCommitOutcome::RejectTooSmallVsRevoke ==> e.message@ == msg_nn(
                            "set_next_counterparty_commit_num: "@,
                            num,
                            " too small relative to next_counterparty_revoke_num "@,
                            rev,
                        ))
                        &&& (o == CpCommitOutcome::RejectTooLargeVsRevoke ==> e.message@ == msg_nn(
                            "set_next_counterparty_commit_num: "@,
                            num,
                            " too large relative to next_counterparty_revoke_num "@,
                            rev,
                        ))
                        &&& (o == CpCommitOutcome::RejectRetryPointMismatch ==> e.message@ == msg_n(
                            "set_next_counterparty_commit_num: retry "@,
                            num,
                            ": point different than prior"@,
                        ))
                        &&& (o == CpCommitOutcome::RejectProgression ==> e.message@ == msg_nn(
                            "set_next_counterparty_commit_num: invalid progression: "@,
                            cur,
                            " to "@,
                            num,
                        ))
                    },
                }
            }),
    {
        if num == 0 {
            let m = "set_next_counterparty_commit_num: can't set next to 0".to_owned();
            proof {
                reveal_strlit("set_next_counterparty_commit_num: can't set next to 0");
            }
            return Err(ValidationError::policy(m));
        }
        let delta: u64 = if num == 1 {
            1
        } else {
            2
        };
        let rev = self.next_counterparty_revoke_num;
        if num <= rev || num - rev < delta {
            proof {
                lemma_u64_dec_len(num);
            }
            return Err(ValidationError::policy(build_nn(
                "set_next_counterparty_commit_num: ",
                num,
                " too small relative to next_counterparty_revoke_num ",
                rev,
            )));
        }
        if num - rev > 2 {
            proof {
                lemma_u64_dec_len(num);
            }
            return Err(ValidationError::policy(build_nn(
                "set_next_counterparty_commit_num: ",
                num,
                " too large relative to next_counterparty_revoke_num ",
                rev,
            )));
        }
        let current = self.next_counterparty_commit_num;
        if num == current {
            // This is a retry; the commitment number is at least 1, so the
            // invariant guarantees the current point is recorded.
            let prior = self.current_counterparty_point.unwrap();
            if !prior.eq_bytes(&current_point) {
                proof {
                    lemma_u64_dec_len(num);
                }
                return Err(ValidationError::policy(build_n(
                    "set_next_counterparty_commit_num: retry ",
                    num,
                    ": point different than prior",
                )));
            }
            self.next_counterparty_commit_num = num;
            Ok(())
        } else if num > current && num - current == 1 {
            self.previous_counterparty_point = self.current_counterparty_point;
            self.previous_counterparty_commit_info = self.current_counterparty_commit_info.take();
            self.current_counterparty_point = Some(current_point);
            self.current_counterparty_commit_info = Some(current_commitment_info);
            self.next_counterparty_commit_num = num;
            Ok(())
        } else {
            proof {
                lemma_u64_dec_len(current);
            }
            Err(ValidationError::policy(build_nn(
                "set_next_counterparty_commit_num: invalid progression: ",
                current,
                " to ",
                num,
            )))
        }
    }

    /// Previous counterparty commitment point: the point for `num`, which
    /// must be one or two behind the next counterparty commitment number.
    pub fn get_previous_counterparty_point(&self, num: u64) -> (r: Result<
        PubKey,
        ValidationError,
    >)
        requires
            self.wf(),
        ensures
            match r {
                Ok(p) => (num + 1 == self.next_counterparty_commit_num && p
                    == self.current_counterparty_point->0) || (num + 2
                    == self.next_counterparty_commit_num && p
                    == self.previous_counterparty_point->0),
                Err(e) => {
                    &&& num + 1 != self.next_counterparty_commit_num
                    &&& num + 2 != self.next_counterparty_commit_num
                    &&& e.kind == ValidationErrorKind::Policy
                    &&& e.message@ == msg_nn(
                        "get_previous_counterparty_point: "@,
                        num,
                        " out of range, next is "@,
                        self.next_counterparty_commit_num,
                    )
                    &&& e.message@.len() > 0
                },
            },
    {
        let c = self.next_counterparty_commit_num;
        if num < c && c - num == 1 {
            Ok(self.current_counterparty_point.unwrap())
        } else if num < c && c - num == 2 {
            Ok(self.previous_counterparty_point.unwrap())
        } else {
            proof {
                lemma_u64_dec_len(num);
            }
            Err(ValidationError::policy(build_nn(
                "get_previous_counterparty_point: ",
                num,
                " out of range, next is ",
                c,
            )))
        }
    }

    /// Previous counterparty commitment summary for `num`, which must be one
    /// or two behind the next counterparty commitment number; the summary two
    /// behind is gone once that commitment has been revoked.
    pub fn get_previous_counterparty_commit_info(&self, num: u64) -> (r: Result<
        CommitmentInfo2,
        ValidationError,
    >)
        requires
            self.wf(),
            num + 2 == self.next_counterparty_commit_num ==> self.next_counterparty_revoke_num + 2
                <= self.next_counterparty_commit_num,
        ensures
            match r {
                Ok(i) => (num + 1 == self.next_counterparty_commit_num && i.eqv(
                    self.current_counterparty_commit_info->0,
                )) || (num + 2 == self.next_counterparty_commit_num && i.eqv(
                    self.previous_counterparty_commit_info->0,
                )),
                Err(e) => {
                    &&& num + 1 != self.next_counterparty_commit_num
                    &&& num + 2 != self.next_counterparty_commit_num
                    &&& e.kind == ValidationErrorKind::Policy
                    &&& e.message@ == msg_nn(
                        "get_previous_counterparty_commit_info: "@,
                        num,
                        " out of range, next is "@,
                        self.next_counterparty_commit_num,
                    )
                    &&& e.message@.len() > 0
                },
            },
    {
        let c = self.next_counterparty_commit_num;
        if num < c && c - num == 1 {
            match &self.current_counterparty_commit_info {
                Some(i) => Ok(i.duplicate()),
                None => {
                    proof {
                        assert(false);
                    }
                    Err(ValidationError::internal("unreachable".to_owned()))
                },
            }
        } else if num < c && c - num == 2 {
            match &self.previous_counterparty_commit_info {
                Some(i) => Ok(i.duplicate()),
                None => {
                    proof {
                        assert(false);
                    }
                    Err(ValidationError::internal("unreachable".to_owned()))
                },
            }
        } else {
            proof {
                lemma_u64_dec_len(num);
            }
            Err(ValidationError::policy(build_nn(
                "get_previous_counterparty_commit_info: ",
                num,
                " out of range, next is ",
                c,
            )))
        }
    }

    /// Whether setting the next counterparty revocation number to `num` is
    /// accepted: it must stay within the window the commitment number allows
    /// and move by zero or one.
    pub open spec fn cp_revoke_accepts(self, num: u64) -> bool {
        let c = self.next_counterparty_commit_num;
        let cur = self.next_counterparty_revoke_num;
        &&& num != 0
        &&& num + 2 >= c
        &&& num + 1 <= c
        &&& (num == cur || num == cur + 1)
    }

    /// The state after a revocation: the revoked commitment's summary is
    /// dropped, but its point is retained for retries.
    pub open spec fn revoked_cp(self, num: u64) -> EnforcementState {
        EnforcementState {
            next_counterparty_revoke_num: num,
            previous_counterparty_commit_info: if num + 1 == self.next_counterparty_commit_num {
                None
            } else {
                self.previous_counterparty_commit_info
            },
            ..self
        }
    }

    /// Set next counterparty revoked commitment number.  On an advance the
    /// previous commitment summary is cleared — the revoked state must never
    /// be signed again — while the previous point is kept for retries.
    pub fn set_next_counterparty_revoke_num(&mut self, num: u64) -> (r: Result<
        (),
        ValidationError,
    >)
        requires
            old(self).wf(),
        ensures
            final (self).wf(),
            ({
                let c = old(self).next_counterparty_commit_num;
                let cur = old(self).next_counterparty_revoke_num;
                match r {
                    Ok(()) => old(self).cp_revoke_accepts(num) && *final (self) == old(
                        self,
                    ).revoked_cp(num),
                    Err(e) => {
                        &&& !old(self).cp_revoke_accepts(num)
                        &&& *final (self) == *old(self)
                        &&& e.kind == ValidationErrorKind::Policy
                        &&& e.message@.len() > 0
                        &&& (num == 0 ==> e.message@
                            == "set_next_counterparty_revoke_num: can't set next to 0"@)
                        &&& (num != 0 && num + 2 < c ==> e.message@ == msg_nn(
                            "set_next_counterparty_revoke_num: "@,
                            num,
                            " too small relative to next_counterparty_commit_num "@,
                            c,
                        ))
                        &&& (num != 0 && num + 2 >= c && num + 1 > c ==> e.message@ == msg_nn(
                            "set_next_counterparty_revoke_num: "@,
                            num,
                            " too large relative to next_counterparty_commit_num "@,
                            c,
                        ))
                        &&& (num != 0 && num + 2 >= c && num + 1 <= c && num != cur && num != cur
                            + 1 ==> e.message@ == msg_nn(
                            "set_next_counterparty_revoke_num: invalid progression: "@,
                            cur,
                            " to "@,
                            num,
                        ))
                    },
                }
            }),
    {
        if num == 0 {
            let m = "set_next_counterparty_revoke_num: can't set next to 0".to_owned();
            proof {
                reveal_strlit("set_next_counterparty_revoke_num: can't set next to 0");
            }
            return Err(ValidationError::policy(m));
        }
        let c = self.next_counterparty_commit_num;
        if num < c && c - num > 2 {
            proof {
                lemma_u64_dec_len(num);
            }
            return Err(ValidationError::policy(build_nn(
                "set_next_counterparty_revoke_num: ",
                num,
                " too small relative to next_counterparty_commit_num ",
                c,
            )));
        }
        if num >= c {
            proof {
                lemma_u64_dec_len(num);
            }
            return Err(ValidationError::policy(build_nn(
                "set_next_counterparty_revoke_num: ",
                num,
                " too large relative to next_counterparty_commit_num ",
                c,
            )));
        }
        let current = self.next_counterparty_revoke_num;
        if num != current && !(num > current && num - current == 1) {
            proof {
                lemma_u64_dec_len(current);
            }
            return Err(ValidationError::policy(build_nn(
                "set_next_counterparty_revoke_num: invalid progression: ",
                current,
                " to ",
                num,
            )));
        }
        // Remove any revoked commitment state.  The previous point is kept:
        // it is still needed to validate a retried counterparty signing of
        // the just-revoked state.
        if c - num == 1 {
            self.previous_counterparty_commit_info = None;
        }
        self.next_counterparty_revoke_num = num;
        Ok(())
    }

    /// The holder-offered HTLCs considered by the outgoing summary: those of
    /// the proposed holder commitment, else of the current one, else none.
    pub open spec fn spec_holder_offered(
        self,
        new_holder_tx: Option<&CommitmentInfo2>,
    ) -> Seq<HTLCInfo2> {
        if new_holder_tx is Some {
            new_holder_tx->0.offered_htlcs@
        } else if self.current_holder_commit_info is Some {
            self.current_holder_commit_info->0.offered_htlcs@
        } else {
            Seq::empty()
        }
    }

    /// The counterparty-received HTLCs considered by the outgoing summary.
    pub open spec fn spec_counterparty_received(
        self,
        new_counterparty_tx: Option<&CommitmentInfo2>,
    ) -> Seq<HTLCInfo2> {
        if new_counterparty_tx is Some {
            new_counterparty_tx->0.received_htlcs@
        } else if self.current_counterparty_commit_info is Some {
            self.current_counterparty_commit_info->0.received_htlcs@
        } else {
            Seq::empty()
        }
    }

    /// The holder-received HTLCs considered by the incoming summary.
    pub open spec fn spec_holder_received(
        self,
        new_holder_tx: Option<&CommitmentInfo2>,
    ) -> Seq<HTLCInfo2> {
        if new_holder_tx is Some {
            new_holder_tx->0.received_htlcs@
        } else if self.current_holder_commit_info is Some {
            self.current_holder_commit_info->0.received_htlcs@
        } else {
            Seq::empty()
        }
    }

    /// The counterparty-offered HTLCs considered by the incoming summary.
    pub open spec fn spec_counterparty_offered(
        self,
        new_counterparty_tx: Option<&CommitmentInfo2>,
    ) -> Seq<HTLCInfo2> {
        if new_counterparty_tx is Some {
            new_counterparty_tx->0.offered_htlcs@
        } else if self.current_counterparty_commit_info is Some {
            self.current_counterparty_commit_info->0.offered_htlcs@
        } else {
            Seq::empty()
        }
    }

    /// Summarize in-flight outgoing payments, possibly with a new holder or
    /// counterparty commitment tx.  HTLCs belonging to one payment are
    /// summed within each commitment; the greater of the two views is taken
    /// as the in-flight value, since an outgoing payment is at risk as soon
    /// as either commitment contains it.
    pub fn payments_summary(
        &self,
        new_holder_tx: Option<&CommitmentInfo2>,
        new_counterparty_tx: Option<&CommitmentInfo2>,
    ) -> (r: PaymentSummary)
        requires
            self.wf(),
            new_holder_tx matches Some(i) ==> i.wf(),
            new_counterparty_tx matches Some(i) ==> i.wf(),
        ensures
            r.wf(),
            forall|h: Seq<u8>| #[trigger] r.spec_get(h) == max_combine(
                htlc_summary(self.spec_holder_offered(new_holder_tx), h),
                htlc_summary(self.spec_counterparty_received(new_counterparty_tx), h),
            ),
    {
        let mut holder_summary: PaymentSummary = match new_holder_tx {
            Some(i) => summarize_offered(i),
            None => match &self.current_holder_commit_info {
                Some(i) => summarize_offered(i),
                None => PaymentSummary::new(),
            },
        };
        let counterparty_summary: PaymentSummary = match new_counterparty_tx {
            Some(i) => summarize_received(i),
            None => match &self.current_counterparty_commit_info {
                Some(i) => summarize_received(i),
                None => PaymentSummary::new(),
            },
        };
        holder_summary.merge_max(&counterparty_summary);
        holder_summary
    }

    /// Summarize in-flight incoming payments, possibly with a new holder or
    /// counterparty commitment tx.  Only hashes present in both commitments
    /// count, at the smaller of the two summed values: an invoice is not
    /// considered paid until both commitments witness the payment.
    pub fn incoming_payments_summary(
        &self,
        new_holder_tx: Option<&CommitmentInfo2>,
        new_counterparty_tx: Option<&CommitmentInfo2>,
    ) -> (r: PaymentSummary)
        requires
            self.wf(),
            new_holder_tx matches Some(i) ==> i.wf(),
            new_counterparty_tx matches Some(i) ==> i.wf(),
        ensures
            r.wf(),
            forall|h: Seq<u8>| #[trigger] r.spec_get(h) == min_combine(
                htlc_summary(self.spec_holder_received(new_holder_tx), h),
                htlc_summary(self.spec_counterparty_offered(new_counterparty_tx), h),
            ),
    {
        let holder_summary: PaymentSummary = match new_holder_tx {
            Some(i) => summarize_received(i),
            None => match &self.current_holder_commit_info {
                Some(i) => summarize_received(i),
                None => PaymentSummary::new(),
            },
        };
        let counterparty_summary: PaymentSummary = match new_counterparty_tx {
            Some(i) => summarize_offered(i),
            None => match &self.current_counterparty_commit_info {
                Some(i) => summarize_offered(i),
                None => PaymentSummary::new(),
            },
        };
        holder_summary.intersect_min(&counterparty_summary)
    }

    /// The holder's current overall claimable balance: the lower of the two
    /// commitment views, or the configured initial value before the first
    /// commitment exists.
    pub open spec fn spec_current_balance(self, preimages: Set<Seq<u8>>) -> int {
        if self.current_holder_commit_info is Some && self.current_counterparty_commit_info
            is Some {
            let a = self.current_holder_commit_info->0.spec_claimable_balance(preimages);
            let b = self.current_counterparty_commit_info->0.spec_claimable_balance(preimages);
            if a <= b {
                a
            } else {
                b
            }
        } else if self.current_holder_commit_info is Some {
            self.current_holder_commit_info->0.spec_claimable_balance(preimages)
        } else if self.current_counterparty_commit_info is Some {
            self.current_counterparty_commit_info->0.spec_claimable_balance(preimages)
        } else {
            self.initial_holder_value as int
        }
    }

    /// The holder's overall claimable balance once the proposed commitment
    /// replaces the corresponding current one.
    pub open spec fn spec_new_balance(
        self,
        new_holder_tx: Option<&CommitmentInfo2>,
        new_counterparty_tx: Option<&CommitmentInfo2>,
        preimages: Set<Seq<u8>>,
    ) -> int {
        let h: Option<int> = if new_holder_tx is Some {
            Some(new_holder_tx->0.spec_claimable_balance(preimages))
        } else if self.current_holder_commit_info is Some {
            Some(self.current_holder_commit_info->0.spec_claimable_balance(preimages))
        } else {
            None
        };
        let c: Option<int> = if new_counterparty_tx is Some {
            Some(new_counterparty_tx->0.spec_claimable_balance(preimages))
        } else if self.current_counterparty_commit_info is Some {
            Some(self.current_counterparty_commit_info->0.spec_claimable_balance(preimages))
        } else {
            None
        };
        if h is Some && c is Some {
            if h->0 <= c->0 {
                h->0
            } else {
                c->0
            }
        } else if h is Some {
            h->0
        } else {
            c->0
        }
    }

    /// The claimable balance before and after a new commitment tx.  Exactly
    /// one of the two proposed commitments must be present.  The setup
    /// names the channel being evaluated; the balances themselves derive
    /// from the commitments and the initial holder value alone.
    pub fn claimable_balances<T: PreimageMap>(
        &self,
        preimage_map: &T,
        new_holder_tx: Option<&CommitmentInfo2>,
        new_counterparty_tx: Option<&CommitmentInfo2>,
        _channel_setup: &ChannelSetup,
    ) -> (r: BalanceDelta)
        requires
            self.wf(),
            new_holder_tx is Some || new_counterparty_tx is Some,
            !(new_holder_tx is Some && new_counterparty_tx is Some),
            new_holder_tx matches Some(i) ==> i.wf(),
            new_counterparty_tx matches Some(i) ==> i.wf(),
        ensures
            r.0 == self.spec_current_balance(preimage_map.preimages()),
            r.1 == self.spec_new_balance(
                new_holder_tx,
                new_counterparty_tx,
                preimage_map.preimages(),
            ),
    {
        // Our balance in the holder commitment tx.
        let cur_holder_bal: Option<u64> = match &self.current_holder_commit_info {
            Some(i) => Some(i.claimable_balance(preimage_map)),
            None => None,
        };
        // Our balance in the counterparty commitment tx.
        let cur_cp_bal: Option<u64> = match &self.current_counterparty_commit_info {
            Some(i) => Some(i.claimable_balance(preimage_map)),
            None => None,
        };
        // Our overall balance is the lower of the two.
        let cur_bal_opt = min_opt(cur_holder_bal, cur_cp_bal);
        // Perform the balance calculations given the new transaction.
        let new_holder_bal: Option<u64> = match new_holder_tx {
            Some(i) => Some(i.claimable_balance(preimage_map)),
            None => cur_holder_bal,
        };
        let new_cp_bal: Option<u64> = match new_counterparty_tx {
            Some(i) => Some(i.claimable_balance(preimage_map)),
            None => cur_cp_bal,
        };
        let new_bal: u64 = match min_opt(new_holder_bal, new_cp_bal) {
            Some(v) => v,
            None => {
                proof {
                    assert(false);
                }
                0
            },
        };
        // If this is the first commitment, we have no current balance yet:
        // we use the configured initial holder value.
        let cur_bal: u64 = match cur_bal_opt {
            Some(v) => v,
            None => self.initial_holder_value,
        };
        BalanceDelta(cur_bal, new_bal)
    }

    /// Test hook: force the next holder commitment number.
    pub fn set_next_holder_commit_num_for_testing(&mut self, num: u64)
        ensures
            *final (self) == (EnforcementState { next_holder_commit_num: num, ..*old(self) }),
    {
        self.next_holder_commit_num = num;
    }

    /// Test hook: force the next counterparty commitment number and point.
    pub fn set_next_counterparty_commit_num_for_testing(&mut self, num: u64, current_point: PubKey)
        ensures
            *final (self) == (EnforcementState {
                next_counterparty_commit_num: num,
                previous_counterparty_point: old(self).current_counterparty_point,
                current_counterparty_point: Some(current_point),
                ..*old(self)
            }),
    {
        self.previous_counterparty_point = self.current_counterparty_point;
        self.current_counterparty_point = Some(current_point);
        self.next_counterparty_commit_num = num;
    }

    /// Test hook: force the next counterparty revocation number.
    pub fn set_next_counterparty_revoke_num_for_testing(&mut self, num: u64)
        ensures
            *final (self) == (EnforcementState {
                next_counterparty_revoke_num: num,
                ..*old(self)
            }),
    {
        self.next_counterparty_revoke_num = num;
    }
}

/// Summary of a commitment's offered HTLCs.
fn summarize_offered(info: &CommitmentInfo2) -> (r: PaymentSummary)
    requires
        info.wf(),
    ensures
        r.wf(),
        forall|h: Seq<u8>| #[trigger] r.spec_get(h) == htlc_summary(info.offered_htlcs@, h),
{
    proof {
        lemma_sum_values_nonneg(info.received_htlcs@);
        lemma_sum_values_nonneg(info.offered_htlcs@);
    }
    summarize_payments(&info.offered_htlcs)
}

/// Summary of a commitment's received HTLCs.
fn summarize_received(info: &CommitmentInfo2) -> (r: PaymentSummary)
    requires
        info.wf(),
    ensures
        r.wf(),
        forall|h: Seq<u8>| #[trigger] r.spec_get(h) == htlc_summary(info.received_htlcs@, h),
{
    proof {
        lemma_sum_values_nonneg(info.received_htlcs@);
        lemma_sum_values_nonneg(info.offered_htlcs@);
    }
    summarize_payments(&info.received_htlcs)
}

} // verus!
