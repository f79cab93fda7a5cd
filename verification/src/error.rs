//! Validation errors.
//!
//! Every refusal carries a kind (how the caller may recover) and a message
//! whose exact text identifies the rule that fired.  The message is built by
//! verified code, so contracts elsewhere pin it character by character.

use vstd::prelude::*;

verus! {

/// How a validation failure may be recovered from.
#[derive(Clone, Copy, Debug, PartialEq, Eq, Structural)]
pub enum ValidationErrorKind {
    /// The transaction's shape or witness layout is not a valid commitment,
    /// HTLC, sweep or closing transaction for this channel.
    TransactionFormat,
    /// The transaction parses but violates a policy rule.
    Policy,
    /// An unexpected condition; fatal for the current request only.
    Internal,
}

/// A typed validation failure with a stable, exact rule message.
#[derive(Clone, Debug, PartialEq)]
pub struct ValidationError {
    pub kind: ValidationErrorKind,
    pub message: String,
}

/// The decimal rendering of `n`, most significant digit first.
pub open spec fn u64_dec(n: u64) -> Seq<char>
    decreases n,
{
    if n < 10 {
        seq![((48 + n) as u8) as char]
    } else {
        u64_dec(n / 10).push(((48 + n % 10) as u8) as char)
    }
}

/// Relies on `alloc::string::String::push_str`: appends the characters of
/// `t` to `s`.
#[verifier::external_body]
pub fn push_str(s: &mut String, t: &str)
    ensures
        final (s)@ == old(s)@ + t@,
{
    s.push_str(t)
}

/// Relies on `alloc::string::String::push`: appends the character `c` to `s`.
#[verifier::external_body]
pub fn push_char(s: &mut String, c: char)
    ensures
        final (s)@ == old(s)@.push(c),
{
    s.push(c)
}

/// Appends the decimal rendering of `n` to `s`.
pub fn push_u64(s: &mut String, n: u64)
    ensures
        final (s)@ == old(s)@ + u64_dec(n),
    decreases n,
{
    if n >= 10 {
        push_u64(s, n / 10);
    }
    let d: u8 = 48 + (n % 10) as u8;
    push_char(s, d as char);
    proof {
        assert(final (s)@ =~= old(s)@ + u64_dec(n));
    }
}

/// A message of the shape `prefix` `a` `suffix`.
pub open spec fn msg_n(p: Seq<char>, a: u64, m: Seq<char>) -> Seq<char> {
    p + u64_dec(a) + m
}

/// A message of the shape `prefix` `a` `middle` `b`.
pub open spec fn msg_nn(p: Seq<char>, a: u64, m: Seq<char>, b: u64) -> Seq<char> {
    p + u64_dec(a) + m + u64_dec(b)
}

/// Builds a `prefix` `a` `suffix` message.
pub fn build_n(p: &str, a: u64, m: &str) -> (s: String)
    ensures
        s@ == msg_n(p@, a, m@),
{
    let mut s: String = p.to_owned();
    push_u64(&mut s, a);
    push_str(&mut s, m);
    proof {
        assert(s@ =~= msg_n(p@, a, m@));
    }
    s
}

/// Builds a `prefix` `a` `middle` `b` message.
pub fn build_nn(p: &str, a: u64, m: &str, b: u64) -> (s: String)
    ensures
        s@ == msg_nn(p@, a, m@, b),
{
    let mut s: String = p.to_owned();
    push_u64(&mut s, a);
    push_str(&mut s, m);
    push_u64(&mut s, b);
    proof {
        assert(s@ =~= msg_nn(p@, a, m@, b));
    }
    s
}

/// A decimal rendering is never empty, so any message holding one is not
/// empty either.
pub proof fn lemma_u64_dec_len(n: u64)
    ensures
        u64_dec(n).len() >= 1,
    decreases n,
{
    if n >= 10 {
        lemma_u64_dec_len(n / 10);
    }
}

impl ValidationError {
    /// A policy-rule violation.
    pub fn policy(message: String) -> (r: ValidationError)
        ensures
            r.kind == ValidationErrorKind::Policy,
            r.message@ == message@,
    {
        ValidationError { kind: ValidationErrorKind::Policy, message }
    }

    /// A malformed-transaction failure.
    pub fn transaction_format(message: String) -> (r: ValidationError)
        ensures
            r.kind == ValidationErrorKind::TransactionFormat,
            r.message@ == message@,
    {
        ValidationError { kind: ValidationErrorKind::TransactionFormat, message }
    }

    /// An unexpected internal failure.
    pub fn internal(message: String) -> (r: ValidationError)
        ensures
            r.kind == ValidationErrorKind::Internal,
            r.message@ == message@,
    {
        ValidationError { kind: ValidationErrorKind::Internal, message }
    }

    /// The kind prefix used when a failure is reported to the host.
    pub open spec fn spec_kind_prefix(kind: ValidationErrorKind) -> Seq<char> {
        match kind {
            ValidationErrorKind::TransactionFormat => "transaction format: "@,
            ValidationErrorKind::Policy => "policy failure: "@,
            ValidationErrorKind::Internal => "internal: "@,
        }
    }

    /// The full report text: the kind prefix followed by the rule message.
    pub fn description(&self) -> (r: String)
        ensures
            r@ == Self::spec_kind_prefix(self.kind) + self.message@,
    {
        let mut s: String = match self.kind {
            ValidationErrorKind::TransactionFormat => "transaction format: ".to_owned(),
            ValidationErrorKind::Policy => "policy failure: ".to_owned(),
            ValidationErrorKind::Internal => "internal: ".to_owned(),
        };
        push_str(&mut s, self.message.as_str());
        s
    }
}

} // verus!
