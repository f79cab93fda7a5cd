//! Policy-enforcement core for a remote Lightning signer.
//!
//! The library validates proposed channel operations against a per-channel
//! enforcement state machine and a set of policy rules, and refuses to
//! authorize anything that could forfeit channel funds.

pub mod bytes;
pub mod channel;
pub mod crypto;
pub mod derive;
pub mod error;
pub mod model;
pub mod node;
pub mod policy;
pub mod summary;
pub mod tx;
pub mod validator;
pub mod wallet;

use vstd::prelude::*;

verus! {

/// The minimum of two optional values.  If both are `None`, the result is `None`.
pub fn min_opt(a_opt: Option<u64>, b_opt: Option<u64>) -> (r: Option<u64>)
    ensures
        a_opt is Some && b_opt is Some ==> r == Some(
            if a_opt->0 <= b_opt->0 {
                a_opt->0
            } else {
                b_opt->0
            },
        ),
        a_opt is Some && b_opt is None ==> r == a_opt,
        a_opt is None ==> r == b_opt,
{
    if let Some(a) = a_opt {
        if let Some(b) = b_opt {
            Some(if a <= b {
                a
            } else {
                b
            })
        } else {
            a_opt
        }
    } else {
        b_opt
    }
}

} // verus!
