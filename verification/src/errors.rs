//! The engine's error surface.
//!
//! Exactly one recoverable error arises in the current design: an
//! operator constructed with the wrong number of arguments.  Reduction
//! itself is total — a stuck operator reports `StayedInPlace` rather
//! than failing.

use vstd::prelude::*;
use vstd::string::StringExecFns;

use crate::model::dec_digits;
use crate::render::push_decimal;

verus! {

/// An operator was constructed with the wrong number of arguments.
#[derive(Debug, PartialEq, Eq, Structural, Clone, Copy)]
pub struct WrongNumberOfArgumentsError {
    /// The operator's fixed arity.
    pub expected: usize,
    /// How many arguments were actually handed in.
    pub actual: usize,
}

/// The rendering of a wrong-arity error.
pub open spec fn wrong_arity_message(expected: nat, actual: nat) -> Seq<char> {
    "Wrong number of arguments to operator: expected "@ + dec_digits(expected) + ", got "@
        + dec_digits(actual)
}

impl WrongNumberOfArgumentsError {
    /// The error's message, for a caller to report.
    pub fn message(&self) -> (r: String)
        ensures
            r@ == wrong_arity_message(self.expected as nat, self.actual as nat),
    {
        let mut s = String::from_str("Wrong number of arguments to operator: expected ");
        push_decimal(&mut s, self.expected as u64);
        s.append(", got ");
        push_decimal(&mut s, self.actual as u64);
        proof {
            assert(s@ =~= wrong_arity_message(self.expected as nat, self.actual as nat));
        }
        s
    }
}

/// An attempt to reduce an expression that cannot make progress.  The
/// engine's `reduce` never raises it — a stuck operator reports
/// `StayedInPlace` instead — but the type remains part of the public
/// error surface for callers that treat lack of progress as a failure
/// of their own.
#[derive(Debug, PartialEq, Eq, Structural, Clone, Copy)]
pub struct NonreduceibleExpressionError;

impl NonreduceibleExpressionError {
    /// The error's message, for a caller to report.
    pub fn message(&self) -> (r: String)
        ensures
            r@ == "Attempted to reduce a non-reduceible expression"@,
    {
        String::from_str("Attempted to reduce a non-reduceible expression")
    }
}

} // verus!
