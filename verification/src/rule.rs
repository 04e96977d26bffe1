//! The transition rule interface. The per-neighborhood transition function is
//! supplied from outside the engine; the engine only asks that evaluating it
//! is a pure function of the five neighborhood states and stays within the
//! 32 state codes. Two trivial rules are provided for exercising the engine.

use vstd::prelude::*;
use crate::{valid_state, STATE_COUNT};

verus! {

/// A transition rule: the next state of a cell as a function of its own
/// state and the states of its four orthogonal neighbors.
pub trait Rule: Sized {
    /// What the rule computes, as a mathematical function.
    spec fn spec_rule(&self, c: u8, n: u8, e: u8, s: u8, w: u8) -> u8;

    /// Evaluates the rule on one neighborhood.
    fn eval(&self, c: u8, n: u8, e: u8, s: u8, w: u8) -> (r: u8)
        requires
            valid_state(c),
            valid_state(n),
            valid_state(e),
            valid_state(s),
            valid_state(w),
        ensures
            r == self.spec_rule(c, n, e, s, w),
            valid_state(r),
    ;
}

/// The rule that outputs the center cell's own state unchanged.
pub struct IdentityRule;

impl Rule for IdentityRule {
    open spec fn spec_rule(&self, c: u8, n: u8, e: u8, s: u8, w: u8) -> u8 {
        c
    }

    fn eval(&self, c: u8, n: u8, e: u8, s: u8, w: u8) -> (r: u8) {
        c
    }
}

/// The rule that shifts every state up by one, modulo the state count.
pub struct ShiftRule;

impl Rule for ShiftRule {
    open spec fn spec_rule(&self, c: u8, n: u8, e: u8, s: u8, w: u8) -> u8 {
        ((c + 1) % (STATE_COUNT as int)) as u8
    }

    fn eval(&self, c: u8, n: u8, e: u8, s: u8, w: u8) -> (r: u8) {
        (c + 1) % STATE_COUNT
    }
}

} // verus!
