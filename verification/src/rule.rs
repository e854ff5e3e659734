//! The transition-rule interface.
//!
//! A transition rule maps a cell's current state and its extracted
//! neighborhood to the cell's next state. A rule is stateless and total: its
//! specification function is defined for every neighborhood shape, including
//! one with no populated slot, and the executable method must return exactly
//! the specified value, so the output depends on nothing but the two inputs.

use vstd::prelude::*;

use crate::neighborhood::Neighborhood;

verus! {

/// A pure, total mapping from (current state, neighborhood) to next state.
pub trait TransitionRule<S>: Sized {
    /// What the rule returns, as a mathematical function of its two inputs.
    spec fn next_state_spec(&self, current: S, neighborhood: Neighborhood<S>) -> S;

    /// The next state of a cell whose current state is `current` and whose
    /// extracted neighborhood is `neighborhood`.
    fn next_state(&self, current: S, neighborhood: Neighborhood<S>) -> (r: S)
        ensures
            r == self.next_state_spec(current, neighborhood),
    ;
}

} // verus!
