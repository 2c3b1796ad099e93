//! The light hardware abstraction the controller drives.

use vstd::prelude::*;

verus! {

use crate::button::ButtonDirection;

/// Whatever shows the lights: toggle the active one, or shift which one
/// is active. Implemented by the matrix model here and by board or
/// console front ends outside.
pub trait LedOperator: Sized {
    /// Well-formedness of the operator's own state.
    spec fn op_inv(&self) -> bool;

    /// What a toggle does to this operator.
    spec fn toggle_ens(&self, post: Self) -> bool;

    /// What a shift in the given direction does to this operator.
    spec fn shift_ens(&self, direction: ButtonDirection, post: Self) -> bool;

    fn toggle(&mut self)
        requires
            old(self).op_inv(),
        ensures
            final(self).op_inv(),
            old(self).toggle_ens(*final(self)),
    ;

    fn shift(&mut self, direction: ButtonDirection)
        requires
            old(self).op_inv(),
        ensures
            final(self).op_inv(),
            old(self).shift_ens(direction, *final(self)),
    ;
}

} // verus!
