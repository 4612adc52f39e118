//! The trait implemented for `std::rc::Rc<X>`.
use vstd::prelude::*;
use crate::derive::{derive_outcome, Derive, DeriveError};
use crate::model::{ImplBlock, TraitDecl};

verus! {

/// Implements `trait_` for `std::rc::Rc<X>`, where `X` implements it.
pub fn derive(trait_: &TraitDecl) -> (r: Result<ImplBlock, DeriveError>)
    ensures
        derive_outcome(Derive::Rc, *trait_, r),
{
    Derive::Rc.defer_trait_methods(trait_)
}

} // verus!
