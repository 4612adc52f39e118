//! The trait implemented for `Box<X>`.
use vstd::prelude::*;
use crate::derive::{derive_outcome, Derive, DeriveError};
use crate::model::{ImplBlock, TraitDecl};

verus! {

/// Implements `trait_` for `Box<X>`, where `X` implements it.
pub fn derive(trait_: &TraitDecl) -> (r: Result<ImplBlock, DeriveError>)
    ensures
        derive_outcome(Derive::Box, *trait_, r),
{
    Derive::Box.defer_trait_methods(trait_)
}

} // verus!
