//! The trait implemented for `&X`.
use vstd::prelude::*;
use crate::derive::{derive_outcome, Derive, DeriveError};
use crate::model::{ImplBlock, TraitDecl};

verus! {

/// Implements `trait_` for `&X`, where `X` implements it.
pub fn derive(trait_: &TraitDecl) -> (r: Result<ImplBlock, DeriveError>)
    ensures
        derive_outcome(Derive::Ref, *trait_, r),
{
    Derive::Ref.defer_trait_methods(trait_)
}

} // verus!
