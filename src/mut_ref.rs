//! The trait implemented for `&mut X`.
use vstd::prelude::*;
use crate::derive::{derive_outcome, Derive, DeriveError};
use crate::model::{ImplBlock, TraitDecl};

verus! {

/// Implements `trait_` for `&mut X`, where `X` implements it.
pub fn derive(trait_: &TraitDecl) -> (r: Result<ImplBlock, DeriveError>)
    ensures
        derive_outcome(Derive::Mut, *trait_, r),
{
    Derive::Mut.defer_trait_methods(trait_)
}

} // verus!
