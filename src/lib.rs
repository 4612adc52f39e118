//! Blanket implementations of a trait for the standard wrapper types.
//!
//! Given the declaration of a trait, the library builds an implementation of
//! that trait for `Box<X>`, `Rc<X>`, `&X` or `&mut X`, where `X` is any type
//! implementing the trait: each method forwards its call, through the wrapper,
//! to the wrapped value.

pub mod text;
pub mod model;
pub mod names;
pub mod derive;
pub mod boxed;
pub mod rc;
pub mod shared_ref;
pub mod mut_ref;

pub use derive::{derive_named, Derive, DeriveError, Receiver};
pub use model::{Call, GenericParam, ImplBlock, Method, SelfParam, TraitDecl};
