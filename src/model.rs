//! The trait declarations that the library reads and the implementations it
//! builds, as plain values.
use vstd::prelude::*;
use crate::derive::Derive;

verus! {

/// One generic parameter of a trait, as declared.
///
/// Names are written as in the source, a lifetime with its apostrophe
/// (`'a`); bounds are kept verbatim, one text per bound.
#[derive(Debug, Clone, PartialEq, Eq)]
pub enum GenericParam {
    /// `'a: 'b + 'c`
    Lifetime { name: String, bounds: Vec<String> },
    /// `T: Clone + Send`
    Type { name: String, bounds: Vec<String> },
    /// `const N: usize`
    Const { name: String, ty: String },
}

/// What a generic parameter holds, for contracts.
pub enum ParamView {
    Lifetime { name: Seq<char>, bounds: Seq<Seq<char>> },
    Type { name: Seq<char>, bounds: Seq<Seq<char>> },
    Const { name: Seq<char>, ty: Seq<char> },
}

impl ParamView {
    /// The name under which the parameter is used.
    pub open spec fn name(self) -> Seq<char> {
        match self {
            ParamView::Lifetime { name, .. } => name,
            ParamView::Type { name, .. } => name,
            ParamView::Const { name, .. } => name,
        }
    }
}

impl View for GenericParam {
    type V = ParamView;

    open spec fn view(&self) -> ParamView {
        match self {
            GenericParam::Lifetime { name, bounds } => ParamView::Lifetime {
                name: name@,
                bounds: bounds.deep_view(),
            },
            GenericParam::Type { name, bounds } => ParamView::Type {
                name: name@,
                bounds: bounds.deep_view(),
            },
            GenericParam::Const { name, ty } => ParamView::Const { name: name@, ty: ty@ },
        }
    }
}

/// Copies a list of texts.
pub fn copy_texts(v: &Vec<String>) -> (r: Vec<String>)
    ensures
        r@ == v@,
        r.deep_view() == v.deep_view(),
{
    let mut r: Vec<String> = Vec::new();
    let mut i: usize = 0;
    while i < v.len()
        invariant
            i <= v@.len(),
            r@ == v@.take(i as int),
        decreases v@.len() - i,
    {
        r.push(v[i].clone());
        i = i + 1;
        assert(r@ =~= v@.take(i as int));
    }
    assert(v@.take(v@.len() as int) =~= v@);
    assert(r.deep_view() =~= v.deep_view());
    r
}

impl GenericParam {
    /// The name under which the parameter is used, without its bounds.
    pub fn name(&self) -> (r: &String)
        ensures
            r@ == self@.name(),
    {
        match self {
            GenericParam::Lifetime { name, .. } => name,
            GenericParam::Type { name, .. } => name,
            GenericParam::Const { name, .. } => name,
        }
    }

    /// A copy of the declaration.
    pub fn copy(&self) -> (r: GenericParam)
        ensures
            r@ == self@,
    {
        match self {
            GenericParam::Lifetime { name, bounds } => GenericParam::Lifetime {
                name: name.clone(),
                bounds: copy_texts(bounds),
            },
            GenericParam::Type { name, bounds } => GenericParam::Type {
                name: name.clone(),
                bounds: copy_texts(bounds),
            },
            GenericParam::Const { name, ty } => GenericParam::Const {
                name: name.clone(),
                ty: ty.clone(),
            },
        }
    }
}

/// The `self` parameter of a method, as written.
#[derive(Debug, Clone, PartialEq, Eq)]
pub struct SelfParam {
    /// Written with `&`.
    pub reference: bool,
    /// Written with `mut`.
    pub mutable: bool,
    /// The type after `self:`, if one is written.
    pub ty: Option<String>,
}

/// A method signature of a trait.
#[derive(Debug, Clone, PartialEq, Eq)]
pub struct Method {
    pub name: String,
    /// The `self` parameter; `None` for an associated function.
    pub receiver: Option<SelfParam>,
    /// The other parameters in order: the name of each one bound to a plain
    /// identifier, `None` for one bound to another pattern.
    pub args: Vec<Option<String>>,
}

/// A trait declaration: its name, generic parameters, `where` clause and
/// method signatures, in order.
#[derive(Debug, Clone, PartialEq, Eq)]
pub struct TraitDecl {
    pub name: String,
    pub params: Vec<GenericParam>,
    /// The `where` clause, verbatim.
    pub where_clause: Option<String>,
    pub methods: Vec<Method>,
}

/// The call that a forwarding method makes: `self`, dereferenced `derefs`
/// times, then `.method(args...)`.
#[derive(Debug, Clone, PartialEq, Eq)]
pub struct Call {
    pub method: String,
    pub derefs: usize,
    pub args: Vec<String>,
}

/// What a call holds, for contracts.
pub struct CallView {
    pub method: Seq<char>,
    pub derefs: usize,
    pub args: Seq<Seq<char>>,
}

impl View for Call {
    type V = CallView;

    open spec fn view(&self) -> CallView {
        CallView { method: self.method@, derefs: self.derefs, args: self.args.deep_view() }
    }
}

/// An implementation of a trait for a wrapper of a fresh type parameter.
///
/// `params` holds the trait's own declarations followed by the fresh
/// parameter, bounded by the trait; the implementation is of
/// `trait_name<trait_args>` for the wrapper of `self_type`. `methods[i]` is
/// the body of the method that forwards the trait's `i`-th method.
#[derive(Debug, Clone, PartialEq, Eq)]
pub struct ImplBlock {
    pub wrapper: Derive,
    pub trait_name: String,
    pub trait_args: Vec<String>,
    pub params: Vec<GenericParam>,
    pub self_type: String,
    pub where_clause: Option<String>,
    pub methods: Vec<Call>,
}

/// What an implementation holds, for contracts.
pub struct ImplView {
    pub wrapper: Derive,
    pub trait_name: Seq<char>,
    pub trait_args: Seq<Seq<char>>,
    pub params: Seq<ParamView>,
    pub self_type: Seq<char>,
    pub where_clause: Option<Seq<char>>,
    pub methods: Seq<CallView>,
}

/// The text of an optional clause.
pub open spec fn clause_view(c: Option<String>) -> Option<Seq<char>> {
    match c {
        Some(s) => Some(s@),
        None => None,
    }
}

impl View for ImplBlock {
    type V = ImplView;

    open spec fn view(&self) -> ImplView {
        ImplView {
            wrapper: self.wrapper,
            trait_name: self.trait_name@,
            trait_args: self.trait_args.deep_view(),
            params: self.params@.map_values(|p: GenericParam| p@),
            self_type: self.self_type@,
            where_clause: clause_view(self.where_clause),
            methods: self.methods@.map_values(|c: Call| c@),
        }
    }
}

} // verus!
