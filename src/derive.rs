//! The wrapper kinds and their forwarding policies.
use vstd::prelude::*;
use crate::model::{
    clause_view, Call, CallView, GenericParam, ImplBlock, ImplView, Method, ParamView, TraitDecl,
};
use crate::names::{
    fresh_name, fresh_type_name, name_taken, path_text, trait_path, usage_args, usage_of,
};
use crate::text::same_text;
use vstd::string::StringExecFns;

verus! {

/// A wrapper type for which a trait can be derived.
#[derive(Debug, Clone, Copy, PartialEq, Eq, Hash, Structural)]
pub enum Derive {
    /// `Box<X>`, the owning pointer.
    Box,
    /// `std::rc::Rc<X>`, the reference-counted shared pointer.
    Rc,
    /// `&X`, the immutable reference.
    Ref,
    /// `&mut X`, the mutable reference.
    Mut,
}

/// The wrapper kind that a token names, if any; the match is exact and
/// case-sensitive.
pub open spec fn kind_of_token(t: Seq<char>) -> Option<Derive> {
    if t == "Box"@ {
        Some(Derive::Box)
    } else if t == "Rc"@ {
        Some(Derive::Rc)
    } else if t == "Ref"@ {
        Some(Derive::Ref)
    } else if t == "Mut"@ {
        Some(Derive::Mut)
    } else {
        None
    }
}

impl Derive {
    /// The token that names the wrapper kind.
    pub fn name(&self) -> (r: &'static str)
        ensures
            kind_of_token(r@) == Some(*self),
    {
        proof {
            reveal_strlit("Box");
            reveal_strlit("Rc");
            reveal_strlit("Ref");
            reveal_strlit("Mut");
            assert("Rc"@.len() != "Box"@.len());
            assert("Ref"@[0] != "Box"@[0]);
            assert("Ref"@.len() != "Rc"@.len());
            assert("Mut"@[0] != "Box"@[0]);
            assert("Mut"@.len() != "Rc"@.len());
            assert("Mut"@[0] != "Ref"@[0]);
        }
        match self {
            Derive::Box => "Box",
            Derive::Rc => "Rc",
            Derive::Ref => "Ref",
            Derive::Mut => "Mut",
        }
    }

    /// Looks up the wrapper kind named by the first segment of a path, each
    /// segment given by its identifier.
    pub fn from_path(segments: &Vec<String>) -> (r: Option<Derive>)
        ensures
            segments@.len() == 0 ==> r is None,
            segments@.len() > 0 ==> r == kind_of_token(segments@[0]@),
    {
        if segments.len() == 0 {
            None
        } else {
            Derive::from_str(segments[0].as_str())
        }
    }

    /// Looks up the wrapper kind named by `s`.
    pub fn from_str(s: &str) -> (r: Option<Derive>)
        ensures
            r == kind_of_token(s@),
    {
        if same_text(s, "Box") {
            Some(Derive::Box)
        } else if same_text(s, "Rc") {
            Some(Derive::Rc)
        } else if same_text(s, "Ref") {
            Some(Derive::Ref)
        } else if same_text(s, "Mut") {
            Some(Derive::Mut)
        } else {
            None
        }
    }
}

/// How a method receives `self`.
#[derive(Debug, Clone, Copy, PartialEq, Eq, Hash, Structural)]
pub enum Receiver {
    /// No `self` parameter: an associated function.
    Missing,
    /// `self` or `mut self`.
    ByValue,
    /// `&self` or `&mut self`.
    ByRef { mutable: bool },
    /// `self: T` for a type `T` other than `Self`.
    Typed,
}

/// The receiver kind of a method.
pub open spec fn receiver_of(m: Method) -> Receiver {
    match m.receiver {
        None => Receiver::Missing,
        Some(p) => {
            if p.ty is Some && p.ty->0@ != "Self"@ {
                Receiver::Typed
            } else if p.reference {
                Receiver::ByRef { mutable: p.mutable }
            } else {
                Receiver::ByValue
            }
        },
    }
}

/// Classifies the receiver of a method.
pub fn classify(m: &Method) -> (r: Receiver)
    ensures
        r == receiver_of(*m),
{
    match &m.receiver {
        None => Receiver::Missing,
        Some(p) => {
            let typed = match &p.ty {
                Some(t) => !same_text(t.as_str(), "Self"),
                None => false,
            };
            if typed {
                Receiver::Typed
            } else if p.reference {
                Receiver::ByRef { mutable: p.mutable }
            } else {
                Receiver::ByValue
            }
        },
    }
}

/// The forwarding policy: how many times a forwarding method dereferences
/// `self` for a receiver kind, or `None` where the wrapper cannot forward it.
pub open spec fn deref_depth(kind: Derive, r: Receiver) -> Option<usize> {
    match (kind, r) {
        (Derive::Box, Receiver::ByValue) => Some(1),
        (Derive::Box, Receiver::ByRef { .. }) => Some(2),
        (Derive::Rc, Receiver::ByRef { mutable: false }) => Some(2),
        (Derive::Ref, Receiver::ByRef { mutable: false }) => Some(1),
        (Derive::Mut, Receiver::ByRef { .. }) => Some(1),
        _ => None,
    }
}

/// Whether the fresh type parameter may be unsized: every wrapper but `Box`,
/// whose by-value receivers move the value out.
pub open spec fn allows_unsized(kind: Derive) -> bool {
    kind != Derive::Box
}

/// Why a trait cannot be derived for a wrapper.
#[derive(Debug, Clone, Copy, PartialEq, Eq, Hash, Structural)]
pub enum DeriveError {
    /// The `method`-th method has a receiver that the wrapper cannot forward.
    UnsupportedReceiver { method: usize, receiver: Receiver },
    /// The `method`-th method declares `self` with a type other than `Self`.
    ArbitraryReceiverType { method: usize },
    /// The `arg`-th parameter of the `method`-th method is bound to a pattern
    /// other than a plain identifier, so it cannot be passed on.
    UnsupportedArgument { method: usize, arg: usize },
    /// The token names none of the wrapper kinds.
    UnrecognizedWrapperKind,
}

/// Every parameter is bound to a plain identifier.
pub open spec fn all_named(args: Seq<Option<String>>) -> bool {
    forall|j: int| 0 <= j < args.len() ==> (#[trigger] args[j]) is Some
}

/// `j` is the first parameter bound to another pattern.
pub open spec fn first_unnamed(args: Seq<Option<String>>, j: int) -> bool {
    0 <= j < args.len() && args[j] is None && forall|k: int| 0 <= k < j ==> (#[trigger] args[k]) is Some
}

/// The wrapper can forward the method.
pub open spec fn forwardable(kind: Derive, m: Method) -> bool {
    deref_depth(kind, receiver_of(m)) is Some && all_named(m.args@)
}

/// The wrapper can forward every method of the trait.
pub open spec fn all_forwardable(kind: Derive, t: TraitDecl) -> bool {
    forall|i: int| 0 <= i < t.methods@.len() ==> forwardable(kind, #[trigger] t.methods@[i])
}

/// `e` is the error that the `i`-th method `m` gives for the wrapper.
pub open spec fn method_error(kind: Derive, m: Method, i: int, e: DeriveError) -> bool {
    let r = receiver_of(m);
    if r == Receiver::Typed {
        e == DeriveError::ArbitraryReceiverType { method: i as usize }
    } else if deref_depth(kind, r) is None {
        e == DeriveError::UnsupportedReceiver { method: i as usize, receiver: r }
    } else {
        match e {
            DeriveError::UnsupportedArgument { method, arg } => method == i && first_unnamed(
                m.args@,
                arg as int,
            ),
            _ => false,
        }
    }
}

/// The method that an error points at.
pub open spec fn error_method(e: DeriveError) -> int {
    match e {
        DeriveError::UnsupportedReceiver { method, .. } => method as int,
        DeriveError::ArbitraryReceiverType { method } => method as int,
        DeriveError::UnsupportedArgument { method, .. } => method as int,
        DeriveError::UnrecognizedWrapperKind => -1,
    }
}

/// `e` reports the first method of the trait that the wrapper cannot
/// forward.
pub open spec fn first_failure(kind: Derive, t: TraitDecl, e: DeriveError) -> bool {
    let i = error_method(e);
    0 <= i < t.methods@.len() && method_error(kind, t.methods@[i], i, e) && forall|j: int|
        0 <= j < i ==> forwardable(kind, #[trigger] t.methods@[j])
}

/// The text of a parameter bound to a plain identifier.
pub open spec fn arg_text(a: Option<String>) -> Seq<char> {
    match a {
        Some(s) => s@,
        None => Seq::empty(),
    }
}

/// The call that forwards `m`: `self` dereferenced `depth` times, then the
/// method's own name, with its parameters passed on in order.
pub open spec fn forward_call(m: Method, depth: usize) -> CallView {
    CallView { method: m.name@, derefs: depth, args: m.args@.map_values(|a: Option<String>| arg_text(a)) }
}

/// The call that forwards `m` through the wrapper.
pub open spec fn forward_for(kind: Derive, m: Method) -> CallView {
    forward_call(
        m,
        match deref_depth(kind, receiver_of(m)) {
            Some(d) => d,
            None => 0,
        },
    )
}

/// The bounds of the fresh type parameter: the trait with its generic
/// arguments, and `?Sized` where the wrapper allows it.
pub open spec fn fresh_bounds(kind: Derive, t: TraitDecl) -> Seq<Seq<char>> {
    let b = seq![path_text(t.name@, usage_of(t.params@))];
    if allows_unsized(kind) {
        b.push("?Sized"@)
    } else {
        b
    }
}

/// The fresh type parameter, declared last.
pub open spec fn fresh_param(kind: Derive, t: TraitDecl) -> ParamView {
    ParamView::Type { name: fresh_name(t), bounds: fresh_bounds(kind, t) }
}

/// The implementation of the trait for the wrapper.
pub open spec fn expected_impl(kind: Derive, t: TraitDecl) -> ImplView {
    ImplView {
        wrapper: kind,
        trait_name: t.name@,
        trait_args: usage_of(t.params@),
        params: t.params@.map_values(|p: GenericParam| p@).push(fresh_param(kind, t)),
        self_type: fresh_name(t),
        where_clause: clause_view(t.where_clause),
        methods: t.methods@.map_values(|m: Method| forward_for(kind, m)),
    }
}

/// What deriving the trait for the wrapper gives: the implementation where
/// every method can be forwarded, else the first method that cannot.
pub open spec fn derive_outcome(kind: Derive, t: TraitDecl, r: Result<ImplBlock, DeriveError>) -> bool {
    match r {
        Ok(b) => all_forwardable(kind, t) && b@ == expected_impl(kind, t),
        Err(e) => !all_forwardable(kind, t) && first_failure(kind, t, e),
    }
}

/// Builds the call that forwards `m` with `depth` dereferences of `self`, or
/// gives the first parameter that cannot be passed on.
pub fn method_call(m: &Method, depth: usize) -> (r: Result<Call, usize>)
    ensures
        r is Ok <==> all_named(m.args@),
        r matches Ok(c) ==> c@ == forward_call(*m, depth),
        r matches Err(j) ==> first_unnamed(m.args@, j as int),
{
    let mut args: Vec<String> = Vec::new();
    let mut j: usize = 0;
    while j < m.args.len()
        invariant
            j <= m.args@.len(),
            args@.len() == j,
            forall|k: int| 0 <= k < j ==> (#[trigger] m.args@[k]) is Some,
            forall|k: int| 0 <= k < j ==> (#[trigger] args@[k])@ == arg_text(m.args@[k]),
        decreases m.args@.len() - j,
    {
        match &m.args[j] {
            Some(a) => args.push(a.clone()),
            None => return Err(j),
        }
        j = j + 1;
    }
    let c = Call { method: m.name.clone(), derefs: depth, args };
    assert(c.args.deep_view() =~= m.args@.map_values(|a: Option<String>| arg_text(a)));
    Ok(c)
}

impl Derive {
    /// The forwarding policy of this wrapper for a receiver kind.
    pub fn depth(&self, r: Receiver) -> (d: Option<usize>)
        ensures
            d == deref_depth(*self, r),
    {
        match (self, r) {
            (Derive::Box, Receiver::ByValue) => Some(1),
            (Derive::Box, Receiver::ByRef { .. }) => Some(2),
            (Derive::Rc, Receiver::ByRef { mutable: false }) => Some(2),
            (Derive::Ref, Receiver::ByRef { mutable: false }) => Some(1),
            (Derive::Mut, Receiver::ByRef { .. }) => Some(1),
            _ => None,
        }
    }

    /// Builds the implementation of `trait_` for this wrapper of a fresh
    /// type parameter bounded by the trait, each method forwarding to the
    /// wrapped value; fails at the first method that cannot be forwarded.
    pub fn defer_trait_methods(&self, trait_: &TraitDecl) -> (r: Result<ImplBlock, DeriveError>)
        ensures
            derive_outcome(*self, *trait_, r),
            r matches Ok(b) ==> !name_taken(*trait_, b.self_type@),
    {
        let kind = *self;
        let t = trait_;
        let mut methods: Vec<Call> = Vec::new();
        let mut i: usize = 0;
        while i < t.methods.len()
            invariant
                kind == *self,
                t == trait_,
                i <= t.methods@.len(),
                methods@.len() == i,
                forall|j: int| 0 <= j < i ==> forwardable(kind, #[trigger] t.methods@[j]),
                forall|j: int| 0 <= j < i ==> (#[trigger] methods@[j])@ == forward_for(kind, t.methods@[j]),
            decreases t.methods@.len() - i,
        {
            let m = &t.methods[i];
            let r = classify(m);
            if r == Receiver::Typed {
                assert(!forwardable(kind, t.methods@[i as int]));
                return Err(DeriveError::ArbitraryReceiverType { method: i });
            }
            match kind.depth(r) {
                None => {
                    assert(!forwardable(kind, t.methods@[i as int]));
                    return Err(DeriveError::UnsupportedReceiver { method: i, receiver: r });
                },
                Some(d) => match method_call(m, d) {
                    Ok(c) => methods.push(c),
                    Err(j) => {
                        assert(!forwardable(kind, t.methods@[i as int]));
                        return Err(DeriveError::UnsupportedArgument { method: i, arg: j });
                    },
                },
            }
            i = i + 1;
        }
        let trait_args = usage_args(&t.params);
        let fresh = fresh_type_name(t);
        let mut bounds: Vec<String> = Vec::new();
        bounds.push(trait_path(&t.name, &trait_args));
        if kind != Derive::Box {
            bounds.push(String::from_str("?Sized"));
        }
        assert(bounds.deep_view() =~= fresh_bounds(kind, *t));
        let mut params: Vec<GenericParam> = Vec::new();
        let mut k: usize = 0;
        while k < t.params.len()
            invariant
                k <= t.params@.len(),
                params@.len() == k,
                forall|j: int| 0 <= j < k ==> (#[trigger] params@[j])@ == t.params@[j]@,
            decreases t.params@.len() - k,
        {
            params.push(t.params[k].copy());
            k = k + 1;
        }
        params.push(GenericParam::Type { name: fresh.clone(), bounds });
        let where_clause = match &t.where_clause {
            Some(w) => Some(w.clone()),
            None => None,
        };
        let b = ImplBlock {
            wrapper: kind,
            trait_name: t.name.clone(),
            trait_args,
            params,
            self_type: fresh,
            where_clause,
            methods,
        };
        assert(b@.params =~= expected_impl(kind, *t).params);
        assert(b@.methods =~= expected_impl(kind, *t).methods);
        Ok(b)
    }
}

/// Derives `trait_` for the wrapper kind that `token` names; a token that
/// names none of them is an error.
pub fn derive_named(token: &str, trait_: &TraitDecl) -> (r: Result<ImplBlock, DeriveError>)
    ensures
        kind_of_token(token@) is None ==> r == Err::<ImplBlock, DeriveError>(
            DeriveError::UnrecognizedWrapperKind,
        ),
        kind_of_token(token@) matches Some(k) ==> derive_outcome(k, *trait_, r),
{
    match Derive::from_str(token) {
        None => Err(DeriveError::UnrecognizedWrapperKind),
        Some(k) => k.defer_trait_methods(trait_),
    }
}

/// A trait with no generic parameters and no methods gets, for every
/// wrapper, an implementation with no methods and a single generic
/// parameter: the fresh one, bounded by the trait.
pub proof fn lemma_empty_trait(kind: Derive, t: TraitDecl)
    requires
        t.params@.len() == 0,
        t.methods@.len() == 0,
    ensures
        all_forwardable(kind, t),
        expected_impl(kind, t).methods.len() == 0,
        expected_impl(kind, t).params == seq![fresh_param(kind, t)],
        fresh_bounds(kind, t)[0] == t.name@,
{
    assert(expected_impl(kind, t).params =~= seq![fresh_param(kind, t)]);
    assert(usage_of(t.params@) =~= Seq::<Seq<char>>::empty());
}

/// For every wrapper, the implementation declares the trait's generic
/// parameters as the trait does, in the same order, then the fresh one; it
/// uses them by name alone, in the same order.
pub proof fn lemma_generic_order(kind: Derive, t: TraitDecl)
    ensures
        expected_impl(kind, t).params.len() == t.params@.len() + 1,
        forall|i: int|
            0 <= i < t.params@.len() ==> #[trigger] expected_impl(kind, t).params[i]
                == t.params@[i]@,
        expected_impl(kind, t).params[t.params@.len() as int] == fresh_param(kind, t),
        expected_impl(kind, t).trait_args.len() == t.params@.len(),
        forall|i: int|
            0 <= i < t.params@.len() ==> #[trigger] expected_impl(kind, t).trait_args[i]
                == t.params@[i]@.name(),
{
}

/// Deriving the same trait for the same wrapper twice gives the same
/// implementation, or the same error.
pub proof fn lemma_derive_deterministic(
    kind: Derive,
    t: TraitDecl,
    r1: Result<ImplBlock, DeriveError>,
    r2: Result<ImplBlock, DeriveError>,
)
    requires
        derive_outcome(kind, t, r1),
        derive_outcome(kind, t, r2),
    ensures
        match (r1, r2) {
            (Ok(b1), Ok(b2)) => b1@ == b2@,
            (Err(e1), Err(e2)) => e1 == e2,
            _ => false,
        },
{
    if let (Err(e1), Err(e2)) = (r1, r2) {
        let i1 = error_method(e1);
        let i2 = error_method(e2);
        if i1 < i2 {
            assert(forwardable(kind, t.methods@[i1]));
        } else if i2 < i1 {
            assert(forwardable(kind, t.methods@[i2]));
        } else {
            let m = t.methods@[i1];
            if let (
                DeriveError::UnsupportedArgument { arg: a1, .. },
                DeriveError::UnsupportedArgument { arg: a2, .. },
            ) = (e1, e2) {
                if a1 < a2 {
                    assert(m.args@[a1 as int] is Some);
                } else if a2 < a1 {
                    assert(m.args@[a2 as int] is Some);
                }
            }
        }
    }
}

/// A method that takes `&self` is forwarded by `Box` and `Rc` through two
/// dereferences of `self`, and by `&` and `&mut` through one.
pub proof fn lemma_shared_receiver_depth(t: TraitDecl, i: int)
    requires
        0 <= i < t.methods@.len(),
        receiver_of(t.methods@[i]) == (Receiver::ByRef { mutable: false }),
    ensures
        expected_impl(Derive::Box, t).methods[i].derefs == 2,
        expected_impl(Derive::Rc, t).methods[i].derefs == 2,
        expected_impl(Derive::Ref, t).methods[i].derefs == 1,
        expected_impl(Derive::Mut, t).methods[i].derefs == 1,
{
}

/// A trait cannot be derived for a wrapper when one of its methods has a
/// receiver that the wrapper cannot forward: `Rc` takes neither `self` nor
/// `&mut self`, no wrapper takes a typed `self`, and none takes an
/// associated function.
pub proof fn lemma_rejections(kind: Derive, t: TraitDecl, i: int, r: Result<ImplBlock, DeriveError>)
    requires
        0 <= i < t.methods@.len(),
        derive_outcome(kind, t, r),
        ({
            let rv = receiver_of(t.methods@[i]);
            ||| rv == Receiver::Missing
            ||| rv == Receiver::Typed
            ||| kind == Derive::Rc && rv == Receiver::ByValue
            ||| kind == Derive::Rc && rv == (Receiver::ByRef { mutable: true })
        }),
    ensures
        r is Err,
{
    assert(!forwardable(kind, t.methods@[i]));
}

} // verus!

