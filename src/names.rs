//! Generic parameters as used, the trait bound of the fresh parameter, and
//! the fresh parameter's name.
use vstd::prelude::*;
use vstd::string::StringExecFns;
use vstd::string::StrSliceExecFns;
use crate::model::{GenericParam, ParamView, TraitDecl};
use crate::text::{push_char, upper_letters, uppercase_letters};

verus! {

/// The names of the parameters, bounds left out, in declaration order.
pub open spec fn usage_of(params: Seq<GenericParam>) -> Seq<Seq<char>> {
    params.map_values(|p: GenericParam| p@.name())
}

/// Reduces generic parameter declarations to their uses:
/// `<'a, 'b: 'a, T: Send>` gives `<'a, 'b, T>`.
pub fn usage_args(params: &Vec<GenericParam>) -> (r: Vec<String>)
    ensures
        r.deep_view() == usage_of(params@),
{
    let mut r: Vec<String> = Vec::new();
    let mut i: usize = 0;
    while i < params.len()
        invariant
            i <= params@.len(),
            r@.len() == i,
            forall|k: int| 0 <= k < i ==> (#[trigger] r@[k])@ == params@[k]@.name(),
        decreases params@.len() - i,
    {
        r.push(params[i].name().clone());
        i = i + 1;
    }
    assert(r.deep_view() =~= usage_of(params@));
    r
}

/// `a, b, c`
pub open spec fn comma_list(items: Seq<Seq<char>>) -> Seq<char>
    decreases items.len(),
{
    if items.len() == 0 {
        Seq::empty()
    } else if items.len() == 1 {
        items[0]
    } else {
        comma_list(items.drop_last()) + ", "@ + items.last()
    }
}

/// The text of a path with generic arguments: `Name` or `Name<a, b>`.
pub open spec fn path_text(name: Seq<char>, args: Seq<Seq<char>>) -> Seq<char> {
    if args.len() == 0 {
        name
    } else {
        name + "<"@ + comma_list(args) + ">"@
    }
}

/// Writes the trait with its generic arguments, as it stands in a bound.
pub fn trait_path(name: &String, args: &Vec<String>) -> (r: String)
    ensures
        r@ == path_text(name@, args.deep_view()),
{
    let mut r = name.clone();
    if args.len() == 0 {
        return r;
    }
    r.append("<");
    let ghost texts = args.deep_view();
    let mut i: usize = 0;
    while i < args.len()
        invariant
            1 <= args@.len(),
            i <= args@.len(),
            texts == args.deep_view(),
            r@ == name@ + "<"@ + comma_list(texts.take(i as int)),
        decreases args@.len() - i,
    {
        if i > 0 {
            r.append(", ");
        }
        r.append(args[i].as_str());
        proof {
            let next = texts.take(i + 1);
            assert(next.drop_last() =~= texts.take(i as int));
            if i == 0 {
                assert(texts.take(0) =~= Seq::<Seq<char>>::empty());
            }
        }
        i = i + 1;
    }
    r.append(">");
    assert(texts.take(args@.len() as int) =~= texts);
    r
}

/// `s` followed by `n` underscores.
pub open spec fn padded(s: Seq<char>, n: nat) -> Seq<char>
    decreases n,
{
    if n == 0 {
        s
    } else {
        padded(s, (n - 1) as nat).push('_')
    }
}

/// Whether `s` is the trait's name or the name of one of its generic
/// parameters.
pub open spec fn name_taken(t: TraitDecl, s: Seq<char>) -> bool {
    s == t.name@ || exists|i: int| 0 <= i < t.params@.len() && (#[trigger] t.params@[i])@.name() == s
}

/// Where the fresh name starts: the uppercase letters of the trait's name,
/// or `T` where it has none.
pub open spec fn name_base(t: TraitDecl) -> Seq<char> {
    if upper_letters(t.name@).len() == 0 {
        "T"@
    } else {
        upper_letters(t.name@)
    }
}

/// The fresh name is the base padded with the fewest underscores that make
/// it free.
pub open spec fn fresh_with(t: TraitDecl, s: Seq<char>, n: nat) -> bool {
    s == padded(name_base(t), n) && !name_taken(t, s) && forall|j: nat| j < n ==> name_taken(
        t,
        #[trigger] padded(name_base(t), j),
    )
}

/// The name of the fresh type parameter for a trait's implementations.
pub open spec fn fresh_name(t: TraitDecl) -> Seq<char> {
    let n = choose|n: nat| fresh_with(t, padded(name_base(t), n), n);
    padded(name_base(t), n)
}

proof fn lemma_upper_letters_len(s: Seq<char>)
    ensures
        upper_letters(s).len() <= s.len(),
    decreases s.len(),
{
    if s.len() > 0 {
        lemma_upper_letters_len(s.drop_last());
    }
}

/// Two counts of underscores that both make the name fresh are the same.
proof fn lemma_fresh_unique(t: TraitDecl, a: nat, b: nat)
    requires
        fresh_with(t, padded(name_base(t), a), a),
        fresh_with(t, padded(name_base(t), b), b),
    ensures
        a == b,
{
    if a < b {
        assert(name_taken(t, padded(name_base(t), a)));
    } else if b < a {
        assert(name_taken(t, padded(name_base(t), b)));
    }
}

/// Whether `s` is the trait's name or one of its parameters' names.
fn is_taken(t: &TraitDecl, s: &String) -> (r: bool)
    ensures
        r == name_taken(*t, s@),
{
    if *s == t.name {
        return true;
    }
    let mut i: usize = 0;
    while i < t.params.len()
        invariant
            i <= t.params@.len(),
            s@ != t.name@,
            forall|j: int| 0 <= j < i ==> (#[trigger] t.params@[j])@.name() != s@,
        decreases t.params@.len() - i,
    {
        if *t.params[i].name() == *s {
            return true;
        }
        i = i + 1;
    }
    false
}

/// Derives a type parameter's name from the trait's name, distinct from the
/// trait's name and from every generic parameter it declares: `MyTrait`
/// gives `MT`, or `MT_` where `MT` is taken, and so on.
pub fn fresh_type_name(t: &TraitDecl) -> (r: String)
    ensures
        r@ == fresh_name(*t),
        !name_taken(*t, r@),
        r@ != t.name@,
        forall|i: int| 0 <= i < t.params@.len() ==> (#[trigger] t.params@[i])@.name() != r@,
{
    let mut limit: usize = t.name.as_str().unicode_len();
    let mut i: usize = 0;
    while i < t.params.len()
        invariant
            i <= t.params@.len(),
            t.name@.len() <= limit,
            forall|j: int| 0 <= j < i ==> (#[trigger] t.params@[j])@.name().len() <= limit,
        decreases t.params@.len() - i,
    {
        let n = t.params[i].name().as_str().unicode_len();
        if n > limit {
            limit = n;
        }
        i = i + 1;
    }
    let mut r = uppercase_letters(t.name.as_str());
    if r.as_str().unicode_len() == 0 {
        r = String::from_str("T");
    }
    proof {
        lemma_upper_letters_len(t.name@);
        reveal_strlit("T");
    }
    let ghost mut len: int = r@.len() as int;
    let ghost mut n: nat = 0;
    while is_taken(t, &r)
        invariant
            r@ == padded(name_base(*t), n),
            len == r@.len(),
            len <= limit + 1,
            t.name@.len() <= limit,
            forall|j: int| 0 <= j < t.params@.len() ==> (#[trigger] t.params@[j])@.name().len() <= limit,
            forall|j: nat| j < n ==> name_taken(*t, #[trigger] padded(name_base(*t), j)),
        decreases limit + 1 - len,
    {
        assert(len <= limit);
        push_char(&mut r, '_');
        proof {
            n = n + 1;
            len = len + 1;
        }
    }
    assert(fresh_with(*t, padded(name_base(*t), n), n));
    proof {
        let m = choose|m: nat| fresh_with(*t, padded(name_base(*t), m), m);
        lemma_fresh_unique(*t, n, m);
    }
    r
}

} // verus!
