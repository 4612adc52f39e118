use blanket::boxed;
use blanket::rc;
use blanket::{Call, GenericParam, ImplBlock, Method, SelfParam, TraitDecl};
use blanket::{Derive, DeriveError, Receiver};

fn s(x: &str) -> String {
    x.to_string()
}

fn texts(xs: &[&str]) -> Vec<String> {
    xs.iter().map(|x| s(x)).collect()
}

fn ty(name: &str, bounds: &[&str]) -> GenericParam {
    GenericParam::Type { name: s(name), bounds: texts(bounds) }
}

fn lifetime(name: &str, bounds: &[&str]) -> GenericParam {
    GenericParam::Lifetime { name: s(name), bounds: texts(bounds) }
}

fn by_ref() -> Option<SelfParam> {
    Some(SelfParam { reference: true, mutable: false, ty: None })
}

fn by_mut() -> Option<SelfParam> {
    Some(SelfParam { reference: true, mutable: true, ty: None })
}

fn by_value() -> Option<SelfParam> {
    Some(SelfParam { reference: false, mutable: false, ty: None })
}

fn typed(t: &str) -> Option<SelfParam> {
    Some(SelfParam { reference: false, mutable: false, ty: Some(s(t)) })
}

fn method(name: &str, receiver: Option<SelfParam>) -> Method {
    Method { name: s(name), receiver, args: Vec::new() }
}

fn decl(name: &str, params: Vec<GenericParam>, methods: Vec<Method>) -> TraitDecl {
    TraitDecl { name: s(name), params, where_clause: None, methods }
}

fn call(name: &str, derefs: usize) -> Call {
    Call { method: s(name), derefs, args: Vec::new() }
}

fn block(
    wrapper: Derive,
    trait_name: &str,
    trait_args: &[&str],
    params: Vec<GenericParam>,
    self_type: &str,
    methods: Vec<Call>,
) -> ImplBlock {
    ImplBlock {
        wrapper,
        trait_name: s(trait_name),
        trait_args: texts(trait_args),
        params,
        self_type: s(self_type),
        where_clause: None,
        methods,
    }
}

#[test]
fn box_empty() {
    let trait_ = decl("MyTrait", vec![], vec![]);
    let derived = boxed::derive(&trait_).unwrap();
    assert_eq!(
        derived,
        block(Derive::Box, "MyTrait", &[], vec![ty("MT", &["MyTrait"])], "MT", vec![])
    );
}

#[test]
fn box_receiver_ref() {
    let trait_ = decl("MyTrait", vec![], vec![method("my_method", by_ref())]);
    assert_eq!(
        boxed::derive(&trait_).unwrap(),
        block(
            Derive::Box,
            "MyTrait",
            &[],
            vec![ty("MT", &["MyTrait"])],
            "MT",
            vec![call("my_method", 2)]
        )
    );
}

#[test]
fn box_receiver_mut() {
    let trait_ = decl("MyTrait", vec![], vec![method("my_method", by_mut())]);
    assert_eq!(
        boxed::derive(&trait_).unwrap(),
        block(
            Derive::Box,
            "MyTrait",
            &[],
            vec![ty("MT", &["MyTrait"])],
            "MT",
            vec![call("my_method", 2)]
        )
    );
}

#[test]
fn box_receiver_self() {
    let trait_ = decl("MyTrait", vec![], vec![method("my_method", by_value())]);
    assert_eq!(
        boxed::derive(&trait_).unwrap(),
        block(
            Derive::Box,
            "MyTrait",
            &[],
            vec![ty("MT", &["MyTrait"])],
            "MT",
            vec![call("my_method", 1)]
        )
    );
}

#[test]
fn box_receiver_arbitrary() {
    let trait_ = decl("MyTrait", vec![], vec![method("my_method", typed("Box<Self>"))]);
    assert!(boxed::derive(&trait_).is_err());
}

#[test]
fn box_generics() {
    let trait_ = decl("MyTrait", vec![ty("T", &[])], vec![]);
    let derived = boxed::derive(&trait_).unwrap();
    assert_eq!(
        derived,
        block(
            Derive::Box,
            "MyTrait",
            &["T"],
            vec![ty("T", &[]), ty("MT", &["MyTrait<T>"])],
            "MT",
            vec![]
        )
    );
}

#[test]
fn box_generics_bounded() {
    let trait_ = decl("MyTrait", vec![ty("T", &["'static", "Send"])], vec![]);
    let derived = boxed::derive(&trait_).unwrap();
    assert_eq!(
        derived,
        block(
            Derive::Box,
            "MyTrait",
            &["T"],
            vec![ty("T", &["'static", "Send"]), ty("MT", &["MyTrait<T>"])],
            "MT",
            vec![]
        )
    );
}

#[test]
fn box_generics_lifetime() {
    let trait_ = decl(
        "MyTrait",
        vec![lifetime("'a", &[]), lifetime("'b", &["'a"]), ty("T", &["'static", "Send"])],
        vec![],
    );
    let derived = boxed::derive(&trait_).unwrap();
    assert_eq!(
        derived,
        block(
            Derive::Box,
            "MyTrait",
            &["'a", "'b", "T"],
            vec![
                lifetime("'a", &[]),
                lifetime("'b", &["'a"]),
                ty("T", &["'static", "Send"]),
                ty("MT", &["MyTrait<'a, 'b, T>"]),
            ],
            "MT",
            vec![]
        )
    );
}

#[test]
fn rc_empty() {
    let trait_ = decl("Trait", vec![], vec![]);
    assert_eq!(
        rc::derive(&trait_).unwrap(),
        block(Derive::Rc, "Trait", &[], vec![ty("T", &["Trait", "?Sized"])], "T", vec![])
    );
}

#[test]
fn rc_receiver_ref() {
    let trait_ = decl("Trait", vec![], vec![method("my_method", by_ref())]);
    assert_eq!(
        rc::derive(&trait_).unwrap(),
        block(
            Derive::Rc,
            "Trait",
            &[],
            vec![ty("T", &["Trait", "?Sized"])],
            "T",
            vec![call("my_method", 2)]
        )
    );
}

#[test]
fn rc_receiver_mut() {
    let trait_ = decl("Trait", vec![], vec![method("my_method", by_mut())]);
    assert!(rc::derive(&trait_).is_err());
}

#[test]
fn rc_receiver_self() {
    let trait_ = decl("Trait", vec![], vec![method("my_method", by_value())]);
    assert!(rc::derive(&trait_).is_err());
}

#[test]
fn rc_receiver_arbitrary() {
    let trait_ = decl("Trait", vec![], vec![method("my_method", typed("Box<Self>"))]);
    assert!(rc::derive(&trait_).is_err());
}

#[test]
fn rc_generics() {
    let trait_ = decl("MyTrait", vec![ty("T", &[])], vec![]);
    let derived = rc::derive(&trait_).unwrap();
    assert_eq!(
        derived,
        block(
            Derive::Rc,
            "MyTrait",
            &["T"],
            vec![ty("T", &[]), ty("MT", &["MyTrait<T>", "?Sized"])],
            "MT",
            vec![]
        )
    );
}

#[test]
fn rc_generics_bounded() {
    let trait_ = decl("MyTrait", vec![ty("T", &["'static", "Send"])], vec![]);
    let derived = rc::derive(&trait_).unwrap();
    assert_eq!(
        derived,
        block(
            Derive::Rc,
            "MyTrait",
            &["T"],
            vec![ty("T", &["'static", "Send"]), ty("MT", &["MyTrait<T>", "?Sized"])],
            "MT",
            vec![]
        )
    );
}

#[test]
fn rc_generics_lifetime() {
    let trait_ = decl(
        "MyTrait",
        vec![lifetime("'a", &[]), lifetime("'b", &["'a"]), ty("T", &["'static", "Send"])],
        vec![],
    );
    let derived = rc::derive(&trait_).unwrap();
    assert_eq!(
        derived,
        block(
            Derive::Rc,
            "MyTrait",
            &["'a", "'b", "T"],
            vec![
                lifetime("'a", &[]),
                lifetime("'b", &["'a"]),
                ty("T", &["'static", "Send"]),
                ty("MT", &["MyTrait<'a, 'b, T>", "?Sized"]),
            ],
            "MT",
            vec![]
        )
    );
}

#[test]
fn rc_errors_name_the_method_and_receiver() {
    let trait_ = decl(
        "Trait",
        vec![],
        vec![method("a", by_ref()), method("b", by_mut()), method("c", by_value())],
    );
    assert_eq!(
        rc::derive(&trait_),
        Err(DeriveError::UnsupportedReceiver {
            method: 1,
            receiver: Receiver::ByRef { mutable: true }
        })
    );
}
