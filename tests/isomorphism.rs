use kudi::ast::{
    Expr, Ident, ImplError, ImplItem, ImplItemConst, ImplItemFn, ImplItemType, ItemImplTrait,
    Path, PathSegment, QSelf, ReturnType, Signature, TraitBoundModifier, TraitRef, Type,
    TypeParamBound,
};
use kudi::isomorph::{type_isomorphic, CompareCtx, Isomorphic};

fn ident(s: &str) -> Ident {
    Ident { text: s.to_string() }
}

fn path(segs: &[&str]) -> Path {
    Path {
        segments: segs.iter().map(|s| PathSegment { ident: ident(s), args: vec![] }).collect(),
    }
}

fn named(s: &str) -> Type {
    Type::Path { qself: None, path: path(&[s]) }
}

fn generic(s: &str, args: Vec<Type>) -> Type {
    Type::Path { qself: None, path: Path { segments: vec![PathSegment { ident: ident(s), args }] } }
}

fn reference(mutability: bool, elem: Type) -> Type {
    Type::Reference { mutability, elem: Box::new(elem) }
}

/// `<subject as Cap>::member`
fn qself_path(subject: Type, cap: &str, member: &str) -> (Option<QSelf>, Path) {
    (Some(QSelf { ty: Box::new(subject), position: 1 }), path(&[cap, member]))
}

fn ctx() -> CompareCtx {
    CompareCtx::new(path(&["kudi", "Cap"]), generic("Person", vec![named("C")]))
}

fn qconst(name: &str, ty: Type, subject: Type, cap: &str, member: &str) -> ImplItem {
    let (qself, path) = qself_path(subject, cap, member);
    ImplItem::Const(ImplItemConst { ident: ident(name), ty, expr: Expr::Path { qself, path } })
}

fn target_const(name: &str, ty: Type) -> ImplItem {
    ImplItem::Const(ImplItemConst { ident: ident(name), ty, expr: Expr::Verbatim })
}

fn qtype(name: &str, subject: Type, cap: &str, member: &str) -> ImplItem {
    let (qself, path) = qself_path(subject, cap, member);
    ImplItem::Type(ImplItemType { ident: ident(name), ty: Type::Path { qself, path } })
}

fn func(name: &str, inputs: Vec<Type>, output: Option<Type>) -> ImplItem {
    ImplItem::Fn(ImplItemFn {
        sig: Signature {
            ident: ident(name),
            inputs,
            output: match output {
                Some(t) => ReturnType::Type(Box::new(t)),
                None => ReturnType::Default,
            },
        },
    })
}

fn block(items: Vec<ImplItem>) -> ItemImplTrait {
    let trait_ = TraitRef { negative: false, path: path(&["kudi", "Cap"]) };
    ItemImplTrait::new(Some(trait_), generic("Person", vec![named("C")]), items).ok().unwrap()
}

fn subject() -> Type {
    generic("Person", vec![named("C")])
}

fn canonical_block() -> ItemImplTrait {
    block(vec![
        qconst("X", named("u32"), subject(), "Cap", "X"),
        qtype("Out", subject(), "Cap", "Out"),
        func("get", vec![reference(false, named("Self"))], Some(named("u32"))),
        ImplItem::Macro,
    ])
}

#[test]
fn block_is_reflexive() {
    let b = canonical_block();
    assert!(Isomorphic::is_isomorphic(&b, &b, &ctx()));
}

#[test]
fn member_count_differs() {
    let a = canonical_block();
    let b = block(vec![qconst("X", named("u32"), subject(), "Cap", "X")]);
    assert!(!Isomorphic::is_isomorphic(&a, &b, &ctx()));
    assert!(!Isomorphic::is_isomorphic(&b, &a, &ctx()));
}

#[test]
fn members_are_paired_with_the_target() {
    let cand = block(vec![qconst("X", named("u32"), subject(), "Cap", "X")]);
    let target = block(vec![target_const("Y", named("u32"))]);
    assert!(!Isomorphic::is_isomorphic(&cand, &target, &ctx()));
    let target = block(vec![target_const("X", named("u32"))]);
    assert!(Isomorphic::is_isomorphic(&cand, &target, &ctx()));
}

#[test]
fn kind_mismatch() {
    let c = qconst("X", named("u32"), subject(), "Cap", "X");
    let t = qtype("X", subject(), "Cap", "X");
    let f = func("X", vec![], None);
    assert!(!Isomorphic::is_isomorphic(&c, &t, &ctx()));
    assert!(!Isomorphic::is_isomorphic(&c, &f, &ctx()));
    assert!(!Isomorphic::is_isomorphic(&ImplItem::Macro, &ImplItem::Verbatim, &ctx()));
    assert!(Isomorphic::is_isomorphic(&ImplItem::Verbatim, &ImplItem::Verbatim, &ctx()));
}

#[test]
fn qualified_self_accepted() {
    let cand = qconst("X", named("i64"), subject(), "Cap", "X");
    let target = target_const("X", named("i64"));
    assert!(Isomorphic::is_isomorphic(&cand, &target, &ctx()));
}

#[test]
fn qualified_self_rejected() {
    let target = target_const("X", named("i64"));
    let other_subject = qconst("X", named("i64"), generic("Person", vec![named("D")]), "Cap", "X");
    assert!(!Isomorphic::is_isomorphic(&other_subject, &target, &ctx()));
    let other_member = qconst("X", named("i64"), subject(), "Cap", "Y");
    assert!(!Isomorphic::is_isomorphic(&other_member, &target, &ctx()));
    let other_trait = qconst("X", named("i64"), subject(), "Other", "X");
    assert!(!Isomorphic::is_isomorphic(&other_trait, &target, &ctx()));
    let other_type = qconst("X", named("i32"), subject(), "Cap", "X");
    assert!(!Isomorphic::is_isomorphic(&other_type, &target, &ctx()));
    let plain = ImplItem::Const(ImplItemConst {
        ident: ident("X"),
        ty: named("i64"),
        expr: Expr::Path { qself: None, path: path(&["Cap", "X"]) },
    });
    assert!(!Isomorphic::is_isomorphic(&plain, &target, &ctx()));
}

#[test]
fn associated_type_through_qualified_self() {
    let target = ImplItem::Type(ImplItemType { ident: ident("Out"), ty: named("String") });
    assert!(Isomorphic::is_isomorphic(&qtype("Out", subject(), "Cap", "Out"), &target, &ctx()));
    assert!(!Isomorphic::is_isomorphic(&qtype("Out", named("String"), "Cap", "Out"), &target, &ctx()));
    let direct = ImplItem::Type(ImplItemType { ident: ident("Out"), ty: named("String") });
    assert!(!Isomorphic::is_isomorphic(&direct, &target, &ctx()));
}

#[test]
fn reference_mutability() {
    let a = reference(false, named("i32"));
    let b = reference(true, named("i32"));
    assert!(!type_isomorphic(&a, &b, &ctx()));
    assert!(!type_isomorphic(&b, &a, &ctx()));
    assert!(type_isomorphic(&b, &reference(true, named("i32")), &ctx()));
}

#[test]
fn tuple_arity() {
    let two = Type::Tuple(vec![named("i32"), named("u8")]);
    let three = Type::Tuple(vec![named("i32"), named("u8"), named("u8")]);
    assert!(!type_isomorphic(&two, &three, &ctx()));
    assert!(type_isomorphic(&Type::Tuple(vec![]), &Type::Tuple(vec![]), &ctx()));
    let swapped = Type::Tuple(vec![named("u8"), named("i32")]);
    assert!(!type_isomorphic(&two, &swapped, &ctx()));
}

#[test]
fn raw_pointers_need_equal_qualifiers() {
    let cst = Type::Ptr { const_token: true, mutability: false, elem: Box::new(named("u8")) };
    let mt = Type::Ptr { const_token: false, mutability: true, elem: Box::new(named("u8")) };
    // an inclusive-or rule would accept a pointer whose const marker matches
    // but whose mutability does not; the equality rule refuses it
    let half = Type::Ptr { const_token: true, mutability: true, elem: Box::new(named("u8")) };
    assert!(!type_isomorphic(&cst, &mt, &ctx()));
    assert!(!type_isomorphic(&cst, &half, &ctx()));
    assert!(type_isomorphic(&mt, &mt, &ctx()));
}

#[test]
fn parens_and_groups_are_transparent_to_their_contents() {
    let p1 = Type::Paren(Box::new(named("u8")));
    let p2 = Type::Paren(Box::new(named("u8")));
    let p3 = Type::Paren(Box::new(named("u16")));
    assert!(type_isomorphic(&p1, &p2, &ctx()));
    assert!(!type_isomorphic(&p1, &p3, &ctx()));
    let g = Type::Group(Box::new(named("u8")));
    assert!(type_isomorphic(&g, &Type::Group(Box::new(named("u8"))), &ctx()));
    assert!(!type_isomorphic(&p1, &named("u8"), &ctx()));
}

#[test]
fn arrays_and_slices() {
    let a = Type::Array { elem: Box::new(named("u8")), len: "4".to_string() };
    let b = Type::Array { elem: Box::new(named("u8")), len: "4".to_string() };
    let c = Type::Array { elem: Box::new(named("u8")), len: "2 + 2".to_string() };
    assert!(type_isomorphic(&a, &b, &ctx()));
    assert!(!type_isomorphic(&a, &c, &ctx()));
    assert!(type_isomorphic(&Type::Slice(Box::new(named("u8"))), &Type::Slice(Box::new(named("u8"))), &ctx()));
    assert!(!type_isomorphic(&a, &Type::Slice(Box::new(named("u8"))), &ctx()));
}

#[test]
fn bare_functions() {
    let f = |inputs: Vec<Type>, out: Option<Type>| Type::BareFn {
        inputs,
        output: match out {
            Some(t) => ReturnType::Type(Box::new(t)),
            None => ReturnType::Default,
        },
    };
    let a = f(vec![named("u8"), named("u16")], Some(named("bool")));
    assert!(type_isomorphic(&a, &f(vec![named("u8"), named("u16")], Some(named("bool"))), &ctx()));
    assert!(!type_isomorphic(&a, &f(vec![named("u8")], Some(named("bool"))), &ctx()));
    assert!(!type_isomorphic(&a, &f(vec![named("u8"), named("u16")], None), &ctx()));
    assert!(type_isomorphic(&f(vec![], None), &f(vec![], None), &ctx()));
}

#[test]
fn impl_trait_ignores_lifetime_bounds() {
    let tb = |m: TraitBoundModifier, p: &str| TypeParamBound::Trait { modifier: m, path: path(&[p]) };
    let a = Type::ImplTrait(vec![
        tb(TraitBoundModifier::Plain, "Debug"),
        TypeParamBound::Lifetime(ident("'a")),
        tb(TraitBoundModifier::Plain, "Send"),
    ]);
    let b = Type::ImplTrait(vec![tb(TraitBoundModifier::Plain, "Debug"), tb(TraitBoundModifier::Plain, "Send")]);
    assert!(type_isomorphic(&a, &b, &ctx()));
    let c = Type::ImplTrait(vec![tb(TraitBoundModifier::Maybe, "Debug"), tb(TraitBoundModifier::Plain, "Send")]);
    assert!(!type_isomorphic(&b, &c, &ctx()));
    let d = Type::ImplTrait(vec![tb(TraitBoundModifier::Plain, "Debug")]);
    assert!(!type_isomorphic(&b, &d, &ctx()));
    let e = Type::TraitObject(vec![tb(TraitBoundModifier::Plain, "Debug"), tb(TraitBoundModifier::Plain, "Send")]);
    assert!(!type_isomorphic(&b, &e, &ctx()));
}

#[test]
fn unexamined_types() {
    for (a, b) in [
        (Type::Never, Type::Never),
        (Type::Infer, Type::Infer),
        (Type::Macro, Type::Macro),
        (Type::Verbatim, Type::Verbatim),
    ] {
        assert!(type_isomorphic(&a, &b, &ctx()));
    }
    assert!(!type_isomorphic(&Type::Never, &Type::Infer, &ctx()));
}

#[test]
fn paths_compare_arguments() {
    let a = generic("Vec", vec![named("u8")]);
    assert!(type_isomorphic(&a, &generic("Vec", vec![named("u8")]), &ctx()));
    assert!(!type_isomorphic(&a, &generic("Vec", vec![named("u16")]), &ctx()));
    assert!(!type_isomorphic(&a, &generic("Box", vec![named("u8")]), &ctx()));
    assert!(!type_isomorphic(&named("a"), &Type::Path { qself: None, path: path(&["x", "a"]) }, &ctx()));
}

#[test]
fn functions_compare_signatures() {
    let f = func("get", vec![reference(false, named("Self"))], Some(named("u32")));
    assert!(Isomorphic::is_isomorphic(&f, &func("get", vec![reference(false, named("Self"))], Some(named("u32"))), &ctx()));
    assert!(!Isomorphic::is_isomorphic(&f, &func("put", vec![reference(false, named("Self"))], Some(named("u32"))), &ctx()));
    assert!(!Isomorphic::is_isomorphic(&f, &func("get", vec![reference(true, named("Self"))], Some(named("u32"))), &ctx()));
}

#[test]
fn inherent_block_is_refused() {
    let r = ItemImplTrait::new(None, named("Person"), vec![]);
    assert!(matches!(r, Err(ImplError::MissingTrait)));
    let b = block(vec![]);
    assert_eq!(b.sig_trait().path.segments.len(), 2);
    assert!(Isomorphic::is_isomorphic(&b, &block(vec![]), &ctx()));
}

#[test]
fn qualified_path_types_resolve_through_the_context() {
    let (qself, p) = qself_path(subject(), "Cap", "Out");
    let cand = Type::Path { qself, path: p };
    let target = Type::Path { qself: None, path: path(&["Self", "Out"]) };
    assert!(type_isomorphic(&cand, &target, &ctx()));
    let (qself, p) = qself_path(named("Other"), "Cap", "Out");
    assert!(!type_isomorphic(&Type::Path { qself, path: p }, &target, &ctx()));
    let (qself, p) = qself_path(subject(), "Cap", "In");
    assert!(!type_isomorphic(&Type::Path { qself, path: p }, &target, &ctx()));
    // a function returning the associated type through the trait
    let (qself, p) = qself_path(subject(), "Cap", "Out");
    let f = func("get", vec![], Some(Type::Path { qself, path: p }));
    let g = func("get", vec![], Some(Type::Path { qself: None, path: path(&["Self", "Out"]) }));
    assert!(Isomorphic::is_isomorphic(&f, &g, &ctx()));
}
