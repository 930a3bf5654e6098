use kudi::ast::Ident;
use kudi::synth::{
    synthesize, wrapper_name, Capability, Fields, GenericParam, Generics, ParamKind, Shape, StateDecl,
    SynthError,
};

fn ident(s: &str) -> Ident {
    Ident { text: s.to_string() }
}

fn person_state() -> StateDecl {
    StateDecl {
        name: ident("PersonState"),
        generics: Generics {
            params: vec![
                GenericParam { kind: ParamKind::Lifetime, name: ident("'a"), bounds: String::new() },
                GenericParam { kind: ParamKind::Type, name: ident("S"), bounds: "?Sized".to_string() },
            ],
            where_clause: vec!["S: AsRef<str>".to_string()],
        },
        fields: Fields::Named(vec![ident("name")]),
    }
}

#[test]
fn test_generics() {
    let plan = synthesize(person_state(), Some(ident("Person"))).unwrap();
    assert_eq!(plan.wrapper.text, "Person");
    assert_eq!(plan.state.as_ref().unwrap().text, "PersonState");
    assert_eq!(plan.type_args(), vec!["'a".to_string(), "S".to_string(), "Ctn".to_string()]);
    // the bound list and where clause are carried unchanged
    assert_eq!(plan.generics.params[1].bounds, "?Sized");
    assert!(matches!(plan.generics.params[0].kind, ParamKind::Lifetime));
    assert_eq!(plan.generics.where_clause, vec!["S: AsRef<str>".to_string()]);
    let names: Vec<(&str, &str)> =
        plan.accessors.iter().map(|s| (s.inj_name(), s.prj_name())).collect();
    assert_eq!(
        names,
        vec![
            ("inj", "prj"),
            ("inj_ref", "prj_ref"),
            ("inj_ref_mut", "prj_ref_mut"),
            ("inj_box", "prj_box"),
            ("inj_rc", "prj_rc"),
            ("inj_arc", "prj_arc"),
            ("inj_pin_ref", "prj_pin_ref"),
            ("inj_pin_ref_mut", "prj_pin_ref_mut"),
            ("inj_pin_box", "prj_pin_box"),
            ("inj_pin_rc", "prj_pin_rc"),
            ("inj_pin_arc", "prj_pin_arc"),
        ]
    );
    assert_eq!(
        plan.impls,
        vec![
            (Shape::Value, Capability::From),
            (Shape::Ref, Capability::Deref),
            (Shape::Ref, Capability::AsRef),
            (Shape::RefMut, Capability::DerefMut),
            (Shape::RefMut, Capability::AsMut),
        ]
    );
}

#[test]
fn reference_like_shapes() {
    let like: Vec<Shape> = Shape::all().into_iter().filter(|s| s.is_reference_like()).collect();
    assert_eq!(like, vec![Shape::Ref, Shape::RefMut]);
    assert_eq!(Shape::PinArc.suffix(), "_pin_arc");
    assert_eq!(Shape::Value.suffix(), "");
}

#[test]
fn default_wrapper_name() {
    let plan = synthesize(person_state(), None).unwrap();
    assert_eq!(plan.wrapper.text, "Person");
    assert_eq!(wrapper_name(&ident("PersonState"), None).unwrap().text, "Person");
    assert_eq!(wrapper_name(&ident("PersonState"), Some(ident("P"))).unwrap().text, "P");
    assert!(wrapper_name(&ident("State"), None).is_none());
    assert!(wrapper_name(&ident("Statement"), None).is_none());
}

#[test]
fn missing_target() {
    let mut decl = person_state();
    decl.name = ident("Person");
    assert_eq!(synthesize(decl, None).err(), Some(SynthError::MissingTarget));
    let mut decl = person_state();
    decl.name = ident("State");
    assert_eq!(synthesize(decl, None).err(), Some(SynthError::MissingTarget));
}

#[test]
fn multiple_fields() {
    let mut decl = person_state();
    decl.fields = Fields::Named(vec![ident("name"), ident("age")]);
    assert_eq!(
        synthesize(decl, Some(ident("Person"))).err(),
        Some(SynthError::MultipleFields)
    );
    let mut decl = person_state();
    decl.fields = Fields::Unnamed(2);
    assert_eq!(
        synthesize(decl, Some(ident("Person"))).err(),
        Some(SynthError::MultipleFields)
    );
}

#[test]
fn container_name_taken() {
    let mut decl = person_state();
    decl.generics.params.push(GenericParam {
        kind: ParamKind::Type,
        name: ident("Ctn"),
        bounds: String::new(),
    });
    assert_eq!(
        synthesize(decl, Some(ident("Person"))).err(),
        Some(SynthError::ContainerNameTaken)
    );
}

#[test]
fn unit_state_with_target() {
    let decl = StateDecl {
        name: ident("Marker"),
        generics: Generics { params: vec![], where_clause: vec![] },
        fields: Fields::Unit,
    };
    let plan = synthesize(decl, Some(ident("Wrapped"))).unwrap();
    assert_eq!(plan.type_args(), vec!["Ctn".to_string()]);
    assert_eq!(plan.accessors.len(), 11);
}
