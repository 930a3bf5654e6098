//! Planning of the injection wrapper generated for a state declaration.
use vstd::prelude::*;
use crate::ast::Ident;

verus! {

/// The ownership and reference shapes in which a container can be injected
/// into the wrapper and projected back.
#[derive(Clone, Copy, Debug, PartialEq, Eq, Structural)]
pub enum Shape {
    Value,
    Ref,
    RefMut,
    Boxed,
    Rc,
    Arc,
    PinRef,
    PinRefMut,
    PinBoxed,
    PinRc,
    PinArc,
}

/// A trait implemented on the wrapper for one of its shapes.
#[derive(Clone, Copy, Debug, PartialEq, Eq, Structural)]
pub enum Capability {
    /// `Deref` to the state, through the container's `AsRef`.
    Deref,
    /// `DerefMut` to the state, through the container's `AsMut`.
    DerefMut,
    /// `AsRef` to the container.
    AsRef,
    /// `AsMut` to the container.
    AsMut,
    /// `From<Wrapper>` for the state, through the container's `Into`.
    From,
}

/// Every shape, in the order in which accessors are generated.
pub open spec fn all_shapes() -> Seq<Shape> {
    seq![
        Shape::Value,
        Shape::Ref,
        Shape::RefMut,
        Shape::Boxed,
        Shape::Rc,
        Shape::Arc,
        Shape::PinRef,
        Shape::PinRefMut,
        Shape::PinBoxed,
        Shape::PinRc,
        Shape::PinArc,
    ]
}

impl Shape {
    /// The suffix of the accessor names of this shape.
    pub open spec fn spec_suffix(self) -> Seq<char> {
        match self {
            Shape::Value => ""@,
            Shape::Ref => "_ref"@,
            Shape::RefMut => "_ref_mut"@,
            Shape::Boxed => "_box"@,
            Shape::Rc => "_rc"@,
            Shape::Arc => "_arc"@,
            Shape::PinRef => "_pin_ref"@,
            Shape::PinRefMut => "_pin_ref_mut"@,
            Shape::PinBoxed => "_pin_box"@,
            Shape::PinRc => "_pin_rc"@,
            Shape::PinArc => "_pin_arc"@,
        }
    }

    /// A shape that dereferences directly to the wrapper.
    pub open spec fn spec_is_reference_like(self) -> bool {
        self is Ref || self is RefMut
    }

    /// The traits implemented on the wrapper for this shape.
    pub open spec fn spec_capabilities(self) -> Seq<Capability> {
        match self {
            Shape::Value => seq![Capability::From],
            Shape::Ref => seq![Capability::Deref, Capability::AsRef],
            Shape::RefMut => seq![Capability::DerefMut, Capability::AsMut],
            _ => Seq::empty(),
        }
    }

    pub fn suffix(&self) -> (r: &'static str)
        ensures
            r@ == self.spec_suffix(),
    {
        match self {
            Shape::Value => "",
            Shape::Ref => "_ref",
            Shape::RefMut => "_ref_mut",
            Shape::Boxed => "_box",
            Shape::Rc => "_rc",
            Shape::Arc => "_arc",
            Shape::PinRef => "_pin_ref",
            Shape::PinRefMut => "_pin_ref_mut",
            Shape::PinBoxed => "_pin_box",
            Shape::PinRc => "_pin_rc",
            Shape::PinArc => "_pin_arc",
        }
    }

    /// The name of the injection of this shape.
    pub fn inj_name(&self) -> (r: &'static str)
        ensures
            r@ == "inj"@ + self.spec_suffix(),
    {
        proof {
            reveal_strlit("inj");
        }
        match self {
            Shape::Value => {
                proof {
                    reveal_strlit("");
                    reveal_strlit("inj");
                }
                assert("inj"@ =~= "inj"@ + ""@);
                "inj"
            },
            Shape::Ref => {
                proof {
                    reveal_strlit("_ref");
                    reveal_strlit("inj_ref");
                }
                assert("inj_ref"@ =~= "inj"@ + "_ref"@);
                "inj_ref"
            },
            Shape::RefMut => {
                proof {
                    reveal_strlit("_ref_mut");
                    reveal_strlit("inj_ref_mut");
                }
                assert("inj_ref_mut"@ =~= "inj"@ + "_ref_mut"@);
                "inj_ref_mut"
            },
            Shape::Boxed => {
                proof {
                    reveal_strlit("_box");
                    reveal_strlit("inj_box");
                }
                assert("inj_box"@ =~= "inj"@ + "_box"@);
                "inj_box"
            },
            Shape::Rc => {
                proof {
                    reveal_strlit("_rc");
                    reveal_strlit("inj_rc");
                }
                assert("inj_rc"@ =~= "inj"@ + "_rc"@);
                "inj_rc"
            },
            Shape::Arc => {
                proof {
                    reveal_strlit("_arc");
                    reveal_strlit("inj_arc");
                }
                assert("inj_arc"@ =~= "inj"@ + "_arc"@);
                "inj_arc"
            },
            Shape::PinRef => {
                proof {
                    reveal_strlit("_pin_ref");
                    reveal_strlit("inj_pin_ref");
                }
                assert("inj_pin_ref"@ =~= "inj"@ + "_pin_ref"@);
                "inj_pin_ref"
            },
            Shape::PinRefMut => {
                proof {
                    reveal_strlit("_pin_ref_mut");
                    reveal_strlit("inj_pin_ref_mut");
                }
                assert("inj_pin_ref_mut"@ =~= "inj"@ + "_pin_ref_mut"@);
                "inj_pin_ref_mut"
            },
            Shape::PinBoxed => {
                proof {
                    reveal_strlit("_pin_box");
                    reveal_strlit("inj_pin_box");
                }
                assert("inj_pin_box"@ =~= "inj"@ + "_pin_box"@);
                "inj_pin_box"
            },
            Shape::PinRc => {
                proof {
                    reveal_strlit("_pin_rc");
                    reveal_strlit("inj_pin_rc");
                }
                assert("inj_pin_rc"@ =~= "inj"@ + "_pin_rc"@);
                "inj_pin_rc"
            },
            Shape::PinArc => {
                proof {
                    reveal_strlit("_pin_arc");
                    reveal_strlit("inj_pin_arc");
                }
                assert("inj_pin_arc"@ =~= "inj"@ + "_pin_arc"@);
                "inj_pin_arc"
            },
        }
    }

    /// The name of the projection of this shape.
    pub fn prj_name(&self) -> (r: &'static str)
        ensures
            r@ == "prj"@ + self.spec_suffix(),
    {
        proof {
            reveal_strlit("prj");
        }
        match self {
            Shape::Value => {
                proof {
                    reveal_strlit("");
                    reveal_strlit("prj");
                }
                assert("prj"@ =~= "prj"@ + ""@);
                "prj"
            },
            Shape::Ref => {
                proof {
                    reveal_strlit("_ref");
                    reveal_strlit("prj_ref");
                }
                assert("prj_ref"@ =~= "prj"@ + "_ref"@);
                "prj_ref"
            },
            Shape::RefMut => {
                proof {
                    reveal_strlit("_ref_mut");
                    reveal_strlit("prj_ref_mut");
                }
                assert("prj_ref_mut"@ =~= "prj"@ + "_ref_mut"@);
                "prj_ref_mut"
            },
            Shape::Boxed => {
                proof {
                    reveal_strlit("_box");
                    reveal_strlit("prj_box");
                }
                assert("prj_box"@ =~= "prj"@ + "_box"@);
                "prj_box"
            },
            Shape::Rc => {
                proof {
                    reveal_strlit("_rc");
                    reveal_strlit("prj_rc");
                }
                assert("prj_rc"@ =~= "prj"@ + "_rc"@);
                "prj_rc"
            },
            Shape::Arc => {
                proof {
                    reveal_strlit("_arc");
                    reveal_strlit("prj_arc");
                }
                assert("prj_arc"@ =~= "prj"@ + "_arc"@);
                "prj_arc"
            },
            Shape::PinRef => {
                proof {
                    reveal_strlit("_pin_ref");
                    reveal_strlit("prj_pin_ref");
                }
                assert("prj_pin_ref"@ =~= "prj"@ + "_pin_ref"@);
                "prj_pin_ref"
            },
            Shape::PinRefMut => {
                proof {
                    reveal_strlit("_pin_ref_mut");
                    reveal_strlit("prj_pin_ref_mut");
                }
                assert("prj_pin_ref_mut"@ =~= "prj"@ + "_pin_ref_mut"@);
                "prj_pin_ref_mut"
            },
            Shape::PinBoxed => {
                proof {
                    reveal_strlit("_pin_box");
                    reveal_strlit("prj_pin_box");
                }
                assert("prj_pin_box"@ =~= "prj"@ + "_pin_box"@);
                "prj_pin_box"
            },
            Shape::PinRc => {
                proof {
                    reveal_strlit("_pin_rc");
                    reveal_strlit("prj_pin_rc");
                }
                assert("prj_pin_rc"@ =~= "prj"@ + "_pin_rc"@);
                "prj_pin_rc"
            },
            Shape::PinArc => {
                proof {
                    reveal_strlit("_pin_arc");
                    reveal_strlit("prj_pin_arc");
                }
                assert("prj_pin_arc"@ =~= "prj"@ + "_pin_arc"@);
                "prj_pin_arc"
            },
        }
    }

    pub fn is_reference_like(&self) -> (r: bool)
        ensures
            r == self.spec_is_reference_like(),
    {
        matches!(self, Shape::Ref | Shape::RefMut)
    }
}

impl Shape {
    /// Every shape, in the order in which accessors are generated.
    pub fn all() -> (r: Vec<Shape>)
        ensures
            r@ == all_shapes(),
    {
        let r = vec![
            Shape::Value,
            Shape::Ref,
            Shape::RefMut,
            Shape::Boxed,
            Shape::Rc,
            Shape::Arc,
            Shape::PinRef,
            Shape::PinRefMut,
            Shape::PinBoxed,
            Shape::PinRc,
            Shape::PinArc,
        ];
        assert(r@ =~= all_shapes());
        r
    }
}

/// The kind of a generic parameter.
pub enum ParamKind {
    Lifetime,
    Type,
    Const,
}

/// A generic parameter: its name (a lifetime's with its quote) and the token
/// text of its bounds, or of a constant parameter's type.
pub struct GenericParam {
    pub kind: ParamKind,
    pub name: Ident,
    pub bounds: String,
}

/// The generic parameters of a declaration and the token text of each
/// predicate of its where clause.
pub struct Generics {
    pub params: Vec<GenericParam>,
    pub where_clause: Vec<String>,
}

/// The fields of a state declaration.
pub enum Fields {
    Unit,
    Named(Vec<Ident>),
    Unnamed(usize),
}

/// A state declaration: the struct that a wrapper is generated for.
pub struct StateDecl {
    pub name: Ident,
    pub generics: Generics,
    pub fields: Fields,
}

/// Why no wrapper can be generated for a declaration.
#[derive(Clone, Copy, Debug, PartialEq, Eq, Structural)]
pub enum SynthError {
    /// A marker wrapper was asked of a struct that has fields.
    ExpectedUnitStruct,
    /// The state has more than one field.
    MultipleFields,
    /// No wrapper name was given.
    MissingTarget,
    /// A generic parameter of the state has the container parameter's name.
    ContainerNameTaken,
}

/// What is generated for a state declaration: the wrapper type, generic over
/// the state's own parameters and one more for the container; an injection
/// and a projection for each shape in `accessors`; and the trait
/// implementations in `impls`.
pub struct WrapperPlan {
    pub wrapper: Ident,
    /// The state that the wrapper dereferences to; none for a marker wrapper.
    pub state: Option<Ident>,
    pub generics: Generics,
    pub container: Ident,
    pub accessors: Vec<Shape>,
    pub impls: Vec<(Shape, Capability)>,
}

/// A wrapper name is given or can be derived from the state's.
pub open spec fn named(decl: StateDecl, target: Option<Ident>) -> bool {
    target is Some || default_wrapper_name(decl.name.text@) is Some
}

/// The name of the planned wrapper.
pub open spec fn planned_name(decl: StateDecl, target: Option<Ident>) -> Seq<char> {
    match target {
        Some(t) => t.text@,
        None => default_wrapper_name(decl.name.text@)->Some_0,
    }
}

/// The name of the container parameter added to the wrapper.
pub open spec fn container_name() -> Seq<char> {
    "Ctn"@
}

pub open spec fn field_count(f: Fields) -> nat {
    match f {
        Fields::Unit => 0,
        Fields::Named(v) => v@.len(),
        Fields::Unnamed(n) => n as nat,
    }
}

pub open spec fn names_container(g: Generics) -> bool {
    exists|k: int| 0 <= k < g.params.len() && #[trigger] g.params@[k].name.text@ == container_name()
}

/// The trait implementations of the given shapes, shape by shape.
pub open spec fn planned_impls(shapes: Seq<Shape>) -> Seq<(Shape, Capability)>
    decreases shapes.len(),
{
    if shapes.len() == 0 {
        Seq::empty()
    } else {
        let s = shapes.last();
        planned_impls(shapes.drop_last()) + s.spec_capabilities().map_values(
            |c: Capability| (s, c),
        )
    }
}

fn container_ident() -> (r: Ident)
    ensures
        r.text@ == container_name(),
{
    Ident { text: "Ctn".to_owned() }
}

fn container_taken(g: &Generics) -> (r: bool)
    ensures
        r == names_container(*g),
{
    let c = container_ident();
    let mut k: usize = 0;
    while k < g.params.len()
        invariant
            k <= g.params.len(),
            c.text@ == container_name(),
            forall|j: int| 0 <= j < k ==> #[trigger] g.params@[j].name.text@ != container_name(),
        decreases g.params.len() - k,
    {
        if g.params[k].name.text == c.text {
            return true;
        }
        k = k + 1;
    }
    false
}

fn state_impls() -> (r: Vec<(Shape, Capability)>)
    ensures
        r@ == planned_impls(all_shapes()),
{
    let shapes = Shape::all();
    let mut r: Vec<(Shape, Capability)> = Vec::new();
    let mut i: usize = 0;
    assert(all_shapes().subrange(0, 0) =~= Seq::<Shape>::empty());
    while i < shapes.len()
        invariant
            i <= shapes.len(),
            shapes@ == all_shapes(),
            r@ == planned_impls(all_shapes().subrange(0, i as int)),
        decreases shapes.len() - i,
    {
        let s = shapes[i];
        let ghost before = r@;
        let ghost pre = all_shapes().subrange(0, i as int);
        let ghost next = all_shapes().subrange(0, i + 1);
        assert(next.drop_last() =~= pre);
        assert(next.last() == s);
        match s {
            Shape::Value => {
                r.push((s, Capability::From));
            },
            Shape::Ref => {
                r.push((s, Capability::Deref));
                r.push((s, Capability::AsRef));
            },
            Shape::RefMut => {
                r.push((s, Capability::DerefMut));
                r.push((s, Capability::AsMut));
            },
            _ => {},
        }
        assert(r@ =~= before + s.spec_capabilities().map_values(|c: Capability| (s, c)));
        i = i + 1;
    }
    assert(all_shapes().subrange(0, 11) =~= all_shapes());
    r
}

/// The conventional suffix of a state's name; the wrapper's name defaults to
/// the state's without it.
pub open spec fn state_suffix() -> Seq<char> {
    "State"@
}

pub open spec fn ends_with(s: Seq<char>, suffix: Seq<char>) -> bool {
    s.len() >= suffix.len() && s.subrange(s.len() - suffix.len(), s.len() as int) == suffix
}

/// The wrapper name that a state name gives when none is supplied.
pub open spec fn default_wrapper_name(state: Seq<char>) -> Option<Seq<char>> {
    if ends_with(state, state_suffix()) && state.len() > state_suffix().len() {
        Some(state.subrange(0, state.len() - state_suffix().len()))
    } else {
        None
    }
}

/// Relies on `str::strip_suffix`: the text before `suffix` when `s` ends with
/// it, and nothing otherwise.
#[verifier::external_body]
fn strip_suffix(s: &String, suffix: &str) -> (r: Option<String>)
    ensures
        r is Some <==> ends_with(s@, suffix@),
        r matches Some(p) ==> p@ + suffix@ == s@,
{
    s.strip_suffix(suffix).map(|p| p.to_string())
}

/// The wrapper name: the given one, or the state's name without its `State`
/// suffix.
pub fn wrapper_name(state: &Ident, target: Option<Ident>) -> (r: Option<Ident>)
    ensures
        target is Some ==> r == target,
        target is None ==> (match default_wrapper_name(state.text@) {
            Some(n) => r matches Some(i) && i.text@ == n,
            None => r is None,
        }),
{
    if let Some(t) = target {
        return Some(t);
    }
    proof {
        reveal_strlit("State");
    }
    match strip_suffix(&state.text, "State") {
        Some(p) => {
            let ghost n = state.text@;
            assert(p@ =~= n.subrange(0, n.len() - 5));
            if p.as_str().is_empty() {
                None
            } else {
                Some(Ident { text: p })
            }
        },
        None => None,
    }
}

/// Plans the wrapper for a state declaration, named `target` or, when none is
/// given, after the state without its `State` suffix: it dereferences to the
/// state and carries the state's generics and where clause unchanged.
pub fn synthesize(decl: StateDecl, target: Option<Ident>) -> (r: Result<WrapperPlan, SynthError>)
    ensures
        target is None && default_wrapper_name(decl.name.text@) is None ==> r == Err::<
            WrapperPlan,
            SynthError,
        >(SynthError::MissingTarget),
        named(decl, target) && field_count(decl.fields) > 1 ==> r == Err::<WrapperPlan, SynthError>(
            SynthError::MultipleFields,
        ),
        named(decl, target) && field_count(decl.fields) <= 1 && names_container(decl.generics) ==> r
            == Err::<WrapperPlan, SynthError>(SynthError::ContainerNameTaken),
        named(decl, target) && field_count(decl.fields) <= 1 && !names_container(decl.generics) ==> (
        r matches Ok(p) && p.wrapper.text@ == planned_name(decl, target) && p.state == Some(
            decl.name,
        ) && p.generics == decl.generics && p.container.text@ == container_name() && p.accessors@
            == all_shapes() && p.impls@ == planned_impls(all_shapes())),
        target is Some && r is Ok ==> r->Ok_0.wrapper == target->Some_0,
{
    let wrapper = match wrapper_name(&decl.name, target) {
        Some(t) => t,
        None => {
            return Err(SynthError::MissingTarget);
        },
    };
    let many = match &decl.fields {
        Fields::Unit => false,
        Fields::Named(v) => v.len() > 1,
        Fields::Unnamed(n) => *n > 1,
    };
    if many {
        return Err(SynthError::MultipleFields);
    }
    if container_taken(&decl.generics) {
        return Err(SynthError::ContainerNameTaken);
    }
    Ok(
        WrapperPlan {
            wrapper,
            state: Some(decl.name),
            generics: decl.generics,
            container: container_ident(),
            accessors: Shape::all(),
            impls: state_impls(),
        },
    )
}

/// Plans a marker wrapper: the unit struct itself becomes the wrapper, generic
/// over its own parameters and the container, with every accessor and no
/// trait implementation.
pub fn synthesize_marker(decl: StateDecl) -> (r: Result<WrapperPlan, SynthError>)
    ensures
        !(decl.fields is Unit) ==> r == Err::<WrapperPlan, SynthError>(
            SynthError::ExpectedUnitStruct,
        ),
        decl.fields is Unit && names_container(decl.generics) ==> r == Err::<
            WrapperPlan,
            SynthError,
        >(SynthError::ContainerNameTaken),
        decl.fields is Unit && !names_container(decl.generics) ==> (r matches Ok(p) && p.wrapper
            == decl.name && p.state is None && p.generics == decl.generics && p.container.text@
            == container_name() && p.accessors@ == all_shapes() && p.impls@.len() == 0),
{
    if !matches!(decl.fields, Fields::Unit) {
        return Err(SynthError::ExpectedUnitStruct);
    }
    if container_taken(&decl.generics) {
        return Err(SynthError::ContainerNameTaken);
    }
    Ok(
        WrapperPlan {
            wrapper: decl.name,
            state: None,
            generics: decl.generics,
            container: container_ident(),
            accessors: Shape::all(),
            impls: Vec::new(),
        },
    )
}

impl WrapperPlan {
    /// The wrapper's type arguments: the name of each of the state's
    /// parameters, in order, then the container's.
    pub fn type_args(&self) -> (r: Vec<String>)
        ensures
            r@.len() == self.generics.params.len() + 1,
            forall|k: int|
                0 <= k < self.generics.params.len() ==> (#[trigger] r@[k])@
                    == self.generics.params@[k].name.text@,
            r@[r@.len() - 1]@ == self.container.text@,
    {
        let mut r: Vec<String> = Vec::new();
        let mut k: usize = 0;
        while k < self.generics.params.len()
            invariant
                k <= self.generics.params.len(),
                r@.len() == k,
                forall|j: int|
                    0 <= j < k ==> (#[trigger] r@[j])@ == self.generics.params@[j].name.text@,
            decreases self.generics.params.len() - k,
        {
            r.push(self.generics.params[k].name.text.clone());
            k = k + 1;
        }
        r.push(self.container.text.clone());
        r
    }
}

/// Each shape has its own accessor suffix, so the injections (and the
/// projections) of two different shapes never share a name.
pub proof fn lemma_suffixes_distinct(s: Shape, t: Shape)
    requires
        s != t,
    ensures
        s.spec_suffix() != t.spec_suffix(),
        "inj"@ + s.spec_suffix() != "inj"@ + t.spec_suffix(),
        "prj"@ + s.spec_suffix() != "prj"@ + t.spec_suffix(),
{
    reveal_strlit("");
    reveal_strlit("_ref");
    reveal_strlit("_ref_mut");
    reveal_strlit("_box");
    reveal_strlit("_rc");
    reveal_strlit("_arc");
    reveal_strlit("_pin_ref");
    reveal_strlit("_pin_ref_mut");
    reveal_strlit("_pin_box");
    reveal_strlit("_pin_rc");
    reveal_strlit("_pin_arc");
    reveal_strlit("inj");
    reveal_strlit("prj");
    let a = s.spec_suffix();
    let b = t.spec_suffix();
    if a.len() == b.len() && a.len() > 5 {
        assert(a[1] != b[1] || a[5] != b[5]);
    } else if a.len() == b.len() && a.len() > 1 {
        assert(a[1] != b[1]);
    }
    assert(("inj"@ + a).subrange(3, ("inj"@ + a).len() as int) =~= a);
    assert(("inj"@ + b).subrange(3, ("inj"@ + b).len() as int) =~= b);
    assert(("prj"@ + a).subrange(3, ("prj"@ + a).len() as int) =~= a);
    assert(("prj"@ + b).subrange(3, ("prj"@ + b).len() as int) =~= b);
}

proof fn lemma_planned_step(shapes: Seq<Shape>, k: int)
    requires
        0 <= k < shapes.len(),
    ensures
        planned_impls(shapes.subrange(0, k + 1)) == planned_impls(shapes.subrange(0, k))
            + shapes[k].spec_capabilities().map_values(|c: Capability| (shapes[k], c)),
{
    assert(shapes.subrange(0, k + 1).drop_last() =~= shapes.subrange(0, k));
}

/// The trait implementations planned for a state: `From` for the value
/// shape, `Deref` and `AsRef` for the shared reference, `DerefMut` and
/// `AsMut` for the mutable reference, and none for any other shape.
pub proof fn lemma_planned_impls()
    ensures
        planned_impls(all_shapes()) == seq![
            (Shape::Value, Capability::From),
            (Shape::Ref, Capability::Deref),
            (Shape::Ref, Capability::AsRef),
            (Shape::RefMut, Capability::DerefMut),
            (Shape::RefMut, Capability::AsMut),
        ],
{
    let all = all_shapes();
    assert(all.subrange(0, 0) =~= Seq::<Shape>::empty());
    lemma_planned_step(all, 0);
    lemma_planned_step(all, 1);
    lemma_planned_step(all, 2);
    lemma_planned_step(all, 3);
    lemma_planned_step(all, 4);
    lemma_planned_step(all, 5);
    lemma_planned_step(all, 6);
    lemma_planned_step(all, 7);
    lemma_planned_step(all, 8);
    lemma_planned_step(all, 9);
    lemma_planned_step(all, 10);
    assert(planned_impls(all.subrange(0, 1)) =~= seq![(Shape::Value, Capability::From)]);
    assert(planned_impls(all.subrange(0, 2)) =~= seq![(Shape::Value, Capability::From), (Shape::Ref, Capability::Deref), (Shape::Ref, Capability::AsRef)]);
    assert(planned_impls(all.subrange(0, 3)) =~= seq![(Shape::Value, Capability::From), (Shape::Ref, Capability::Deref), (Shape::Ref, Capability::AsRef), (Shape::RefMut, Capability::DerefMut), (Shape::RefMut, Capability::AsMut)]);
    assert(planned_impls(all.subrange(0, 4)) =~= seq![(Shape::Value, Capability::From), (Shape::Ref, Capability::Deref), (Shape::Ref, Capability::AsRef), (Shape::RefMut, Capability::DerefMut), (Shape::RefMut, Capability::AsMut)]);
    assert(planned_impls(all.subrange(0, 5)) =~= seq![(Shape::Value, Capability::From), (Shape::Ref, Capability::Deref), (Shape::Ref, Capability::AsRef), (Shape::RefMut, Capability::DerefMut), (Shape::RefMut, Capability::AsMut)]);
    assert(planned_impls(all.subrange(0, 6)) =~= seq![(Shape::Value, Capability::From), (Shape::Ref, Capability::Deref), (Shape::Ref, Capability::AsRef), (Shape::RefMut, Capability::DerefMut), (Shape::RefMut, Capability::AsMut)]);
    assert(planned_impls(all.subrange(0, 7)) =~= seq![(Shape::Value, Capability::From), (Shape::Ref, Capability::Deref), (Shape::Ref, Capability::AsRef), (Shape::RefMut, Capability::DerefMut), (Shape::RefMut, Capability::AsMut)]);
    assert(planned_impls(all.subrange(0, 8)) =~= seq![(Shape::Value, Capability::From), (Shape::Ref, Capability::Deref), (Shape::Ref, Capability::AsRef), (Shape::RefMut, Capability::DerefMut), (Shape::RefMut, Capability::AsMut)]);
    assert(planned_impls(all.subrange(0, 9)) =~= seq![(Shape::Value, Capability::From), (Shape::Ref, Capability::Deref), (Shape::Ref, Capability::AsRef), (Shape::RefMut, Capability::DerefMut), (Shape::RefMut, Capability::AsMut)]);
    assert(planned_impls(all.subrange(0, 10)) =~= seq![(Shape::Value, Capability::From), (Shape::Ref, Capability::Deref), (Shape::Ref, Capability::AsRef), (Shape::RefMut, Capability::DerefMut), (Shape::RefMut, Capability::AsMut)]);
    assert(planned_impls(all.subrange(0, 11)) =~= seq![(Shape::Value, Capability::From), (Shape::Ref, Capability::Deref), (Shape::Ref, Capability::AsRef), (Shape::RefMut, Capability::DerefMut), (Shape::RefMut, Capability::AsMut)]);
    assert(all.subrange(0, 11) =~= all);
}

} // verus!
