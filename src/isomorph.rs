//! Structural congruence of types and of trait-implementation blocks.
use vstd::prelude::*;
use crate::ast::{
    Expr, Ident, ImplItem, ImplItemConst, ImplItemFn, ImplItemType, ItemImplTrait, Path, PathSegment,
    QSelf, ReturnType, TraitBoundModifier, Type, TypeParamBound,
};

verus! {

/// Identifiers are congruent when their texts are equal.
pub open spec fn ident_iso(a: Ident, b: Ident) -> bool {
    a.text@ == b.text@
}

pub open spec fn modifier_eq(a: TraitBoundModifier, b: TraitBoundModifier) -> bool {
    match (a, b) {
        (TraitBoundModifier::Plain, TraitBoundModifier::Plain) => true,
        (TraitBoundModifier::Maybe, TraitBoundModifier::Maybe) => true,
        _ => false,
    }
}

/// Congruence of type expressions: the same variant on both sides, with
/// congruent parts. A candidate path of the form `<T as Trait>::M` is
/// resolved through the context instead: it is congruent to a target path
/// that ends in `M`. Parentheses and groups are compared by their contents,
/// lifetimes are not compared, and never, inferred, macro and verbatim types
/// are congruent to any type of the same variant.
pub open spec fn type_iso(a: Type, b: Type, ctx: CompareCtx) -> bool
    decreases a, 0nat,
{
    match (a, b) {
        (Type::Array { elem: e1, len: l1 }, Type::Array { elem: e2, len: l2 }) =>
            type_iso(*e1, *e2, ctx) && l1@ == l2@,
        (Type::BareFn { inputs: i1, output: o1 }, Type::BareFn { inputs: i2, output: o2 }) =>
            i1.len() == i2.len()
            && (forall|k: int| 0 <= k < i1.len() ==> type_iso(#[trigger] i1@[k], i2@[k], ctx))
            && return_iso(o1, o2, ctx),
        (Type::Group(e1), Type::Group(e2)) => type_iso(*e1, *e2, ctx),
        (Type::ImplTrait(b1), Type::ImplTrait(b2)) => bounds_iso(b1@, b2@, ctx),
        (Type::Paren(e1), Type::Paren(e2)) => type_iso(*e1, *e2, ctx),
        (Type::Path { qself: q1, path: p1 }, Type::Path { qself: q2, path: p2 }) =>
            match (q1, q2) {
                (Some(x), _) if x.position >= 1 => p2.segments.len() > 0 && qself_refers(
                    q1,
                    p1,
                    p2.segments@[p2.segments.len() - 1].ident,
                    ctx,
                ),
                (None, None) => path_iso(p1, p2, ctx),
                (Some(x), Some(y)) =>
                    x.position == y.position && type_iso(*x.ty, *y.ty, ctx) && path_iso(p1, p2, ctx),
                _ => false,
            },
        (
            Type::Ptr { const_token: c1, mutability: m1, elem: e1 },
            Type::Ptr { const_token: c2, mutability: m2, elem: e2 },
        ) => c1 == c2 && m1 == m2 && type_iso(*e1, *e2, ctx),
        (Type::Reference { mutability: m1, elem: e1 }, Type::Reference { mutability: m2, elem: e2 }) =>
            m1 == m2 && type_iso(*e1, *e2, ctx),
        (Type::Slice(e1), Type::Slice(e2)) => type_iso(*e1, *e2, ctx),
        (Type::TraitObject(b1), Type::TraitObject(b2)) => bounds_iso(b1@, b2@, ctx),
        (Type::Tuple(e1), Type::Tuple(e2)) =>
            e1.len() == e2.len()
            && forall|k: int| 0 <= k < e1.len() ==> type_iso(#[trigger] e1@[k], e2@[k], ctx),
        (Type::Never, Type::Never) => true,
        (Type::Infer, Type::Infer) => true,
        (Type::Macro, Type::Macro) => true,
        (Type::Verbatim, Type::Verbatim) => true,
        _ => false,
    }
}

/// Congruence of return types: both absent, or both present and congruent.
pub open spec fn return_iso(a: ReturnType, b: ReturnType, ctx: CompareCtx) -> bool
    decreases a, 0nat,
{
    match (a, b) {
        (ReturnType::Default, ReturnType::Default) => true,
        (ReturnType::Type(t1), ReturnType::Type(t2)) => type_iso(*t1, *t2, ctx),
        _ => false,
    }
}

/// Congruence of paths: the same number of segments, with equal identifiers
/// and congruent type arguments, position by position.
pub open spec fn path_iso(a: Path, b: Path, ctx: CompareCtx) -> bool
    decreases a, 0nat,
{
    a.segments.len() == b.segments.len()
    && forall|k: int| 0 <= k < a.segments.len() ==> segment_iso(#[trigger] a.segments@[k], b.segments@[k], ctx)
}

pub open spec fn segment_iso(a: PathSegment, b: PathSegment, ctx: CompareCtx) -> bool
    decreases a, 0nat,
{
    ident_iso(a.ident, b.ident)
    && a.args.len() == b.args.len()
    && forall|k: int| 0 <= k < a.args.len() ==> type_iso(#[trigger] a.args@[k], b.args@[k], ctx)
}

/// Congruence of bound lists: the trait bounds, taken in order with all other
/// bounds skipped, pair up one to one with equal modifiers and congruent paths.
pub open spec fn bounds_iso(a: Seq<TypeParamBound>, b: Seq<TypeParamBound>, ctx: CompareCtx) -> bool
    decreases a, b.len(),
{
    if a.len() > 0 && !(a[0] is Trait) {
        bounds_iso(a.subrange(1, a.len() as int), b, ctx)
    } else if b.len() > 0 && !(b[0] is Trait) {
        bounds_iso(a, b.subrange(1, b.len() as int), ctx)
    } else if a.len() == 0 || b.len() == 0 {
        a.len() == 0 && b.len() == 0
    } else {
        match (a[0], b[0]) {
            (
                TypeParamBound::Trait { modifier: m1, path: p1 },
                TypeParamBound::Trait { modifier: m2, path: p2 },
            ) => modifier_eq(m1, m2) && path_iso(p1, p2, ctx) && bounds_iso(
                a.subrange(1, a.len() as int),
                b.subrange(1, b.len() as int), ctx
            ),
            _ => false,
        }
    }
}

/// The trait and the type that an implementation block is compared against.
/// Qualified self references in a candidate block must name this trait (by
/// its last segment) and this type.
pub struct CompareCtx {
    pub trait_: Path,
    pub target: Type,
}

impl CompareCtx {
    pub fn new(trait_: Path, target: Type) -> (r: CompareCtx)
        ensures
            r.trait_ == trait_,
            r.target == target,
    {
        CompareCtx { trait_, target }
    }
}

pub fn ident_isomorphic(a: &Ident, b: &Ident) -> (r: bool)
    ensures
        r == ident_iso(*a, *b),
{
    a.text == b.text
}

fn modifier_matches(a: &TraitBoundModifier, b: &TraitBoundModifier) -> (r: bool)
    ensures
        r == modifier_eq(*a, *b),
{
    match (a, b) {
        (TraitBoundModifier::Plain, TraitBoundModifier::Plain) => true,
        (TraitBoundModifier::Maybe, TraitBoundModifier::Maybe) => true,
        _ => false,
    }
}

/// Compares two type lists position by position.
pub fn types_isomorphic(xs: &Vec<Type>, ys: &Vec<Type>, ctx: &CompareCtx) -> (r: bool)
    ensures
        r == (xs.len() == ys.len() && forall|k: int|
            0 <= k < xs.len() ==> type_iso(#[trigger] xs@[k], ys@[k], *ctx)),
    decreases xs, 0nat,
{
    if xs.len() != ys.len() {
        return false;
    }
    let mut k: usize = 0;
    while k < xs.len()
        invariant
            k <= xs.len(),
            xs.len() == ys.len(),
            forall|j: int| 0 <= j < k ==> type_iso(#[trigger] xs@[j], ys@[j], *ctx),
        decreases xs.len() - k,
    {
        if !type_isomorphic(&xs[k], &ys[k], ctx) {
            return false;
        }
        k = k + 1;
    }
    true
}

/// Compares two return types.
pub fn return_isomorphic(a: &ReturnType, b: &ReturnType, ctx: &CompareCtx) -> (r: bool)
    ensures
        r == return_iso(*a, *b, *ctx),
    decreases a, 0nat,
{
    match (a, b) {
        (ReturnType::Default, ReturnType::Default) => true,
        (ReturnType::Type(t1), ReturnType::Type(t2)) => type_isomorphic(&**t1, &**t2, ctx),
        _ => false,
    }
}

/// Compares two paths segment by segment.
pub fn path_isomorphic(a: &Path, b: &Path, ctx: &CompareCtx) -> (r: bool)
    ensures
        r == path_iso(*a, *b, *ctx),
    decreases a, 0nat,
{
    if a.segments.len() != b.segments.len() {
        return false;
    }
    let mut k: usize = 0;
    while k < a.segments.len()
        invariant
            k <= a.segments.len(),
            a.segments.len() == b.segments.len(),
            forall|j: int| 0 <= j < k ==> segment_iso(#[trigger] a.segments@[j], b.segments@[j], *ctx),
        decreases a.segments.len() - k,
    {
        let sa = &a.segments[k];
        let sb = &b.segments[k];
        if !ident_isomorphic(&sa.ident, &sb.ident) {
            return false;
        }
        if !types_isomorphic(&sa.args, &sb.args, ctx) {
            return false;
        }
        k = k + 1;
    }
    true
}

/// Compares two bound lists by their trait bounds.
pub fn bounds_isomorphic(a: &Vec<TypeParamBound>, b: &Vec<TypeParamBound>, ctx: &CompareCtx) -> (r: bool)
    ensures
        r == bounds_iso(a@, b@, *ctx),
    decreases a, 0nat,
{
    let mut i: usize = 0;
    let mut j: usize = 0;
    assert(a@.subrange(0, a.len() as int) =~= a@);
    assert(b@.subrange(0, b.len() as int) =~= b@);
    while i < a.len() || j < b.len()
        invariant
            i <= a.len(),
            j <= b.len(),
            bounds_iso(a@, b@, *ctx) == bounds_iso(
                a@.subrange(i as int, a.len() as int),
                b@.subrange(j as int, b.len() as int),
                *ctx,
            ),
        decreases a.len() - i + b.len() - j,
    {
        let ghost sa = a@.subrange(i as int, a.len() as int);
        let ghost sb = b@.subrange(j as int, b.len() as int);
        if i < a.len() && !matches!(&a[i], TypeParamBound::Trait { .. }) {
            assert(sa.subrange(1, sa.len() as int) =~= a@.subrange(i + 1, a.len() as int));
            i = i + 1;
        } else if j < b.len() && !matches!(&b[j], TypeParamBound::Trait { .. }) {
            assert(sb.subrange(1, sb.len() as int) =~= b@.subrange(j + 1, b.len() as int));
            j = j + 1;
        } else if i == a.len() || j == b.len() {
            return false;
        } else {
            assert(sa.subrange(1, sa.len() as int) =~= a@.subrange(i + 1, a.len() as int));
            assert(sb.subrange(1, sb.len() as int) =~= b@.subrange(j + 1, b.len() as int));
            match (&a[i], &b[j]) {
                (
                    TypeParamBound::Trait { modifier: m1, path: p1 },
                    TypeParamBound::Trait { modifier: m2, path: p2 },
                ) => {
                    if !modifier_matches(m1, m2) || !path_isomorphic(p1, p2, ctx) {
                        return false;
                    }
                },
                _ => {
                    return false;
                },
            }
            i = i + 1;
            j = j + 1;
        }
    }
    true
}

/// Compares two type expressions.
pub fn type_isomorphic(a: &Type, b: &Type, ctx: &CompareCtx) -> (r: bool)
    ensures
        r == type_iso(*a, *b, *ctx),
    decreases a, 0nat,
{
    match (a, b) {
        (Type::Array { elem: e1, len: l1 }, Type::Array { elem: e2, len: l2 }) =>
            type_isomorphic(&**e1, &**e2, ctx) && *l1 == *l2,
        (Type::BareFn { inputs: i1, output: o1 }, Type::BareFn { inputs: i2, output: o2 }) =>
            types_isomorphic(i1, i2, ctx) && return_isomorphic(o1, o2, ctx),
        (Type::Group(e1), Type::Group(e2)) => type_isomorphic(&**e1, &**e2, ctx),
        (Type::ImplTrait(b1), Type::ImplTrait(b2)) => bounds_isomorphic(b1, b2, ctx),
        (Type::Paren(e1), Type::Paren(e2)) => type_isomorphic(&**e1, &**e2, ctx),
        (Type::Path { qself: q1, path: p1 }, Type::Path { qself: q2, path: p2 }) => {
            if let Some(x) = q1 {
                if x.position >= 1 {
                    if p2.segments.len() == 0 {
                        return false;
                    }
                    let last = p2.segments.len() - 1;
                    return qself_resolves(q1, p1, &p2.segments[last].ident, ctx);
                }
            }
            match (q1, q2) {
                (None, None) => path_isomorphic(p1, p2, ctx),
                (Some(x), Some(y)) =>
                    x.position == y.position && type_isomorphic(&*x.ty, &*y.ty, ctx)
                        && path_isomorphic(p1, p2, ctx),
                _ => false,
            }
        },
        (
            Type::Ptr { const_token: c1, mutability: m1, elem: e1 },
            Type::Ptr { const_token: c2, mutability: m2, elem: e2 },
        ) => *c1 == *c2 && *m1 == *m2 && type_isomorphic(&**e1, &**e2, ctx),
        (Type::Reference { mutability: m1, elem: e1 }, Type::Reference { mutability: m2, elem: e2 }) =>
            *m1 == *m2 && type_isomorphic(&**e1, &**e2, ctx),
        (Type::Slice(e1), Type::Slice(e2)) => type_isomorphic(&**e1, &**e2, ctx),
        (Type::TraitObject(b1), Type::TraitObject(b2)) => bounds_isomorphic(b1, b2, ctx),
        (Type::Tuple(e1), Type::Tuple(e2)) => types_isomorphic(e1, e2, ctx),
        (Type::Never, Type::Never) => true,
        (Type::Infer, Type::Infer) => true,
        (Type::Macro, Type::Macro) => true,
        (Type::Verbatim, Type::Verbatim) => true,
        _ => false,
    }
}

/// `<q.ty as ..::Trait>::member` where `q.ty` is congruent to the context's
/// target type, `Trait` is the last segment of the context's trait, and
/// `member` is the last segment of the path.
pub open spec fn qself_refers(q: Option<QSelf>, p: Path, member: Ident, ctx: CompareCtx) -> bool
    decreases q, 0nat,
{
    match q {
        Some(x) => {
            &&& 1 <= x.position
            &&& x.position + 1 == p.segments.len()
            &&& ctx.trait_.segments.len() > 0
            &&& type_iso(*x.ty, ctx.target, ctx)
            &&& ident_iso(
                p.segments@[x.position - 1].ident,
                ctx.trait_.segments@[ctx.trait_.segments.len() - 1].ident,
            )
            &&& ident_iso(p.segments@[x.position as int].ident, member)
        },
        None => false,
    }
}

pub open spec fn const_iso(a: ImplItemConst, b: ImplItemConst, ctx: CompareCtx) -> bool {
    &&& ident_iso(a.ident, b.ident)
    &&& type_iso(a.ty, b.ty, ctx)
    &&& match a.expr {
        Expr::Path { qself, path } => qself_refers(qself, path, b.ident, ctx),
        Expr::Verbatim => false,
    }
}

pub open spec fn type_item_iso(a: ImplItemType, b: ImplItemType, ctx: CompareCtx) -> bool {
    &&& ident_iso(a.ident, b.ident)
    &&& match a.ty {
        Type::Path { qself, path } => qself_refers(qself, path, b.ident, ctx),
        _ => false,
    }
}

/// Functions are congruent when their names are equal, their input types are
/// congruent position by position and their return types are congruent.
/// Parameter names and bodies are not compared.
pub open spec fn fn_iso(a: ImplItemFn, b: ImplItemFn, ctx: CompareCtx) -> bool {
    &&& ident_iso(a.sig.ident, b.sig.ident)
    &&& a.sig.inputs.len() == b.sig.inputs.len()
    &&& forall|k: int|
        0 <= k < a.sig.inputs.len() ==> type_iso(#[trigger] a.sig.inputs@[k], b.sig.inputs@[k], ctx)
    &&& return_iso(a.sig.output, b.sig.output, ctx)
}

/// Congruence of members: only members of the same kind are congruent.
pub open spec fn item_iso(a: ImplItem, b: ImplItem, ctx: CompareCtx) -> bool {
    match (a, b) {
        (ImplItem::Const(x), ImplItem::Const(y)) => const_iso(x, y, ctx),
        (ImplItem::Fn(x), ImplItem::Fn(y)) => fn_iso(x, y, ctx),
        (ImplItem::Type(x), ImplItem::Type(y)) => type_item_iso(x, y, ctx),
        (ImplItem::Macro, ImplItem::Macro) => true,
        (ImplItem::Verbatim, ImplItem::Verbatim) => true,
        _ => false,
    }
}

/// Congruence of blocks: as many members, congruent in declared order.
pub open spec fn block_iso(a: ItemImplTrait, b: ItemImplTrait, ctx: CompareCtx) -> bool {
    &&& a.items.len() == b.items.len()
    &&& forall|k: int| 0 <= k < a.items.len() ==> item_iso(#[trigger] a.items@[k], b.items@[k], ctx)
}

fn qself_resolves(q: &Option<QSelf>, p: &Path, member: &Ident, ctx: &CompareCtx) -> (r: bool)
    ensures
        r == qself_refers(*q, *p, *member, *ctx),
    decreases q, 0nat,
{
    match q {
        Some(x) => {
            if x.position == 0 || x.position >= p.segments.len() || x.position + 1
                != p.segments.len() || ctx.trait_.segments.len() == 0 {
                return false;
            }
            let last = ctx.trait_.segments.len() - 1;
            type_isomorphic(&*x.ty, &ctx.target, ctx) && ident_isomorphic(
                &p.segments[x.position - 1].ident,
                &ctx.trait_.segments[last].ident,
            ) && ident_isomorphic(&p.segments[x.position].ident, member)
        },
        None => false,
    }
}

/// Compares two constants: the candidate must take its value from the
/// target's constant of the same name through the context's trait.
pub fn const_isomorphic(a: &ImplItemConst, b: &ImplItemConst, ctx: &CompareCtx) -> (r: bool)
    ensures
        r == const_iso(*a, *b, *ctx),
{
    let v = ident_isomorphic(&a.ident, &b.ident) && type_isomorphic(&a.ty, &b.ty, ctx);
    let v_expr = match &a.expr {
        Expr::Path { qself, path } => qself_resolves(qself, path, &b.ident, ctx),
        Expr::Verbatim => false,
    };
    v && v_expr
}

/// Compares two associated types: the candidate must be the target's type of
/// the same name through the context's trait.
pub fn type_item_isomorphic(a: &ImplItemType, b: &ImplItemType, ctx: &CompareCtx) -> (r: bool)
    ensures
        r == type_item_iso(*a, *b, *ctx),
{
    let v = ident_isomorphic(&a.ident, &b.ident);
    let v_ty = match &a.ty {
        Type::Path { qself, path } => qself_resolves(qself, path, &b.ident, ctx),
        _ => false,
    };
    v && v_ty
}

/// Compares two function signatures.
pub fn fn_isomorphic(a: &ImplItemFn, b: &ImplItemFn, ctx: &CompareCtx) -> (r: bool)
    ensures
        r == fn_iso(*a, *b, *ctx),
{
    ident_isomorphic(&a.sig.ident, &b.sig.ident) && types_isomorphic(
        &a.sig.inputs,
        &b.sig.inputs,
        ctx,
    ) && return_isomorphic(&a.sig.output, &b.sig.output, ctx)
}

/// Compares two members.
pub fn item_isomorphic(a: &ImplItem, b: &ImplItem, ctx: &CompareCtx) -> (r: bool)
    ensures
        r == item_iso(*a, *b, *ctx),
{
    match (a, b) {
        (ImplItem::Const(x), ImplItem::Const(y)) => const_isomorphic(x, y, ctx),
        (ImplItem::Fn(x), ImplItem::Fn(y)) => fn_isomorphic(x, y, ctx),
        (ImplItem::Type(x), ImplItem::Type(y)) => type_item_isomorphic(x, y, ctx),
        (ImplItem::Macro, ImplItem::Macro) => true,
        (ImplItem::Verbatim, ImplItem::Verbatim) => true,
        _ => false,
    }
}

/// Compares a candidate block with a target block, member by member in
/// declared order.
pub fn block_isomorphic(ctn: &ItemImplTrait, target: &ItemImplTrait, ctx: &CompareCtx) -> (r: bool)
    ensures
        r == block_iso(*ctn, *target, *ctx),
{
    if ctn.items.len() != target.items.len() {
        return false;
    }
    let mut k: usize = 0;
    while k < ctn.items.len()
        invariant
            k <= ctn.items.len(),
            ctn.items.len() == target.items.len(),
            forall|j: int| 0 <= j < k ==> item_iso(#[trigger] ctn.items@[j], target.items@[j], *ctx),
        decreases ctn.items.len() - k,
    {
        if !item_isomorphic(&ctn.items[k], &target.items[k], ctx) {
            return false;
        }
        k = k + 1;
    }
    true
}

/// Structural congruence of a candidate against a target under a context.
pub trait Isomorphic: Sized {
    spec fn spec_isomorphic(ctn: Self, target: Self, ctx: CompareCtx) -> bool;

    fn is_isomorphic(ctn: &Self, target: &Self, ctx: &CompareCtx) -> (r: bool)
        ensures
            r == Self::spec_isomorphic(*ctn, *target, *ctx),
    ;
}

impl Isomorphic for ItemImplTrait {
    open spec fn spec_isomorphic(ctn: ItemImplTrait, target: ItemImplTrait, ctx: CompareCtx) -> bool {
        block_iso(ctn, target, ctx)
    }

    fn is_isomorphic(ctn: &ItemImplTrait, target: &ItemImplTrait, ctx: &CompareCtx) -> (r: bool) {
        block_isomorphic(ctn, target, ctx)
    }
}

impl Isomorphic for ImplItem {
    open spec fn spec_isomorphic(ctn: ImplItem, target: ImplItem, ctx: CompareCtx) -> bool {
        item_iso(ctn, target, ctx)
    }

    fn is_isomorphic(ctn: &ImplItem, target: &ImplItem, ctx: &CompareCtx) -> (r: bool) {
        item_isomorphic(ctn, target, ctx)
    }
}

impl Isomorphic for ImplItemConst {
    open spec fn spec_isomorphic(ctn: ImplItemConst, target: ImplItemConst, ctx: CompareCtx) -> bool {
        const_iso(ctn, target, ctx)
    }

    fn is_isomorphic(ctn: &ImplItemConst, target: &ImplItemConst, ctx: &CompareCtx) -> (r: bool) {
        const_isomorphic(ctn, target, ctx)
    }
}

impl Isomorphic for ImplItemFn {
    open spec fn spec_isomorphic(ctn: ImplItemFn, target: ImplItemFn, ctx: CompareCtx) -> bool {
        fn_iso(ctn, target, ctx)
    }

    fn is_isomorphic(ctn: &ImplItemFn, target: &ImplItemFn, ctx: &CompareCtx) -> (r: bool) {
        fn_isomorphic(ctn, target, ctx)
    }
}

impl Isomorphic for ImplItemType {
    open spec fn spec_isomorphic(ctn: ImplItemType, target: ImplItemType, ctx: CompareCtx) -> bool {
        type_item_iso(ctn, target, ctx)
    }

    fn is_isomorphic(ctn: &ImplItemType, target: &ImplItemType, ctx: &CompareCtx) -> (r: bool) {
        type_item_isomorphic(ctn, target, ctx)
    }
}

impl Isomorphic for Ident {
    open spec fn spec_isomorphic(ctn: Ident, target: Ident, ctx: CompareCtx) -> bool {
        ident_iso(ctn, target)
    }

    fn is_isomorphic(ctn: &Ident, target: &Ident, ctx: &CompareCtx) -> (r: bool) {
        ident_isomorphic(ctn, target)
    }
}

impl Isomorphic for Type {
    open spec fn spec_isomorphic(ctn: Type, target: Type, ctx: CompareCtx) -> bool {
        type_iso(ctn, target, ctx)
    }

    fn is_isomorphic(ctn: &Type, target: &Type, ctx: &CompareCtx) -> (r: bool) {
        type_isomorphic(ctn, target, ctx)
    }
}

impl Isomorphic for ReturnType {
    open spec fn spec_isomorphic(ctn: ReturnType, target: ReturnType, ctx: CompareCtx) -> bool {
        return_iso(ctn, target, ctx)
    }

    fn is_isomorphic(ctn: &ReturnType, target: &ReturnType, ctx: &CompareCtx) -> (r: bool) {
        return_isomorphic(ctn, target, ctx)
    }
}

impl Isomorphic for Path {
    open spec fn spec_isomorphic(ctn: Path, target: Path, ctx: CompareCtx) -> bool {
        path_iso(ctn, target, ctx)
    }

    fn is_isomorphic(ctn: &Path, target: &Path, ctx: &CompareCtx) -> (r: bool) {
        path_isomorphic(ctn, target, ctx)
    }
}

} // verus!
