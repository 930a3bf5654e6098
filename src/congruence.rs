//! Facts about structural congruence, proved from its definition.
use vstd::prelude::*;
use crate::ast::{
    Expr, ImplItem, ImplItemConst, ItemImplTrait, Path, PathSegment, ReturnType, Type,
    TypeParamBound,
};
use crate::isomorph::{
    block_iso, bounds_iso, const_iso, ident_iso, item_iso, modifier_eq, path_iso, qself_refers,
    return_iso, segment_iso, type_iso, CompareCtx,
};

verus! {

/// The trait bounds of a bound list, in order.
pub open spec fn trait_bounds_of(s: Seq<TypeParamBound>) -> Seq<TypeParamBound>
    decreases s.len(),
{
    if s.len() == 0 {
        Seq::empty()
    } else if s[0] is Trait {
        seq![s[0]].add(trait_bounds_of(s.subrange(1, s.len() as int)))
    } else {
        trait_bounds_of(s.subrange(1, s.len() as int))
    }
}

/// Every qualified path `<T as Trait>::M` in the type resolves through the
/// context to its own last segment.
pub open spec fn type_resolves(t: Type, ctx: CompareCtx) -> bool
    decreases t, 0nat,
{
    match t {
        Type::Array { elem, len } => type_resolves(*elem, ctx),
        Type::BareFn { inputs, output } => (forall|k: int|
            0 <= k < inputs.len() ==> type_resolves(#[trigger] inputs@[k], ctx)) && return_resolves(
            output,
            ctx,
        ),
        Type::Group(e) => type_resolves(*e, ctx),
        Type::ImplTrait(bs) => bounds_resolve(bs@, ctx),
        Type::Paren(e) => type_resolves(*e, ctx),
        Type::Path { qself, path } => match qself {
            Some(x) => if x.position >= 1 {
                path.segments.len() > 0 && qself_refers(
                    qself,
                    path,
                    path.segments@[path.segments.len() - 1].ident,
                    ctx,
                )
            } else {
                type_resolves(*x.ty, ctx) && path_resolves(path, ctx)
            },
            None => path_resolves(path, ctx),
        },
        Type::Ptr { const_token, mutability, elem } => type_resolves(*elem, ctx),
        Type::Reference { mutability, elem } => type_resolves(*elem, ctx),
        Type::Slice(e) => type_resolves(*e, ctx),
        Type::TraitObject(bs) => bounds_resolve(bs@, ctx),
        Type::Tuple(es) => forall|k: int| 0 <= k < es.len() ==> type_resolves(#[trigger] es@[k], ctx),
        _ => true,
    }
}

pub open spec fn return_resolves(r: ReturnType, ctx: CompareCtx) -> bool
    decreases r, 0nat,
{
    match r {
        ReturnType::Type(t) => type_resolves(*t, ctx),
        ReturnType::Default => true,
    }
}

pub open spec fn path_resolves(p: Path, ctx: CompareCtx) -> bool
    decreases p, 0nat,
{
    forall|k: int| 0 <= k < p.segments.len() ==> segment_resolves(#[trigger] p.segments@[k], ctx)
}

pub open spec fn segment_resolves(s: PathSegment, ctx: CompareCtx) -> bool
    decreases s, 0nat,
{
    forall|j: int| 0 <= j < s.args.len() ==> type_resolves(#[trigger] s.args@[j], ctx)
}

pub open spec fn bounds_resolve(bs: Seq<TypeParamBound>, ctx: CompareCtx) -> bool
    decreases bs, 0nat,
{
    forall|k: int|
        0 <= k < bs.len() ==> match #[trigger] bs[k] {
            TypeParamBound::Trait { modifier, path } => path_resolves(path, ctx),
            _ => true,
        }
}

/// A type is congruent to itself under a context that its qualified paths
/// resolve through.
pub proof fn lemma_type_iso_refl(t: Type, ctx: CompareCtx)
    requires
        type_resolves(t, ctx),
    ensures
        type_iso(t, t, ctx),
    decreases t, 0nat,
{
    match t {
        Type::Array { elem, len } => lemma_type_iso_refl(*elem, ctx),
        Type::BareFn { inputs, output } => {
            assert forall|k: int| 0 <= k < inputs.len() implies type_iso(
                #[trigger] inputs@[k],
                inputs@[k],
                ctx,
            ) by {
                lemma_type_iso_refl(inputs@[k], ctx);
            }
            lemma_return_iso_refl(output, ctx);
        },
        Type::Group(e) => lemma_type_iso_refl(*e, ctx),
        Type::ImplTrait(bs) => lemma_bounds_iso_same_traits(bs@, bs@, ctx),
        Type::Paren(e) => lemma_type_iso_refl(*e, ctx),
        Type::Path { qself, path } => {
            match qself {
                Some(x) => {
                    if x.position < 1 {
                        lemma_type_iso_refl(*x.ty, ctx);
                        lemma_path_iso_refl(path, ctx);
                    }
                },
                None => lemma_path_iso_refl(path, ctx),
            }
        },
        Type::Ptr { const_token, mutability, elem } => lemma_type_iso_refl(*elem, ctx),
        Type::Reference { mutability, elem } => lemma_type_iso_refl(*elem, ctx),
        Type::Slice(e) => lemma_type_iso_refl(*e, ctx),
        Type::TraitObject(bs) => lemma_bounds_iso_same_traits(bs@, bs@, ctx),
        Type::Tuple(es) => {
            assert forall|k: int| 0 <= k < es.len() implies type_iso(
                #[trigger] es@[k],
                es@[k],
                ctx,
            ) by {
                lemma_type_iso_refl(es@[k], ctx);
            }
        },
        _ => {},
    }
}

/// A return type is congruent to itself under a context that its qualified
/// paths resolve through.
pub proof fn lemma_return_iso_refl(r: ReturnType, ctx: CompareCtx)
    requires
        return_resolves(r, ctx),
    ensures
        return_iso(r, r, ctx),
    decreases r, 0nat,
{
    match r {
        ReturnType::Type(t) => lemma_type_iso_refl(*t, ctx),
        ReturnType::Default => {},
    }
}

/// A path is congruent to itself under a context that the qualified paths in
/// its arguments resolve through.
pub proof fn lemma_path_iso_refl(p: Path, ctx: CompareCtx)
    requires
        path_resolves(p, ctx),
    ensures
        path_iso(p, p, ctx),
    decreases p, 0nat,
{
    assert forall|k: int| 0 <= k < p.segments.len() implies segment_iso(
        #[trigger] p.segments@[k],
        p.segments@[k],
        ctx,
    ) by {
        let s = p.segments@[k];
        assert(segment_resolves(s, ctx));
        assert forall|j: int| 0 <= j < s.args.len() implies type_iso(
            #[trigger] s.args@[j],
            s.args@[j],
            ctx,
        ) by {
            lemma_type_iso_refl(s.args@[j], ctx);
        }
    }
}

/// Two bound lists with the same trait bounds in the same order are
/// congruent, whatever other bounds stand between them.
pub proof fn lemma_bounds_iso_same_traits(
    a: Seq<TypeParamBound>,
    b: Seq<TypeParamBound>,
    ctx: CompareCtx,
)
    requires
        trait_bounds_of(a) == trait_bounds_of(b),
        bounds_resolve(a, ctx),
    ensures
        bounds_iso(a, b, ctx),
    decreases a, b.len(),
{
    let ra = a.subrange(1, a.len() as int);
    if a.len() > 0 {
        assert forall|k: int| 0 <= k < ra.len() implies match #[trigger] ra[k] {
            TypeParamBound::Trait { modifier, path } => path_resolves(path, ctx),
            _ => true,
        } by {
            assert(ra[k] == a[k + 1]);
        }
    }
    if a.len() > 0 && !(a[0] is Trait) {
        lemma_bounds_iso_same_traits(ra, b, ctx);
    } else if b.len() > 0 && !(b[0] is Trait) {
        lemma_bounds_iso_same_traits(a, b.subrange(1, b.len() as int), ctx);
    } else if a.len() == 0 || b.len() == 0 {
        if a.len() > 0 {
            assert(trait_bounds_of(a)[0] == a[0]);
        }
        if b.len() > 0 {
            assert(trait_bounds_of(b)[0] == b[0]);
        }
    } else {
        let ta = trait_bounds_of(ra);
        let tb = trait_bounds_of(b.subrange(1, b.len() as int));
        assert(trait_bounds_of(a)[0] == a[0]);
        assert(trait_bounds_of(b)[0] == b[0]);
        assert(ta =~= trait_bounds_of(a).subrange(1, trait_bounds_of(a).len() as int));
        assert(tb =~= trait_bounds_of(b).subrange(1, trait_bounds_of(b).len() as int));
        match a[0] {
            TypeParamBound::Trait { modifier, path } => {
                assert(match a[0] {
                    TypeParamBound::Trait { modifier, path } => path_resolves(path, ctx),
                    _ => true,
                });
                lemma_path_iso_refl(path, ctx);
                assert(modifier_eq(modifier, modifier));
            },
            _ => {},
        }
        lemma_bounds_iso_same_traits(ra, b.subrange(1, b.len() as int), ctx);
    }
}

/// Every constant and associated type of the block is a qualified self
/// reference, through the context's trait and target type, to the member of
/// its own name, and every qualified path in its types resolves through the
/// context.
pub open spec fn refers_through(b: ItemImplTrait, ctx: CompareCtx) -> bool {
    forall|k: int|
        0 <= k < b.items.len() ==> match #[trigger] b.items@[k] {
            ImplItem::Const(c) => type_resolves(c.ty, ctx) && match c.expr {
                Expr::Path { qself, path } => qself_refers(qself, path, c.ident, ctx),
                Expr::Verbatim => false,
            },
            ImplItem::Type(t) => match t.ty {
                Type::Path { qself, path } => qself_refers(qself, path, t.ident, ctx),
                _ => false,
            },
            ImplItem::Fn(f) => (forall|j: int|
                0 <= j < f.sig.inputs.len() ==> type_resolves(#[trigger] f.sig.inputs@[j], ctx))
                && return_resolves(f.sig.output, ctx),
            _ => true,
        }
}

/// A block is congruent to itself under a context whose trait and target type
/// its constants and associated types refer through.
pub proof fn lemma_block_reflexive(b: ItemImplTrait, ctx: CompareCtx)
    requires
        refers_through(b, ctx),
    ensures
        block_iso(b, b, ctx),
{
    assert forall|k: int| 0 <= k < b.items.len() implies item_iso(
        #[trigger] b.items@[k],
        b.items@[k],
        ctx,
    ) by {
        match b.items@[k] {
            ImplItem::Const(c) => lemma_type_iso_refl(c.ty, ctx),
            ImplItem::Fn(f) => {
                assert forall|j: int| 0 <= j < f.sig.inputs.len() implies type_iso(
                    #[trigger] f.sig.inputs@[j],
                    f.sig.inputs@[j],
                    ctx,
                ) by {
                    lemma_type_iso_refl(f.sig.inputs@[j], ctx);
                }
                lemma_return_iso_refl(f.sig.output, ctx);
            },
            _ => {},
        }
    }
}

/// Blocks with different numbers of members are never congruent.
pub proof fn lemma_member_count_differs(a: ItemImplTrait, b: ItemImplTrait, ctx: CompareCtx)
    requires
        a.items.len() != b.items.len(),
    ensures
        !block_iso(a, b, ctx),
{
}

/// A constant is never congruent to a member of another kind in the same
/// position.
pub proof fn lemma_kind_mismatch(a: ItemImplTrait, b: ItemImplTrait, ctx: CompareCtx, k: int)
    requires
        0 <= k < a.items.len(),
        k < b.items.len(),
        a.items@[k] is Const,
        !(b.items@[k] is Const),
    ensures
        !block_iso(a, b, ctx),
        !item_iso(a.items@[k], b.items@[k], ctx),
{
}

/// `const X: T = <S as Trait>::X;` is congruent to a target `const X: T`
/// when `S` is congruent to the context's target type and `Trait` is the
/// last segment of the context's trait.
pub proof fn lemma_qself_const_accepted(cand: ImplItemConst, target: ImplItemConst, ctx: CompareCtx)
    requires
        ident_iso(cand.ident, target.ident),
        cand.ty == target.ty,
        type_resolves(cand.ty, ctx),
        cand.expr matches Expr::Path { qself: Some(q), path } && q.position == 1
            && path.segments.len() == 2 && type_iso(*q.ty, ctx.target, ctx)
            && ctx.trait_.segments.len() > 0 && ident_iso(
            path.segments@[0].ident,
            ctx.trait_.segments@[ctx.trait_.segments.len() - 1].ident,
        ) && ident_iso(path.segments@[1].ident, target.ident),
    ensures
        const_iso(cand, target, ctx),
        item_iso(ImplItem::Const(cand), ImplItem::Const(target), ctx),
{
    lemma_type_iso_refl(cand.ty, ctx);
}

/// `const X: T = <S as Trait>::Y;` is not congruent to a target `const X: T`
/// when `S` is not congruent to the context's target type, or when `Y` is not
/// `X`.
pub proof fn lemma_qself_const_rejected(cand: ImplItemConst, target: ImplItemConst, ctx: CompareCtx)
    requires
        cand.expr matches Expr::Path { qself: Some(q), path } && q.position == 1
            && path.segments.len() == 2 && (!type_iso(*q.ty, ctx.target, ctx) || !ident_iso(
            path.segments@[1].ident,
            target.ident,
        )),
    ensures
        !const_iso(cand, target, ctx),
        !item_iso(ImplItem::Const(cand), ImplItem::Const(target), ctx),
{
}

/// A shared reference is never congruent to a mutable one.
pub proof fn lemma_reference_mutability(a: Type, b: Type, ctx: CompareCtx)
    requires
        a matches Type::Reference { mutability, .. } && !mutability,
        b matches Type::Reference { mutability, .. } && mutability,
    ensures
        !type_iso(a, b, ctx),
        !type_iso(b, a, ctx),
{
}

/// Tuples of different lengths are never congruent.
pub proof fn lemma_tuple_arity(a: Type, b: Type, ctx: CompareCtx)
    requires
        a matches Type::Tuple(xs) && b matches Type::Tuple(ys) && xs.len() != ys.len(),
    ensures
        !type_iso(a, b, ctx),
{
}

} // verus!
