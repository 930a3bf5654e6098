//! The declaration tree that isomorphism comparisons work on.
use vstd::prelude::*;

verus! {

/// An identifier, compared by its exact text.
pub struct Ident {
    pub text: String,
}

/// One segment of a path, with the types among its generic arguments.
/// Lifetime arguments are not carried: they are not compared.
pub struct PathSegment {
    pub ident: Ident,
    pub args: Vec<Type>,
}

/// A path such as `core::ops::Deref` or `Vec<T>`.
pub struct Path {
    pub segments: Vec<PathSegment>,
}

/// The `<T as Trait>` part of a qualified path. `position` is the number of
/// leading segments of the path that name the trait; it is `0` when there is
/// no `as Trait` part.
pub struct QSelf {
    pub ty: Box<Type>,
    pub position: usize,
}

/// The modifier of a trait bound.
pub enum TraitBoundModifier {
    Plain,
    Maybe,
}

/// One bound of an `impl Trait` or `dyn Trait` type.
pub enum TypeParamBound {
    Trait { modifier: TraitBoundModifier, path: Path },
    Lifetime(Ident),
    Verbatim,
}

/// The return type of a function signature.
pub enum ReturnType {
    Default,
    Type(Box<Type>),
}

/// A type expression.
pub enum Type {
    /// `[elem; len]`; the length expression is kept as its token text.
    Array { elem: Box<Type>, len: String },
    /// `fn(inputs) -> output`.
    BareFn { inputs: Vec<Type>, output: ReturnType },
    /// An invisible group produced by macro expansion.
    Group(Box<Type>),
    /// `impl Bound + ...`.
    ImplTrait(Vec<TypeParamBound>),
    /// `(elem)`.
    Paren(Box<Type>),
    /// A possibly qualified path type.
    Path { qself: Option<QSelf>, path: Path },
    /// `*const elem` or `*mut elem`.
    Ptr { const_token: bool, mutability: bool, elem: Box<Type> },
    /// `&elem` or `&mut elem`; the lifetime is not carried.
    Reference { mutability: bool, elem: Box<Type> },
    /// `[elem]`.
    Slice(Box<Type>),
    /// `dyn Bound + ...`.
    TraitObject(Vec<TypeParamBound>),
    /// `(elems, ...)`.
    Tuple(Vec<Type>),
    /// `!`.
    Never,
    /// `_`.
    Infer,
    /// A type produced by a macro invocation.
    Macro,
    /// Tokens that are not parsed further.
    Verbatim,
}

/// The value of a constant: a possibly qualified path, or anything else.
pub enum Expr {
    Path { qself: Option<QSelf>, path: Path },
    Verbatim,
}

/// The parts of a function signature that are compared: its name, the types
/// of its inputs (the receiver included) and its return type.
pub struct Signature {
    pub ident: Ident,
    pub inputs: Vec<Type>,
    pub output: ReturnType,
}

/// `const ident: ty = expr;`
pub struct ImplItemConst {
    pub ident: Ident,
    pub ty: Type,
    pub expr: Expr,
}

/// `fn ...`; the body is not carried.
pub struct ImplItemFn {
    pub sig: Signature,
}

/// `type ident = ty;`
pub struct ImplItemType {
    pub ident: Ident,
    pub ty: Type,
}

/// A member of an implementation block.
pub enum ImplItem {
    Const(ImplItemConst),
    Fn(ImplItemFn),
    Type(ImplItemType),
    Macro,
    Verbatim,
}

/// The `Trait for` part of an implementation block, with its optional `!`.
pub struct TraitRef {
    pub negative: bool,
    pub path: Path,
}

/// Why a block cannot be taken as a trait implementation.
pub enum ImplError {
    /// The block is an inherent `impl Type { ... }`.
    MissingTrait,
}

/// An implementation block of a trait for a type.
pub struct ItemImplTrait {
    pub trait_: TraitRef,
    pub self_ty: Type,
    pub items: Vec<ImplItem>,
}

impl ItemImplTrait {
    /// Takes an implementation block apart as parsed; fails exactly when it
    /// implements no trait.
    pub fn new(trait_: Option<TraitRef>, self_ty: Type, items: Vec<ImplItem>) -> (r: Result<
        ItemImplTrait,
        ImplError,
    >)
        ensures
            trait_ is None <==> r is Err,
            r matches Ok(b) ==> Some(b.trait_) == trait_ && b.self_ty == self_ty && b.items@
                == items@,
    {
        match trait_ {
            Some(t) => Ok(ItemImplTrait { trait_: t, self_ty, items }),
            None => Err(ImplError::MissingTrait),
        }
    }

    /// The implemented trait.
    pub fn sig_trait(&self) -> (r: &TraitRef)
        ensures
            *r == self.trait_,
    {
        &self.trait_
    }
}

} // verus!
