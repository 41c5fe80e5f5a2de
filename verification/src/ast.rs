//! The tree model the indexers walk.
//!
//! The external front end owns parsing, macro expansion, name resolution and
//! type inference; its output is adapted into this explicit tagged-union
//! representation before any indexer runs. The same types describe both the
//! pre-expansion tree (which may still hold macro-invocation items) and the
//! post-expansion, node-identified tree (which holds none).
//!
//! The indexers never construct spans: every span here was furnished by the
//! front end, as a byte-offset range into the source map's global position
//! space.

use vstd::prelude::*;

verus! {

/// An opaque integer handle the front end assigns to each syntax node after
/// expansion; it correlates spans with inferred types.
pub type NodeId = u32;

/// A half-open offset range `[lo, hi)` in the source map's position space.
#[derive(Clone, Copy, PartialEq, Eq, Structural)]
pub struct Span {
    pub lo: usize,
    pub hi: usize,
}

/// One indexed definition: a name and the span the tag should point at.
/// Macro-definition entries use the same shape, produced by a disjoint pass.
pub struct TagEntry {
    pub ident: String,
    pub span: Span,
}

/// One recorded (span, node identifier) pair.
#[derive(Clone, Copy, PartialEq, Eq, Structural)]
pub struct NodeSpanEntry {
    pub span: Span,
    pub node_id: NodeId,
}

/// One row of the front end's node-identifier-to-type table, with the type
/// already rendered to its canonical display string by the front end.
pub struct TypeEntry {
    pub node_id: NodeId,
    pub type_text: String,
}

/// A whole translation unit.
pub struct Crate {
    pub module: Mod,
    pub span: Span,
}

/// A module body. `inner` is the span of the body's root inside the file
/// that holds it, which differs from the declaring item's span for a module
/// declared as `mod name;` with its body in another file.
pub struct Mod {
    pub inner: Span,
    pub view_items: Vec<ViewItem>,
    pub items: Vec<Item>,
}

/// A named item.
pub struct Item {
    pub ident: String,
    pub span: Span,
    pub kind: ItemKind,
}

pub enum ItemKind {
    Mod(Mod),
    Fn(FnDef),
    ForeignMod(Vec<ForeignItem>),
    Struct(Vec<StructField>),
    Enum(Vec<Variant>),
    Trait(Vec<TraitItem>),
    Impl(Vec<ImplItem>),
    /// A macro-style invocation in item position, erased by expansion.
    Mac(MacInvocation),
    /// Any other named item (a static, a constant, a type alias, ...):
    /// nothing below it concerns the indexers.
    Plain,
}

/// The invoked path of a macro-style invocation item. A definition is the
/// single-segment invocation of the reserved macro-definition keyword.
pub struct MacInvocation {
    pub segments: Vec<String>,
}

/// Argument patterns and body of a function or method.
pub struct FnDef {
    pub args: Vec<Pat>,
    pub body: Block,
}

/// An externally declared item.
pub struct ForeignItem {
    pub ident: String,
    pub span: Span,
}

/// An import or extern-crate declaration. `span` covers the bound path,
/// where a tag for a renamed import points.
pub struct ViewItem {
    pub span: Span,
    pub kind: ViewItemKind,
}

pub enum ViewItemKind {
    /// `use a::b;` or `use a::b as c;` — `name` is the bound name, and the
    /// path's own span and node identifier feed the node-span pass.
    UseSimple { name: String, segments: Vec<String>, path_span: Span, id: NodeId },
    /// `use a::*;`
    UseGlob { path_span: Span, id: NodeId },
    ExternCrate,
}

pub struct StructField {
    pub span: Span,
    /// `None` for a positional (tuple-style) field, which has no identifier.
    pub name: Option<String>,
}

/// An enum variant; a struct-style variant carries named fields.
pub struct Variant {
    pub name: String,
    pub span: Span,
    pub fields: Vec<StructField>,
}

pub enum TraitItem {
    /// A required method: a declared name and no body.
    Required { ident: String, span: Span },
    /// A provided method, visited in named-method context.
    Provided(Method),
    /// An associated-type declaration, keyed by its type parameter.
    AssocType { ident: String, span: Span },
}

pub enum ImplItem {
    Method(Method),
    /// An associated type inside an impl: not a nameable definition here.
    AssocType { ident: String, span: Span },
}

/// A method with a declared name inside an impl or trait body.
pub struct Method {
    pub ident: String,
    pub span: Span,
    pub def: FnDef,
}

pub struct Block {
    pub stmts: Vec<Stmt>,
    pub tail: Option<Expr>,
}

pub struct Stmt {
    pub id: NodeId,
    pub span: Span,
    pub kind: StmtKind,
}

pub enum StmtKind {
    Decl(Decl),
    /// An expression statement without a trailing semicolon.
    Expr(Expr),
    /// An expression statement with a trailing semicolon.
    Semi(Expr),
    /// A macro-style invocation in statement position; carries no node
    /// identifier of its own.
    Mac,
}

pub enum Decl {
    Local(Local),
    /// An item declared inside a function body.
    Item(Box<Item>),
}

/// A `let` binding.
pub struct Local {
    pub pat: Pat,
    pub init: Option<Expr>,
}

pub struct Pat {
    pub id: NodeId,
    pub span: Span,
    pub kind: PatKind,
}

pub enum PatKind {
    Wild,
    Binding(String),
    Tuple(Vec<Pat>),
    /// A constructor pattern: its path is visited through the path hook
    /// with the pattern's own node identifier.
    Ctor(Path, Vec<Pat>),
}

/// A name-reference path.
pub struct Path {
    pub span: Span,
    pub segments: Vec<String>,
}

pub struct Expr {
    pub id: NodeId,
    pub span: Span,
    pub kind: ExprKind,
}

pub enum ExprKind {
    /// A bare path reference: visited through the path hook, carrying the
    /// expression's node identifier.
    Path(Path),
    Lit,
    Call(Box<Expr>, Vec<Expr>),
    Block(Box<Block>),
    /// An anonymous function literal: never indexed as a definition.
    Closure(Box<FnDef>),
}

} // verus!
