//! The tag index: the two tree passes that collect nameable definitions and
//! macro definitions, and the writer that renders them as ctags-format
//! lines.
//!
//! Both passes append to an in-memory entry sequence in pre-order and never
//! reorder or de-duplicate it; rendering is a separate step, so an entry
//! whose span cannot be resolved is dropped at serialization time, not at
//! collection time.

use vstd::prelude::*;

use crate::ast::Block;
use crate::ast::Crate;
use crate::ast::Decl;
use crate::ast::Expr;
use crate::ast::ExprKind;
use crate::ast::ForeignItem;
use crate::ast::Item;
use crate::ast::ItemKind;
use crate::ast::Method;
use crate::ast::Mod;
use crate::ast::Span;
use crate::ast::Stmt;
use crate::ast::StmtKind;
use crate::ast::StructField;
use crate::ast::TagEntry;
use crate::ast::TraitItem;
use crate::ast::ImplItem;
use crate::ast::Variant;
use crate::ast::ViewItem;
use crate::ast::ViewItemKind;
use crate::source_map::SourceMap;
use crate::source_map::file_index;
use crate::source_map::find_file;
use crate::source_map::find_line_end;
use crate::source_map::find_line_start;
use crate::source_map::lemma_line_end_bounds;
use crate::source_map::lemma_line_start_bounds;
use crate::source_map::line_text_at;
use crate::text::chars_to_string;
use crate::text::escape_text;
use crate::text::push_escaped_range;
use crate::text::push_str_chars;

verus! {

/// Whether an item is a macro definition: a macro-style invocation whose
/// invoked path has exactly one segment, the reserved macro-definition
/// keyword. Multi-segment paths and invocations of already-defined macros
/// are uses, not definitions.
pub open spec fn is_macro_definition(it: Item) -> bool {
    match it.kind {
        ItemKind::Mac(mi) => mi.segments@.len() == 1 && mi.segments@[0]@ == "macro_rules"@,
        _ => false,
    }
}

/// The macro-definition entries of one item, in pre-order: the item's own
/// entry, if it is a macro definition (keyed by the macro's declared name,
/// at the invocation's span), then whatever its children yield.
pub open spec fn macro_defs_of_item(it: Item) -> Seq<TagEntry>
    decreases it, 3int,
{
    (if is_macro_definition(it) {
        seq![TagEntry { ident: it.ident, span: it.span }]
    } else {
        Seq::<TagEntry>::empty()
    }) + match it.kind {
        ItemKind::Mod(m) => macro_defs_of_items(m.items@),
        ItemKind::Fn(d) => macro_defs_of_block(d.body),
        ItemKind::Trait(tis) => macro_defs_of_trait_items(tis@),
        ItemKind::Impl(iis) => macro_defs_of_impl_items(iis@),
        _ => Seq::<TagEntry>::empty(),
    }
}

pub open spec fn macro_defs_of_items(items: Seq<Item>) -> Seq<TagEntry>
    decreases items, 4int,
{
    if items.len() == 0 {
        Seq::<TagEntry>::empty()
    } else {
        macro_defs_of_items(items.subrange(0, items.len() - 1)) + macro_defs_of_item(
            items[items.len() - 1],
        )
    }
}

pub open spec fn macro_defs_of_trait_items(tis: Seq<TraitItem>) -> Seq<TagEntry>
    decreases tis, 4int,
{
    if tis.len() == 0 {
        Seq::<TagEntry>::empty()
    } else {
        macro_defs_of_trait_items(tis.subrange(0, tis.len() - 1)) + (match tis[tis.len() - 1] {
            TraitItem::Provided(m) => macro_defs_of_block(m.def.body),
            _ => Seq::<TagEntry>::empty(),
        })
    }
}

pub open spec fn macro_defs_of_impl_items(iis: Seq<ImplItem>) -> Seq<TagEntry>
    decreases iis, 4int,
{
    if iis.len() == 0 {
        Seq::<TagEntry>::empty()
    } else {
        macro_defs_of_impl_items(iis.subrange(0, iis.len() - 1)) + (match iis[iis.len() - 1] {
            ImplItem::Method(m) => macro_defs_of_block(m.def.body),
            _ => Seq::<TagEntry>::empty(),
        })
    }
}

pub open spec fn macro_defs_of_block(b: Block) -> Seq<TagEntry>
    decreases b, 3int,
{
    macro_defs_of_stmts(b.stmts@) + match b.tail {
        Some(e) => macro_defs_of_expr(e),
        None => Seq::<TagEntry>::empty(),
    }
}

pub open spec fn macro_defs_of_stmts(stmts: Seq<Stmt>) -> Seq<TagEntry>
    decreases stmts, 4int,
{
    if stmts.len() == 0 {
        Seq::<TagEntry>::empty()
    } else {
        macro_defs_of_stmts(stmts.subrange(0, stmts.len() - 1)) + macro_defs_of_stmt(
            stmts[stmts.len() - 1],
        )
    }
}

pub open spec fn macro_defs_of_stmt(st: Stmt) -> Seq<TagEntry>
    decreases st, 3int,
{
    match st.kind {
        StmtKind::Decl(Decl::Local(l)) => match l.init {
            Some(e) => macro_defs_of_expr(e),
            None => Seq::<TagEntry>::empty(),
        },
        StmtKind::Decl(Decl::Item(it)) => macro_defs_of_item(*it),
        StmtKind::Expr(e) => macro_defs_of_expr(e),
        StmtKind::Semi(e) => macro_defs_of_expr(e),
        StmtKind::Mac => Seq::<TagEntry>::empty(),
    }
}

pub open spec fn macro_defs_of_expr(e: Expr) -> Seq<TagEntry>
    decreases e, 3int,
{
    match e.kind {
        ExprKind::Path(_) => Seq::<TagEntry>::empty(),
        ExprKind::Lit => Seq::<TagEntry>::empty(),
        ExprKind::Call(f, args) => macro_defs_of_expr(*f) + macro_defs_of_exprs(args@),
        ExprKind::Block(b) => macro_defs_of_block(*b),
        ExprKind::Closure(d) => macro_defs_of_block(d.body),
    }
}

pub open spec fn macro_defs_of_exprs(es: Seq<Expr>) -> Seq<TagEntry>
    decreases es, 4int,
{
    if es.len() == 0 {
        Seq::<TagEntry>::empty()
    } else {
        macro_defs_of_exprs(es.subrange(0, es.len() - 1)) + macro_defs_of_expr(es[es.len() - 1])
    }
}

/// All macro-definition entries of a translation unit, in pre-order.
pub open spec fn macro_defs_of_crate(k: Crate) -> Seq<TagEntry> {
    macro_defs_of_items(k.module.items@)
}

fn is_macro_rules_name(s: &String) -> (r: bool)
    ensures
        r == (s@ == "macro_rules"@),
{
    let key: String = "macro_rules".to_owned();
    *s == key
}

/// The macro-definition pass. It must run on the pre-expansion tree:
/// expansion consumes the invocation items this pass depends on, so running
/// it later finds nothing (`lemma_expanded_tree_has_no_macro_defs`).
pub struct MacroTagGrepper {
    pub macro_map: Vec<TagEntry>,
}

impl MacroTagGrepper {
    #[verifier::loop_isolation(false)]
    pub fn visit_mod(&mut self, m: &Mod)
        ensures
            final(self).macro_map@ == old(self).macro_map@ + macro_defs_of_items(m.items@),
        decreases *m, 2int,
    {
        let ghost base = self.macro_map@;
        let n = m.items.len();
        let mut i: usize = 0;
        proof {
            assert(m.items@.subrange(0, 0) =~= Seq::<Item>::empty());
        }
        while i < n
            invariant
                0 <= i <= n == m.items@.len(),
                self.macro_map@ == base + macro_defs_of_items(m.items@.subrange(0, i as int)),
            decreases n - i,
        {
            self.visit_item(&m.items[i]);
            proof {
                let pre = m.items@.subrange(0, i as int + 1);
                assert(pre.subrange(0, pre.len() - 1) =~= m.items@.subrange(0, i as int));
                assert(self.macro_map@ =~= base + macro_defs_of_items(pre));
            }
            i = i + 1;
        }
        proof {
            assert(m.items@.subrange(0, n as int) =~= m.items@);
        }
    }

    #[verifier::loop_isolation(false)]
    pub fn visit_item(&mut self, i: &Item)
        ensures
            final(self).macro_map@ == old(self).macro_map@ + macro_defs_of_item(*i),
        decreases *i, 2int,
    {
        let ghost base = self.macro_map@;
        match &i.kind {
            ItemKind::Mac(mi) => {
                if mi.segments.len() == 1 && is_macro_rules_name(&mi.segments[0]) {
                    self.macro_map.push(TagEntry { ident: i.ident.clone(), span: i.span });
                }
                proof {
                    assert(self.macro_map@ =~= base + macro_defs_of_item(*i));
                }
            },
            ItemKind::Mod(m) => {
                self.visit_mod(m);
                proof {
                    assert(self.macro_map@ =~= base + macro_defs_of_item(*i));
                }
            },
            ItemKind::Fn(d) => {
                self.visit_block(&d.body);
                proof {
                    assert(self.macro_map@ =~= base + macro_defs_of_item(*i));
                }
            },
            ItemKind::Trait(tis) => {
                let ghost gtis = tis@;
                let n = tis.len();
                let mut j: usize = 0;
                proof {
                    assert(gtis.subrange(0, 0) =~= Seq::<TraitItem>::empty());
                }
                while j < n
                    invariant
                        0 <= j <= n == gtis.len(),
                        gtis == tis@,
                        self.macro_map@ == base + macro_defs_of_trait_items(
                            gtis.subrange(0, j as int),
                        ),
                    decreases n - j,
                {
                    match &tis[j] {
                        TraitItem::Provided(m) => {
                            proof {
                                assert(decreases_to!(*i => i.kind));
                                assert(decreases_to!(i.kind => i.kind->Trait_0@));
                                assert(decreases_to!(i.kind->Trait_0@ => gtis[j as int]));
                                assert(decreases_to!(gtis[j as int] => m.def.body));
                            }
                            self.visit_block(&m.def.body);
                        },
                        _ => {},
                    }
                    proof {
                        let pre = gtis.subrange(0, j as int + 1);
                        assert(pre.subrange(0, pre.len() - 1) =~= gtis.subrange(0, j as int));
                        assert(self.macro_map@ =~= base + macro_defs_of_trait_items(pre));
                    }
                    j = j + 1;
                }
                proof {
                    assert(gtis.subrange(0, n as int) =~= gtis);
                    assert(self.macro_map@ =~= base + macro_defs_of_item(*i));
                }
            },
            ItemKind::Impl(iis) => {
                let ghost giis = iis@;
                let n = iis.len();
                let mut j: usize = 0;
                proof {
                    assert(giis.subrange(0, 0) =~= Seq::<ImplItem>::empty());
                }
                while j < n
                    invariant
                        0 <= j <= n == giis.len(),
                        giis == iis@,
                        self.macro_map@ == base + macro_defs_of_impl_items(
                            giis.subrange(0, j as int),
                        ),
                    decreases n - j,
                {
                    match &iis[j] {
                        ImplItem::Method(m) => {
                            proof {
                                assert(decreases_to!(*i => i.kind));
                                assert(decreases_to!(i.kind => i.kind->Impl_0@));
                                assert(decreases_to!(i.kind->Impl_0@ => giis[j as int]));
                                assert(decreases_to!(giis[j as int] => m.def.body));
                            }
                            self.visit_block(&m.def.body);
                        },
                        _ => {},
                    }
                    proof {
                        let pre = giis.subrange(0, j as int + 1);
                        assert(pre.subrange(0, pre.len() - 1) =~= giis.subrange(0, j as int));
                        assert(self.macro_map@ =~= base + macro_defs_of_impl_items(pre));
                    }
                    j = j + 1;
                }
                proof {
                    assert(giis.subrange(0, n as int) =~= giis);
                    assert(self.macro_map@ =~= base + macro_defs_of_item(*i));
                }
            },
            _ => {
                proof {
                    assert(self.macro_map@ =~= base + macro_defs_of_item(*i));
                }
            },
        }
    }

    #[verifier::loop_isolation(false)]
    pub fn visit_block(&mut self, b: &Block)
        ensures
            final(self).macro_map@ == old(self).macro_map@ + macro_defs_of_block(*b),
        decreases *b, 2int,
    {
        let ghost base = self.macro_map@;
        let n = b.stmts.len();
        let mut i: usize = 0;
        proof {
            assert(b.stmts@.subrange(0, 0) =~= Seq::<Stmt>::empty());
        }
        while i < n
            invariant
                0 <= i <= n == b.stmts@.len(),
                self.macro_map@ == base + macro_defs_of_stmts(b.stmts@.subrange(0, i as int)),
            decreases n - i,
        {
            self.visit_stmt(&b.stmts[i]);
            proof {
                let pre = b.stmts@.subrange(0, i as int + 1);
                assert(pre.subrange(0, pre.len() - 1) =~= b.stmts@.subrange(0, i as int));
                assert(self.macro_map@ =~= base + macro_defs_of_stmts(pre));
            }
            i = i + 1;
        }
        proof {
            assert(b.stmts@.subrange(0, n as int) =~= b.stmts@);
        }
        match &b.tail {
            Some(e) => {
                self.visit_expr(e);
            },
            None => {},
        }
        proof {
            assert(self.macro_map@ =~= base + macro_defs_of_block(*b));
        }
    }

    pub fn visit_stmt(&mut self, st: &Stmt)
        ensures
            final(self).macro_map@ == old(self).macro_map@ + macro_defs_of_stmt(*st),
        decreases *st, 2int,
    {
        let ghost base = self.macro_map@;
        match &st.kind {
            StmtKind::Decl(Decl::Local(l)) => {
                match &l.init {
                    Some(e) => {
                        self.visit_expr(e);
                    },
                    None => {},
                }
            },
            StmtKind::Decl(Decl::Item(it)) => {
                self.visit_item(&**it);
            },
            StmtKind::Expr(e) => {
                self.visit_expr(e);
            },
            StmtKind::Semi(e) => {
                self.visit_expr(e);
            },
            StmtKind::Mac => {},
        }
        proof {
            assert(self.macro_map@ =~= base + macro_defs_of_stmt(*st));
        }
    }

    #[verifier::loop_isolation(false)]
    pub fn visit_expr(&mut self, e: &Expr)
        ensures
            final(self).macro_map@ == old(self).macro_map@ + macro_defs_of_expr(*e),
        decreases *e, 2int,
    {
        let ghost base = self.macro_map@;
        match &e.kind {
            ExprKind::Path(_) => {},
            ExprKind::Lit => {},
            ExprKind::Call(f, args) => {
                self.visit_expr(&**f);
                let ghost mid = self.macro_map@;
                let ghost gargs = args@;
                let n = args.len();
                let mut j: usize = 0;
                proof {
                    assert(gargs.subrange(0, 0) =~= Seq::<Expr>::empty());
                }
                while j < n
                    invariant
                        0 <= j <= n == gargs.len(),
                        gargs == args@,
                        self.macro_map@ == mid + macro_defs_of_exprs(gargs.subrange(0, j as int)),
                    decreases n - j,
                {
                    proof {
                        assert(decreases_to!(*e => e.kind));
                        assert(decreases_to!(e.kind => e.kind->Call_1@));
                        assert(decreases_to!(e.kind->Call_1@ => gargs[j as int]));
                    }
                    self.visit_expr(&args[j]);
                    proof {
                        let pre = gargs.subrange(0, j as int + 1);
                        assert(pre.subrange(0, pre.len() - 1) =~= gargs.subrange(0, j as int));
                        assert(self.macro_map@ =~= mid + macro_defs_of_exprs(pre));
                    }
                    j = j + 1;
                }
                proof {
                    assert(gargs.subrange(0, n as int) =~= gargs);
                }
            },
            ExprKind::Block(b) => {
                self.visit_block(&**b);
            },
            ExprKind::Closure(d) => {
                self.visit_block(&d.body);
            },
        }
        proof {
            assert(self.macro_map@ =~= base + macro_defs_of_expr(*e));
        }
    }
}

/// The span a module item's tag points at. For `mod name;` whose body
/// lives in a different file than the declaration, the tag points at the
/// body's root inside the other file, so it leads to the code rather than
/// the declaration line; the files are compared by their display names.
/// When either span resolves to no file, the item's own span stands.
pub open spec fn mod_tag_span(sm: SourceMap, it: Item, m: Mod) -> Span {
    let fo = file_index(sm, it.span.lo as int);
    let fi = file_index(sm, m.inner.lo as int);
    if fo is Some && fi is Some && sm.files@[fo->0].name@ != sm.files@[fi->0].name@ {
        m.inner
    } else {
        it.span
    }
}

/// The span an item's tag points at: its own span, except for out-of-line
/// modules.
pub open spec fn item_tag_span(sm: SourceMap, it: Item) -> Span {
    match it.kind {
        ItemKind::Mod(m) => mod_tag_span(sm, it, m),
        _ => it.span,
    }
}

/// Whether an import binds a name that differs from the final segment of
/// the imported path (`use a::b as c;`).
pub open spec fn renamed_import(vi: ViewItem) -> bool {
    match vi.kind {
        ViewItemKind::UseSimple { name, segments, .. } => segments@.len() >= 1 && name@
            != segments@[segments@.len() - 1]@,
        _ => false,
    }
}

/// A renamed import defines its new name here, so it gets one entry; an
/// unrenamed import defines nothing new, since the original definition is
/// indexed at its own declaration.
pub open spec fn defs_of_view_item(vi: ViewItem) -> Seq<TagEntry> {
    match vi.kind {
        ViewItemKind::UseSimple { name, segments, .. } => {
            if segments@.len() >= 1 && name@ != segments@[segments@.len() - 1]@ {
                seq![TagEntry { ident: name, span: vi.span }]
            } else {
                Seq::<TagEntry>::empty()
            }
        },
        _ => Seq::<TagEntry>::empty(),
    }
}

/// Only named fields are definitions; a positional (tuple-style) field has
/// no identifier and yields nothing.
pub open spec fn defs_of_field(f: StructField) -> Seq<TagEntry> {
    match f.name {
        Some(n) => seq![TagEntry { ident: n, span: f.span }],
        None => Seq::<TagEntry>::empty(),
    }
}

pub open spec fn defs_of_fields(fs: Seq<StructField>) -> Seq<TagEntry>
    decreases fs,
{
    if fs.len() == 0 {
        Seq::<TagEntry>::empty()
    } else {
        defs_of_fields(fs.subrange(0, fs.len() - 1)) + defs_of_field(fs[fs.len() - 1])
    }
}

/// The definition entries of one item, in pre-order: the item's own entry
/// (every item is nameable, at `item_tag_span`), then its children's.
pub open spec fn defs_of_item(sm: SourceMap, it: Item) -> Seq<TagEntry>
    decreases it, 3int,
{
    seq![TagEntry { ident: it.ident, span: item_tag_span(sm, it) }] + match it.kind {
        ItemKind::Mod(m) => defs_of_mod(sm, m),
        ItemKind::Fn(d) => defs_of_block(sm, d.body),
        ItemKind::ForeignMod(fis) => defs_of_foreign_items(fis@),
        ItemKind::Struct(fs) => defs_of_fields(fs@),
        ItemKind::Enum(vs) => defs_of_variants(vs@),
        ItemKind::Trait(tis) => defs_of_trait_items(sm, tis@),
        ItemKind::Impl(iis) => defs_of_impl_items(sm, iis@),
        ItemKind::Mac(_) => Seq::<TagEntry>::empty(),
        ItemKind::Plain => Seq::<TagEntry>::empty(),
    }
}

pub open spec fn defs_of_items(sm: SourceMap, items: Seq<Item>) -> Seq<TagEntry>
    decreases items, 4int,
{
    if items.len() == 0 {
        Seq::<TagEntry>::empty()
    } else {
        defs_of_items(sm, items.subrange(0, items.len() - 1)) + defs_of_item(
            sm,
            items[items.len() - 1],
        )
    }
}

pub open spec fn defs_of_view_items(vis: Seq<ViewItem>) -> Seq<TagEntry>
    decreases vis,
{
    if vis.len() == 0 {
        Seq::<TagEntry>::empty()
    } else {
        defs_of_view_items(vis.subrange(0, vis.len() - 1)) + defs_of_view_item(vis[vis.len() - 1])
    }
}

/// Foreign items are treated identically to local items: one entry at
/// their own span.
pub open spec fn defs_of_foreign_items(fis: Seq<ForeignItem>) -> Seq<TagEntry>
    decreases fis,
{
    if fis.len() == 0 {
        Seq::<TagEntry>::empty()
    } else {
        defs_of_foreign_items(fis.subrange(0, fis.len() - 1)) + seq![
            TagEntry { ident: fis[fis.len() - 1].ident, span: fis[fis.len() - 1].span },
        ]
    }
}

/// One entry per variant, keyed by the variant's name, then its named
/// fields (a struct-style variant declares those too).
pub open spec fn defs_of_variant(v: Variant) -> Seq<TagEntry>
    decreases v,
{
    seq![TagEntry { ident: v.name, span: v.span }] + defs_of_fields(v.fields@)
}

pub open spec fn defs_of_variants(vs: Seq<Variant>) -> Seq<TagEntry>
    decreases vs,
{
    if vs.len() == 0 {
        Seq::<TagEntry>::empty()
    } else {
        defs_of_variants(vs.subrange(0, vs.len() - 1)) + defs_of_variant(vs[vs.len() - 1])
    }
}

/// Required and provided methods emit at method level (a trait-item-level
/// entry would duplicate them); an associated-type declaration emits one
/// entry keyed by its type parameter.
pub open spec fn defs_of_trait_item(sm: SourceMap, ti: TraitItem) -> Seq<TagEntry>
    decreases ti, 3int,
{
    match ti {
        TraitItem::Required { ident, span } => seq![TagEntry { ident: ident, span: span }],
        TraitItem::Provided(m) => defs_of_method(sm, m),
        TraitItem::AssocType { ident, span } => seq![TagEntry { ident: ident, span: span }],
    }
}

pub open spec fn defs_of_trait_items(sm: SourceMap, tis: Seq<TraitItem>) -> Seq<TagEntry>
    decreases tis, 4int,
{
    if tis.len() == 0 {
        Seq::<TagEntry>::empty()
    } else {
        defs_of_trait_items(sm, tis.subrange(0, tis.len() - 1)) + defs_of_trait_item(
            sm,
            tis[tis.len() - 1],
        )
    }
}

/// A method in named-method context gets one entry at its whole span; an
/// anonymous function literal never reaches here.
pub open spec fn defs_of_method(sm: SourceMap, m: Method) -> Seq<TagEntry>
    decreases m, 3int,
{
    seq![TagEntry { ident: m.ident, span: m.span }] + defs_of_block(sm, m.def.body)
}

/// An associated type inside an impl is not indexed, unlike one declared
/// in a trait.
pub open spec fn defs_of_impl_items(sm: SourceMap, iis: Seq<ImplItem>) -> Seq<TagEntry>
    decreases iis, 4int,
{
    if iis.len() == 0 {
        Seq::<TagEntry>::empty()
    } else {
        defs_of_impl_items(sm, iis.subrange(0, iis.len() - 1)) + (match iis[iis.len() - 1] {
            ImplItem::Method(m) => defs_of_method(sm, m),
            ImplItem::AssocType { .. } => Seq::<TagEntry>::empty(),
        })
    }
}

pub open spec fn defs_of_mod(sm: SourceMap, m: Mod) -> Seq<TagEntry>
    decreases m, 3int,
{
    defs_of_view_items(m.view_items@) + defs_of_items(sm, m.items@)
}

pub open spec fn defs_of_block(sm: SourceMap, b: Block) -> Seq<TagEntry>
    decreases b, 3int,
{
    defs_of_stmts(sm, b.stmts@) + match b.tail {
        Some(e) => defs_of_expr(sm, e),
        None => Seq::<TagEntry>::empty(),
    }
}

pub open spec fn defs_of_stmts(sm: SourceMap, stmts: Seq<Stmt>) -> Seq<TagEntry>
    decreases stmts, 4int,
{
    if stmts.len() == 0 {
        Seq::<TagEntry>::empty()
    } else {
        defs_of_stmts(sm, stmts.subrange(0, stmts.len() - 1)) + defs_of_stmt(
            sm,
            stmts[stmts.len() - 1],
        )
    }
}

pub open spec fn defs_of_stmt(sm: SourceMap, st: Stmt) -> Seq<TagEntry>
    decreases st, 3int,
{
    match st.kind {
        StmtKind::Decl(Decl::Local(l)) => match l.init {
            Some(e) => defs_of_expr(sm, e),
            None => Seq::<TagEntry>::empty(),
        },
        StmtKind::Decl(Decl::Item(it)) => defs_of_item(sm, *it),
        StmtKind::Expr(e) => defs_of_expr(sm, e),
        StmtKind::Semi(e) => defs_of_expr(sm, e),
        StmtKind::Mac => Seq::<TagEntry>::empty(),
    }
}

pub open spec fn defs_of_expr(sm: SourceMap, e: Expr) -> Seq<TagEntry>
    decreases e, 3int,
{
    match e.kind {
        ExprKind::Path(_) => Seq::<TagEntry>::empty(),
        ExprKind::Lit => Seq::<TagEntry>::empty(),
        ExprKind::Call(f, args) => defs_of_expr(sm, *f) + defs_of_exprs(sm, args@),
        ExprKind::Block(b) => defs_of_block(sm, *b),
        ExprKind::Closure(d) => defs_of_block(sm, d.body),
    }
}

pub open spec fn defs_of_exprs(sm: SourceMap, es: Seq<Expr>) -> Seq<TagEntry>
    decreases es, 4int,
{
    if es.len() == 0 {
        Seq::<TagEntry>::empty()
    } else {
        defs_of_exprs(sm, es.subrange(0, es.len() - 1)) + defs_of_expr(sm, es[es.len() - 1])
    }
}

/// All definition entries of a translation unit, in pre-order.
pub open spec fn defs_of_crate(sm: SourceMap, k: Crate) -> Seq<TagEntry> {
    defs_of_mod(sm, k.module)
}

/// The tag span of an item, applying the out-of-line module rule.
fn pick_item_span(sm: &SourceMap, i: &Item) -> (r: Span)
    ensures
        r == item_tag_span(*sm, *i),
{
    match &i.kind {
        ItemKind::Mod(m) => {
            let fo = find_file(sm, i.span.lo);
            let fi = find_file(sm, m.inner.lo);
            match (fo, fi) {
                (Some(a), Some(b)) => {
                    if !(sm.files[a].name == sm.files[b].name) {
                        m.inner
                    } else {
                        i.span
                    }
                },
                _ => i.span,
            }
        },
        _ => i.span,
    }
}

/// The definition pass: collects every nameable definition of the
/// post-expansion tree, in pre-order.
pub struct TagGrepper {
    pub map: Vec<TagEntry>,
}

impl TagGrepper {
    fn grep_id(&mut self, id: &String, span: Span)
        ensures
            final(self).map@ == old(self).map@ + seq![TagEntry { ident: *id, span: span }],
    {
        self.map.push(TagEntry { ident: id.clone(), span });
    }

    pub fn visit_foreign_item(&mut self, i: &ForeignItem)
        ensures
            final(self).map@ == old(self).map@ + seq![
                TagEntry { ident: i.ident, span: i.span },
            ],
    {
        self.grep_id(&i.ident, i.span);
    }

    pub fn visit_view_item(&mut self, i: &ViewItem)
        ensures
            final(self).map@ == old(self).map@ + defs_of_view_item(*i),
    {
        let ghost base = self.map@;
        match &i.kind {
            ViewItemKind::UseSimple { name, segments, .. } => {
                if segments.len() >= 1 {
                    let last = &segments[segments.len() - 1];
                    if !(*name == *last) {
                        self.grep_id(name, i.span);
                    }
                }
            },
            _ => {},
        }
        proof {
            assert(self.map@ =~= base + defs_of_view_item(*i));
        }
    }

    pub fn visit_struct_field(&mut self, s: &StructField)
        ensures
            final(self).map@ == old(self).map@ + defs_of_field(*s),
    {
        let ghost base = self.map@;
        match &s.name {
            Some(id) => {
                self.grep_id(id, s.span);
            },
            None => {},
        }
        proof {
            assert(self.map@ =~= base + defs_of_field(*s));
        }
    }

    #[verifier::loop_isolation(false)]
    pub fn visit_variant(&mut self, v: &Variant)
        ensures
            final(self).map@ == old(self).map@ + defs_of_variant(*v),
        decreases *v, 2int,
    {
        let ghost base = self.map@;
        self.grep_id(&v.name, v.span);
        let ghost mid = self.map@;
        let n = v.fields.len();
        let mut j: usize = 0;
        proof {
            assert(v.fields@.subrange(0, 0) =~= Seq::<StructField>::empty());
        }
        while j < n
            invariant
                0 <= j <= n == v.fields@.len(),
                self.map@ == mid + defs_of_fields(v.fields@.subrange(0, j as int)),
            decreases n - j,
        {
            self.visit_struct_field(&v.fields[j]);
            proof {
                let pre = v.fields@.subrange(0, j as int + 1);
                assert(pre.subrange(0, pre.len() - 1) =~= v.fields@.subrange(0, j as int));
                assert(self.map@ =~= mid + defs_of_fields(pre));
            }
            j = j + 1;
        }
        proof {
            assert(v.fields@.subrange(0, n as int) =~= v.fields@);
            assert(self.map@ =~= base + defs_of_variant(*v));
        }
    }

    /// A required method's declared name, indexed at the declaration's span.
    pub fn visit_ty_method(&mut self, ident: &String, span: Span)
        ensures
            final(self).map@ == old(self).map@ + seq![TagEntry { ident: *ident, span: span }],
    {
        self.grep_id(ident, span);
    }

    /// A method with a declared name inside an impl or trait body; free
    /// functions are covered by the item rule and anonymous function
    /// literals are never indexed.
    pub fn visit_method(&mut self, sm: &SourceMap, m: &Method)
        ensures
            final(self).map@ == old(self).map@ + defs_of_method(*sm, *m),
        decreases *m, 2int,
    {
        let ghost base = self.map@;
        self.grep_id(&m.ident, m.span);
        self.visit_block(sm, &m.def.body);
        proof {
            assert(self.map@ =~= base + defs_of_method(*sm, *m));
        }
    }

    pub fn visit_trait_item(&mut self, sm: &SourceMap, t: &TraitItem)
        ensures
            final(self).map@ == old(self).map@ + defs_of_trait_item(*sm, *t),
        decreases *t, 2int,
    {
        let ghost base = self.map@;
        match t {
            TraitItem::Required { ident, span } => {
                self.visit_ty_method(ident, *span);
            },
            TraitItem::Provided(m) => {
                self.visit_method(sm, m);
            },
            TraitItem::AssocType { ident, span } => {
                self.grep_id(ident, *span);
            },
        }
        proof {
            assert(self.map@ =~= base + defs_of_trait_item(*sm, *t));
        }
    }

    #[verifier::loop_isolation(false)]
    pub fn visit_mod(&mut self, sm: &SourceMap, m: &Mod)
        ensures
            final(self).map@ == old(self).map@ + defs_of_mod(*sm, *m),
        decreases *m, 2int,
    {
        let ghost base = self.map@;
        let nv = m.view_items.len();
        let mut j: usize = 0;
        proof {
            assert(m.view_items@.subrange(0, 0) =~= Seq::<ViewItem>::empty());
        }
        while j < nv
            invariant
                0 <= j <= nv == m.view_items@.len(),
                self.map@ == base + defs_of_view_items(m.view_items@.subrange(0, j as int)),
            decreases nv - j,
        {
            self.visit_view_item(&m.view_items[j]);
            proof {
                let pre = m.view_items@.subrange(0, j as int + 1);
                assert(pre.subrange(0, pre.len() - 1) =~= m.view_items@.subrange(0, j as int));
                assert(self.map@ =~= base + defs_of_view_items(pre));
            }
            j = j + 1;
        }
        proof {
            assert(m.view_items@.subrange(0, nv as int) =~= m.view_items@);
        }
        let ghost mid = self.map@;
        let n = m.items.len();
        let mut i: usize = 0;
        proof {
            assert(m.items@.subrange(0, 0) =~= Seq::<Item>::empty());
        }
        while i < n
            invariant
                0 <= i <= n == m.items@.len(),
                self.map@ == mid + defs_of_items(*sm, m.items@.subrange(0, i as int)),
            decreases n - i,
        {
            self.visit_item(sm, &m.items[i]);
            proof {
                let pre = m.items@.subrange(0, i as int + 1);
                assert(pre.subrange(0, pre.len() - 1) =~= m.items@.subrange(0, i as int));
                assert(self.map@ =~= mid + defs_of_items(*sm, pre));
            }
            i = i + 1;
        }
        proof {
            assert(m.items@.subrange(0, n as int) =~= m.items@);
            assert(self.map@ =~= base + defs_of_mod(*sm, *m));
        }
    }

    #[verifier::loop_isolation(false)]
    pub fn visit_item(&mut self, sm: &SourceMap, i: &Item)
        ensures
            final(self).map@ == old(self).map@ + defs_of_item(*sm, *i),
        decreases *i, 2int,
    {
        let ghost base = self.map@;
        let span = pick_item_span(sm, i);
        self.grep_id(&i.ident, span);
        let ghost mid = self.map@;
        match &i.kind {
            ItemKind::Mod(m) => {
                self.visit_mod(sm, m);
            },
            ItemKind::Fn(d) => {
                self.visit_block(sm, &d.body);
            },
            ItemKind::ForeignMod(fis) => {
                let n = fis.len();
                let mut j: usize = 0;
                proof {
                    assert(fis@.subrange(0, 0) =~= Seq::<ForeignItem>::empty());
                }
                while j < n
                    invariant
                        0 <= j <= n == fis@.len(),
                        self.map@ == mid + defs_of_foreign_items(fis@.subrange(0, j as int)),
                    decreases n - j,
                {
                    self.visit_foreign_item(&fis[j]);
                    proof {
                        let pre = fis@.subrange(0, j as int + 1);
                        assert(pre.subrange(0, pre.len() - 1) =~= fis@.subrange(0, j as int));
                        assert(self.map@ =~= mid + defs_of_foreign_items(pre));
                    }
                    j = j + 1;
                }
                proof {
                    assert(fis@.subrange(0, n as int) =~= fis@);
                }
            },
            ItemKind::Struct(fs) => {
                let n = fs.len();
                let mut j: usize = 0;
                proof {
                    assert(fs@.subrange(0, 0) =~= Seq::<StructField>::empty());
                }
                while j < n
                    invariant
                        0 <= j <= n == fs@.len(),
                        self.map@ == mid + defs_of_fields(fs@.subrange(0, j as int)),
                    decreases n - j,
                {
                    self.visit_struct_field(&fs[j]);
                    proof {
                        let pre = fs@.subrange(0, j as int + 1);
                        assert(pre.subrange(0, pre.len() - 1) =~= fs@.subrange(0, j as int));
                        assert(self.map@ =~= mid + defs_of_fields(pre));
                    }
                    j = j + 1;
                }
                proof {
                    assert(fs@.subrange(0, n as int) =~= fs@);
                }
            },
            ItemKind::Enum(vs) => {
                let n = vs.len();
                let mut j: usize = 0;
                proof {
                    assert(vs@.subrange(0, 0) =~= Seq::<Variant>::empty());
                }
                while j < n
                    invariant
                        0 <= j <= n == vs@.len(),
                        self.map@ == mid + defs_of_variants(vs@.subrange(0, j as int)),
                    decreases n - j,
                {
                    self.visit_variant(&vs[j]);
                    proof {
                        let pre = vs@.subrange(0, j as int + 1);
                        assert(pre.subrange(0, pre.len() - 1) =~= vs@.subrange(0, j as int));
                        assert(self.map@ =~= mid + defs_of_variants(pre));
                    }
                    j = j + 1;
                }
                proof {
                    assert(vs@.subrange(0, n as int) =~= vs@);
                }
            },
            ItemKind::Trait(tis) => {
                let n = tis.len();
                let mut j: usize = 0;
                proof {
                    assert(tis@.subrange(0, 0) =~= Seq::<TraitItem>::empty());
                }
                while j < n
                    invariant
                        0 <= j <= n == tis@.len(),
                        self.map@ == mid + defs_of_trait_items(*sm, tis@.subrange(0, j as int)),
                    decreases n - j,
                {
                    proof {
                        assert(decreases_to!(*i => i.kind));
                        assert(decreases_to!(i.kind => i.kind->Trait_0@));
                        assert(decreases_to!(i.kind->Trait_0@ => tis@[j as int]));
                    }
                    self.visit_trait_item(sm, &tis[j]);
                    proof {
                        let pre = tis@.subrange(0, j as int + 1);
                        assert(pre.subrange(0, pre.len() - 1) =~= tis@.subrange(0, j as int));
                        assert(self.map@ =~= mid + defs_of_trait_items(*sm, pre));
                    }
                    j = j + 1;
                }
                proof {
                    assert(tis@.subrange(0, n as int) =~= tis@);
                }
            },
            ItemKind::Impl(iis) => {
                let n = iis.len();
                let mut j: usize = 0;
                proof {
                    assert(iis@.subrange(0, 0) =~= Seq::<ImplItem>::empty());
                }
                while j < n
                    invariant
                        0 <= j <= n == iis@.len(),
                        self.map@ == mid + defs_of_impl_items(*sm, iis@.subrange(0, j as int)),
                    decreases n - j,
                {
                    match &iis[j] {
                        ImplItem::Method(m) => {
                            proof {
                                assert(decreases_to!(*i => i.kind));
                                assert(decreases_to!(i.kind => i.kind->Impl_0@));
                                assert(decreases_to!(i.kind->Impl_0@ => iis@[j as int]));
                                assert(decreases_to!(iis@[j as int] => *m));
                            }
                            self.visit_method(sm, m);
                        },
                        ImplItem::AssocType { .. } => {},
                    }
                    proof {
                        let pre = iis@.subrange(0, j as int + 1);
                        assert(pre.subrange(0, pre.len() - 1) =~= iis@.subrange(0, j as int));
                        assert(self.map@ =~= mid + defs_of_impl_items(*sm, pre));
                    }
                    j = j + 1;
                }
                proof {
                    assert(iis@.subrange(0, n as int) =~= iis@);
                }
            },
            ItemKind::Mac(_) => {},
            ItemKind::Plain => {},
        }
        proof {
            assert(self.map@ =~= base + defs_of_item(*sm, *i));
        }
    }

    #[verifier::loop_isolation(false)]
    pub fn visit_block(&mut self, sm: &SourceMap, b: &Block)
        ensures
            final(self).map@ == old(self).map@ + defs_of_block(*sm, *b),
        decreases *b, 2int,
    {
        let ghost base = self.map@;
        let n = b.stmts.len();
        let mut i: usize = 0;
        proof {
            assert(b.stmts@.subrange(0, 0) =~= Seq::<Stmt>::empty());
        }
        while i < n
            invariant
                0 <= i <= n == b.stmts@.len(),
                self.map@ == base + defs_of_stmts(*sm, b.stmts@.subrange(0, i as int)),
            decreases n - i,
        {
            self.visit_stmt(sm, &b.stmts[i]);
            proof {
                let pre = b.stmts@.subrange(0, i as int + 1);
                assert(pre.subrange(0, pre.len() - 1) =~= b.stmts@.subrange(0, i as int));
                assert(self.map@ =~= base + defs_of_stmts(*sm, pre));
            }
            i = i + 1;
        }
        proof {
            assert(b.stmts@.subrange(0, n as int) =~= b.stmts@);
        }
        match &b.tail {
            Some(e) => {
                self.visit_expr(sm, e);
            },
            None => {},
        }
        proof {
            assert(self.map@ =~= base + defs_of_block(*sm, *b));
        }
    }

    pub fn visit_stmt(&mut self, sm: &SourceMap, st: &Stmt)
        ensures
            final(self).map@ == old(self).map@ + defs_of_stmt(*sm, *st),
        decreases *st, 2int,
    {
        let ghost base = self.map@;
        match &st.kind {
            StmtKind::Decl(Decl::Local(l)) => {
                match &l.init {
                    Some(e) => {
                        self.visit_expr(sm, e);
                    },
                    None => {},
                }
            },
            StmtKind::Decl(Decl::Item(it)) => {
                self.visit_item(sm, &**it);
            },
            StmtKind::Expr(e) => {
                self.visit_expr(sm, e);
            },
            StmtKind::Semi(e) => {
                self.visit_expr(sm, e);
            },
            StmtKind::Mac => {},
        }
        proof {
            assert(self.map@ =~= base + defs_of_stmt(*sm, *st));
        }
    }

    #[verifier::loop_isolation(false)]
    pub fn visit_expr(&mut self, sm: &SourceMap, e: &Expr)
        ensures
            final(self).map@ == old(self).map@ + defs_of_expr(*sm, *e),
        decreases *e, 2int,
    {
        let ghost base = self.map@;
        match &e.kind {
            ExprKind::Path(_) => {},
            ExprKind::Lit => {},
            ExprKind::Call(f, args) => {
                self.visit_expr(sm, &**f);
                let ghost mid = self.map@;
                let n = args.len();
                let mut j: usize = 0;
                proof {
                    assert(args@.subrange(0, 0) =~= Seq::<Expr>::empty());
                }
                while j < n
                    invariant
                        0 <= j <= n == args@.len(),
                        self.map@ == mid + defs_of_exprs(*sm, args@.subrange(0, j as int)),
                    decreases n - j,
                {
                    proof {
                        assert(decreases_to!(*e => e.kind));
                        assert(decreases_to!(e.kind => e.kind->Call_1@));
                        assert(decreases_to!(e.kind->Call_1@ => args@[j as int]));
                    }
                    self.visit_expr(sm, &args[j]);
                    proof {
                        let pre = args@.subrange(0, j as int + 1);
                        assert(pre.subrange(0, pre.len() - 1) =~= args@.subrange(0, j as int));
                        assert(self.map@ =~= mid + defs_of_exprs(*sm, pre));
                    }
                    j = j + 1;
                }
                proof {
                    assert(args@.subrange(0, n as int) =~= args@);
                }
            },
            ExprKind::Block(b) => {
                self.visit_block(sm, &**b);
            },
            ExprKind::Closure(d) => {
                self.visit_block(sm, &d.body);
            },
        }
        proof {
            assert(self.map@ =~= base + defs_of_expr(*sm, *e));
        }
    }
}

/// One ctags-format line for an entry:
/// `<identifier>\t<filename>\t/^<escaped-line-text>$/`, or nothing when the
/// entry's span resolves to no file.
pub open spec fn tag_line_opt(sm: SourceMap, e: TagEntry) -> Option<Seq<char>> {
    match file_index(sm, e.span.lo as int) {
        Option::None => Option::None,
        Option::Some(i) => {
            let f = sm.files@[i];
            let rel = e.span.lo - f.start;
            Option::Some(
                e.ident@ + seq!['\t'] + f.name@ + seq!['\t', '/', '^'] + escape_text(
                    line_text_at(f.chars@, rel),
                ) + seq!['$', '/', '\n'],
            )
        },
    }
}

/// What an entry contributes to the output: its line, or nothing. An entry
/// with an unresolvable span is omitted, not rendered as an empty line.
pub open spec fn tag_line_text(sm: SourceMap, e: TagEntry) -> Seq<char> {
    match tag_line_opt(sm, e) {
        Option::Some(t) => t,
        Option::None => Seq::<char>::empty(),
    }
}

/// The rendered lines of a whole entry sequence, in collection order.
pub open spec fn tag_lines(sm: SourceMap, entries: Seq<TagEntry>) -> Seq<char>
    decreases entries,
{
    if entries.len() == 0 {
        Seq::<char>::empty()
    } else {
        tag_lines(sm, entries.subrange(0, entries.len() - 1)) + tag_line_text(
            sm,
            entries[entries.len() - 1],
        )
    }
}

/// The three pragma lines that open a freshly created tag file; an appended
/// file keeps its existing header.
pub open spec fn header_text() -> Seq<char> {
    "!_TAG_FILE_FORMAT\t1\n!_TAG_FILE_SORTED\t0\n!_TAG_PROGRAM_NAME\ttypo\n"@
}

/// The tag-file header: format 1, unsorted, written by this program.
pub fn write_header() -> (r: String)
    ensures
        r@ == header_text(),
{
    let r: String = "!_TAG_FILE_FORMAT\t1\n!_TAG_FILE_SORTED\t0\n!_TAG_PROGRAM_NAME\ttypo\n".to_owned();
    r
}

fn push_tag_line(sm: &SourceMap, e: &TagEntry, out: &mut Vec<char>)
    ensures
        final(out)@ == old(out)@ + tag_line_text(*sm, *e),
{
    let i = match find_file(sm, e.span.lo) {
        Some(i) => i,
        None => {
            proof {
                assert(out@ =~= old(out)@ + tag_line_text(*sm, *e));
            }
            return ;
        },
    };
    let f = &sm.files[i];
    let rel = e.span.lo - f.start;
    let a = find_line_start(&f.chars, rel);
    let b = find_line_end(&f.chars, rel);
    proof {
        lemma_line_start_bounds(f.chars@, rel as int);
        lemma_line_end_bounds(f.chars@, rel as int);
    }
    push_str_chars(e.ident.as_str(), out);
    out.push('\t');
    push_str_chars(f.name.as_str(), out);
    out.push('\t');
    out.push('/');
    out.push('^');
    push_escaped_range(&f.chars, a, b, out);
    out.push('$');
    out.push('/');
    out.push('\n');
    proof {
        assert(f.chars@.subrange(a as int, b as int) == line_text_at(f.chars@, rel as int));
        assert(out@ =~= old(out)@ + tag_line_text(*sm, *e));
    }
}

#[verifier::loop_isolation(false)]
fn push_tag_lines(sm: &SourceMap, entries: &Vec<TagEntry>, out: &mut Vec<char>)
    ensures
        final(out)@ == old(out)@ + tag_lines(*sm, entries@),
{
    let n = entries.len();
    let mut i: usize = 0;
    proof {
        assert(entries@.subrange(0, 0) =~= Seq::<TagEntry>::empty());
    }
    while i < n
        invariant
            0 <= i <= n == entries@.len(),
            out@ == old(out)@ + tag_lines(*sm, entries@.subrange(0, i as int)),
        decreases n - i,
    {
        push_tag_line(sm, &entries[i], out);
        proof {
            let pre = entries@.subrange(0, i as int + 1);
            assert(pre.subrange(0, pre.len() - 1) =~= entries@.subrange(0, i as int));
            assert(out@ =~= old(out)@ + tag_lines(*sm, pre));
        }
        i = i + 1;
    }
    proof {
        assert(entries@.subrange(0, n as int) =~= entries@);
    }
}

/// Runs the macro-definition pass over a pre-expansion tree and renders its
/// entries as tag lines.
pub fn write_macros(sm: &SourceMap, krate: &Crate) -> (r: String)
    ensures
        r@ == tag_lines(*sm, macro_defs_of_crate(*krate)),
{
    let mut grepper = MacroTagGrepper { macro_map: Vec::new() };
    grepper.visit_mod(&krate.module);
    proof {
        assert(grepper.macro_map@ =~= macro_defs_of_crate(*krate));
    }
    let mut out: Vec<char> = Vec::new();
    push_tag_lines(sm, &grepper.macro_map, &mut out);
    proof {
        assert(out@ =~= tag_lines(*sm, macro_defs_of_crate(*krate)));
    }
    chars_to_string(&out)
}

/// Runs the definition pass over the post-expansion tree and renders its
/// entries as tag lines.
pub fn write_defs(sm: &SourceMap, krate: &Crate) -> (r: String)
    ensures
        r@ == tag_lines(*sm, defs_of_crate(*sm, *krate)),
{
    let mut grepper = TagGrepper { map: Vec::new() };
    grepper.visit_mod(sm, &krate.module);
    proof {
        assert(grepper.map@ =~= defs_of_crate(*sm, *krate));
    }
    let mut out: Vec<char> = Vec::new();
    push_tag_lines(sm, &grepper.map, &mut out);
    proof {
        assert(out@ =~= tag_lines(*sm, defs_of_crate(*sm, *krate)));
    }
    chars_to_string(&out)
}

/// Whether a tree holds no macro-style invocation item anywhere below:
/// what expansion guarantees of the tree it returns, since expansion
/// consumes every invocation item.
pub open spec fn expanded_item(it: Item) -> bool
    decreases it, 3int,
{
    &&& !(it.kind is Mac)
    &&& match it.kind {
        ItemKind::Mod(m) => expanded_items(m.items@),
        ItemKind::Fn(d) => expanded_block(d.body),
        ItemKind::Trait(tis) => expanded_trait_items(tis@),
        ItemKind::Impl(iis) => expanded_impl_items(iis@),
        _ => true,
    }
}

pub open spec fn expanded_items(items: Seq<Item>) -> bool
    decreases items, 4int,
{
    forall|k: int| 0 <= k < items.len() ==> expanded_item(#[trigger] items[k])
}

pub open spec fn expanded_trait_items(tis: Seq<TraitItem>) -> bool
    decreases tis, 4int,
{
    forall|k: int|
        0 <= k < tis.len() ==> match #[trigger] tis[k] {
            TraitItem::Provided(m) => expanded_block(m.def.body),
            _ => true,
        }
}

pub open spec fn expanded_impl_items(iis: Seq<ImplItem>) -> bool
    decreases iis, 4int,
{
    forall|k: int|
        0 <= k < iis.len() ==> match #[trigger] iis[k] {
            ImplItem::Method(m) => expanded_block(m.def.body),
            _ => true,
        }
}

pub open spec fn expanded_block(b: Block) -> bool
    decreases b, 3int,
{
    &&& expanded_stmts(b.stmts@)
    &&& match b.tail {
        Some(e) => expanded_expr(e),
        None => true,
    }
}

pub open spec fn expanded_stmts(stmts: Seq<Stmt>) -> bool
    decreases stmts, 4int,
{
    forall|k: int| 0 <= k < stmts.len() ==> expanded_stmt(#[trigger] stmts[k])
}

pub open spec fn expanded_stmt(st: Stmt) -> bool
    decreases st, 3int,
{
    match st.kind {
        StmtKind::Decl(Decl::Local(l)) => match l.init {
            Some(e) => expanded_expr(e),
            None => true,
        },
        StmtKind::Decl(Decl::Item(it)) => expanded_item(*it),
        StmtKind::Expr(e) => expanded_expr(e),
        StmtKind::Semi(e) => expanded_expr(e),
        StmtKind::Mac => true,
    }
}

pub open spec fn expanded_expr(e: Expr) -> bool
    decreases e, 3int,
{
    match e.kind {
        ExprKind::Path(_) => true,
        ExprKind::Lit => true,
        ExprKind::Call(f, args) => expanded_expr(*f) && expanded_exprs(args@),
        ExprKind::Block(b) => expanded_block(*b),
        ExprKind::Closure(d) => expanded_block(d.body),
    }
}

pub open spec fn expanded_exprs(es: Seq<Expr>) -> bool
    decreases es, 4int,
{
    forall|k: int| 0 <= k < es.len() ==> expanded_expr(#[trigger] es[k])
}

pub open spec fn expanded_crate(k: Crate) -> bool {
    expanded_items(k.module.items@)
}

proof fn lemma_expanded_item_no_macro_defs(it: Item)
    requires
        expanded_item(it),
    ensures
        macro_defs_of_item(it) == Seq::<TagEntry>::empty(),
    decreases it, 3int,
{
    match it.kind {
        ItemKind::Mod(m) => {
            lemma_expanded_items_no_macro_defs(m.items@);
        },
        ItemKind::Fn(d) => {
            lemma_expanded_block_no_macro_defs(d.body);
        },
        ItemKind::Trait(tis) => {
            lemma_expanded_trait_items_no_macro_defs(tis@);
        },
        ItemKind::Impl(iis) => {
            lemma_expanded_impl_items_no_macro_defs(iis@);
        },
        _ => {},
    }
    assert(macro_defs_of_item(it) =~= Seq::<TagEntry>::empty());
}

proof fn lemma_expanded_items_no_macro_defs(items: Seq<Item>)
    requires
        expanded_items(items),
    ensures
        macro_defs_of_items(items) == Seq::<TagEntry>::empty(),
    decreases items, 4int,
{
    if items.len() > 0 {
        let sub = items.subrange(0, items.len() - 1);
        assert forall|k: int| 0 <= k < sub.len() implies expanded_item(#[trigger] sub[k]) by {
            assert(sub[k] == items[k]);
        }
        lemma_expanded_items_no_macro_defs(sub);
        lemma_expanded_item_no_macro_defs(items[items.len() - 1]);
        assert(macro_defs_of_items(items) =~= Seq::<TagEntry>::empty());
    }
}

proof fn lemma_expanded_trait_items_no_macro_defs(tis: Seq<TraitItem>)
    requires
        expanded_trait_items(tis),
    ensures
        macro_defs_of_trait_items(tis) == Seq::<TagEntry>::empty(),
    decreases tis, 4int,
{
    if tis.len() > 0 {
        let sub = tis.subrange(0, tis.len() - 1);
        assert forall|k: int|
            0 <= k < sub.len() implies match #[trigger] sub[k] {
                TraitItem::Provided(m) => expanded_block(m.def.body),
                _ => true,
            } by {
            assert(sub[k] == tis[k]);
        }
        lemma_expanded_trait_items_no_macro_defs(sub);
        match tis[tis.len() - 1] {
            TraitItem::Provided(m) => {
                lemma_expanded_block_no_macro_defs(m.def.body);
            },
            _ => {},
        }
        assert(macro_defs_of_trait_items(tis) =~= Seq::<TagEntry>::empty());
    }
}

proof fn lemma_expanded_impl_items_no_macro_defs(iis: Seq<ImplItem>)
    requires
        expanded_impl_items(iis),
    ensures
        macro_defs_of_impl_items(iis) == Seq::<TagEntry>::empty(),
    decreases iis, 4int,
{
    if iis.len() > 0 {
        let sub = iis.subrange(0, iis.len() - 1);
        assert forall|k: int|
            0 <= k < sub.len() implies match #[trigger] sub[k] {
                ImplItem::Method(m) => expanded_block(m.def.body),
                _ => true,
            } by {
            assert(sub[k] == iis[k]);
        }
        lemma_expanded_impl_items_no_macro_defs(sub);
        match iis[iis.len() - 1] {
            ImplItem::Method(m) => {
                lemma_expanded_block_no_macro_defs(m.def.body);
            },
            _ => {},
        }
        assert(macro_defs_of_impl_items(iis) =~= Seq::<TagEntry>::empty());
    }
}

proof fn lemma_expanded_block_no_macro_defs(b: Block)
    requires
        expanded_block(b),
    ensures
        macro_defs_of_block(b) == Seq::<TagEntry>::empty(),
    decreases b, 3int,
{
    lemma_expanded_stmts_no_macro_defs(b.stmts@);
    match b.tail {
        Some(e) => {
            lemma_expanded_expr_no_macro_defs(e);
        },
        None => {},
    }
    assert(macro_defs_of_block(b) =~= Seq::<TagEntry>::empty());
}

proof fn lemma_expanded_stmts_no_macro_defs(stmts: Seq<Stmt>)
    requires
        expanded_stmts(stmts),
    ensures
        macro_defs_of_stmts(stmts) == Seq::<TagEntry>::empty(),
    decreases stmts, 4int,
{
    if stmts.len() > 0 {
        let sub = stmts.subrange(0, stmts.len() - 1);
        assert forall|k: int| 0 <= k < sub.len() implies expanded_stmt(#[trigger] sub[k]) by {
            assert(sub[k] == stmts[k]);
        }
        lemma_expanded_stmts_no_macro_defs(sub);
        lemma_expanded_stmt_no_macro_defs(stmts[stmts.len() - 1]);
        assert(macro_defs_of_stmts(stmts) =~= Seq::<TagEntry>::empty());
    }
}

proof fn lemma_expanded_stmt_no_macro_defs(st: Stmt)
    requires
        expanded_stmt(st),
    ensures
        macro_defs_of_stmt(st) == Seq::<TagEntry>::empty(),
    decreases st, 3int,
{
    match st.kind {
        StmtKind::Decl(Decl::Local(l)) => {
            match l.init {
                Some(e) => {
                    lemma_expanded_expr_no_macro_defs(e);
                },
                None => {},
            }
        },
        StmtKind::Decl(Decl::Item(it)) => {
            lemma_expanded_item_no_macro_defs(*it);
        },
        StmtKind::Expr(e) => {
            lemma_expanded_expr_no_macro_defs(e);
        },
        StmtKind::Semi(e) => {
            lemma_expanded_expr_no_macro_defs(e);
        },
        StmtKind::Mac => {},
    }
    assert(macro_defs_of_stmt(st) =~= Seq::<TagEntry>::empty());
}

proof fn lemma_expanded_expr_no_macro_defs(e: Expr)
    requires
        expanded_expr(e),
    ensures
        macro_defs_of_expr(e) == Seq::<TagEntry>::empty(),
    decreases e, 3int,
{
    match e.kind {
        ExprKind::Call(f, args) => {
            lemma_expanded_expr_no_macro_defs(*f);
            lemma_expanded_exprs_no_macro_defs(args@);
        },
        ExprKind::Block(b) => {
            lemma_expanded_block_no_macro_defs(*b);
        },
        ExprKind::Closure(d) => {
            lemma_expanded_block_no_macro_defs(d.body);
        },
        _ => {},
    }
    assert(macro_defs_of_expr(e) =~= Seq::<TagEntry>::empty());
}

proof fn lemma_expanded_exprs_no_macro_defs(es: Seq<Expr>)
    requires
        expanded_exprs(es),
    ensures
        macro_defs_of_exprs(es) == Seq::<TagEntry>::empty(),
    decreases es, 4int,
{
    if es.len() > 0 {
        let sub = es.subrange(0, es.len() - 1);
        assert forall|k: int| 0 <= k < sub.len() implies expanded_expr(#[trigger] sub[k]) by {
            assert(sub[k] == es[k]);
        }
        lemma_expanded_exprs_no_macro_defs(sub);
        lemma_expanded_expr_no_macro_defs(es[es.len() - 1]);
        assert(macro_defs_of_exprs(es) =~= Seq::<TagEntry>::empty());
    }
}

/// Macro-definition entries come only from the pre-expansion pass: on a
/// tree that holds no macro-invocation item — as every post-expansion tree
/// does — the macro-definition pass yields nothing, so running it (or the
/// tag run as a whole) after expansion never reintroduces such an entry.
/// The two passes are thus cleanly separated.
pub proof fn lemma_expanded_tree_has_no_macro_defs(k: Crate)
    requires
        expanded_crate(k),
    ensures
        macro_defs_of_crate(k) == Seq::<TagEntry>::empty(),
{
    lemma_expanded_items_no_macro_defs(k.module.items@);
}

/// A renamed import `use a::b as c;` defines exactly the new name `c`, at
/// the import's span; an unrenamed simple import, a glob or an extern-crate
/// declaration defines nothing, since the original definition is indexed at
/// its own declaration.
pub proof fn lemma_renamed_import_entries(vi: ViewItem)
    ensures
        renamed_import(vi) ==> (vi.kind matches ViewItemKind::UseSimple { name, .. }
            && defs_of_view_item(vi) == seq![(TagEntry { ident: name, span: vi.span })]),
        !renamed_import(vi) ==> defs_of_view_item(vi) == Seq::<TagEntry>::empty(),
{
    if !renamed_import(vi) {
        assert(defs_of_view_item(vi) =~= Seq::<TagEntry>::empty());
    }
}

/// For a module declared in one file with its body in another, the emitted
/// entry keeps the module's name but carries the body's span, so it
/// resolves into the file holding the code, not the declaring file.
pub proof fn lemma_out_of_line_module_tag(sm: SourceMap, it: Item)
    requires
        (it.kind is Mod),
        (file_index(sm, it.span.lo as int) is Some),
        (file_index(sm, it.kind->Mod_0.inner.lo as int) is Some),
        sm.files@[file_index(sm, it.span.lo as int)->0].name@ != sm.files@[file_index(
            sm,
            it.kind->Mod_0.inner.lo as int,
        )->0].name@,
    ensures
        defs_of_item(sm, it).len() >= 1,
        defs_of_item(sm, it)[0] == (TagEntry { ident: it.ident, span: it.kind->Mod_0.inner }),
        ({
            let resolved = file_index(sm, defs_of_item(sm, it)[0].span.lo as int);
            &&& resolved is Some
            &&& sm.files@[resolved->0].name@ != sm.files@[file_index(
                sm,
                it.span.lo as int,
            )->0].name@
        }),
{
    let own = seq![TagEntry { ident: it.ident, span: item_tag_span(sm, it) }];
    assert(defs_of_item(sm, it)[0] == own[0]);
}

} // verus!
