//! The node-span table: a pass over the post-expansion, node-identified
//! tree that records one (span, node identifier) pair for every pattern,
//! every name-reference path, every non-path expression and every
//! declaration/expression/semicolon statement, and the writer that renders
//! the pairs as tab-separated lines.
//!
//! A path-shaped expression is recorded only through the path hook, with
//! the expression's own node identifier, so it yields a single entry; the
//! recorder performs no other de-duplication. Recording happens before
//! descending into children, so nested sub-expressions each get their own
//! entry.

use vstd::prelude::*;

use crate::ast::Block;
use crate::ast::Crate;
use crate::ast::Decl;
use crate::ast::Expr;
use crate::ast::ExprKind;
use crate::ast::FnDef;
use crate::ast::ImplItem;
use crate::ast::Item;
use crate::ast::ItemKind;
use crate::ast::Mod;
use crate::ast::NodeId;
use crate::ast::NodeSpanEntry;
use crate::ast::Path;
use crate::ast::Span;
use crate::ast::Pat;
use crate::ast::PatKind;
use crate::ast::Stmt;
use crate::ast::StmtKind;
use crate::ast::TraitItem;
use crate::ast::ViewItem;
use crate::ast::ViewItemKind;
use crate::source_map::SourceMap;
use crate::source_map::file_index;
use crate::source_map::find_file;
use crate::text::chars_to_string;
use crate::text::dec_rep;
use crate::text::push_str_chars;
use crate::text::push_u64_dec;

verus! {

/// An import's bound path is a name reference, recorded with the view
/// path's node identifier.
pub open spec fn node_spans_of_view_item(vi: ViewItem) -> Seq<NodeSpanEntry> {
    match vi.kind {
        ViewItemKind::UseSimple { path_span, id, .. } => seq![
            NodeSpanEntry { span: path_span, node_id: id },
        ],
        ViewItemKind::UseGlob { path_span, id } => seq![
            NodeSpanEntry { span: path_span, node_id: id },
        ],
        ViewItemKind::ExternCrate => Seq::<NodeSpanEntry>::empty(),
    }
}

/// Every pattern is recorded; a constructor pattern's path is additionally
/// recorded through the path hook, carrying the pattern's own identifier.
pub open spec fn node_spans_of_pat(p: Pat) -> Seq<NodeSpanEntry>
    decreases p, 3int,
{
    seq![NodeSpanEntry { span: p.span, node_id: p.id }] + match p.kind {
        PatKind::Wild => Seq::<NodeSpanEntry>::empty(),
        PatKind::Binding(_) => Seq::<NodeSpanEntry>::empty(),
        PatKind::Tuple(ps) => node_spans_of_pats(ps@),
        PatKind::Ctor(path, ps) => seq![NodeSpanEntry { span: path.span, node_id: p.id }]
            + node_spans_of_pats(ps@),
    }
}

pub open spec fn node_spans_of_pats(ps: Seq<Pat>) -> Seq<NodeSpanEntry>
    decreases ps, 4int,
{
    if ps.len() == 0 {
        Seq::<NodeSpanEntry>::empty()
    } else {
        node_spans_of_pats(ps.subrange(0, ps.len() - 1)) + node_spans_of_pat(ps[ps.len() - 1])
    }
}

/// A bare path expression is recorded once, through the path hook, with
/// the expression's identifier at the path's span; every other expression
/// is recorded at its own span, then its children follow.
pub open spec fn node_spans_of_expr(e: Expr) -> Seq<NodeSpanEntry>
    decreases e, 3int,
{
    match e.kind {
        ExprKind::Path(pth) => seq![NodeSpanEntry { span: pth.span, node_id: e.id }],
        ExprKind::Lit => seq![NodeSpanEntry { span: e.span, node_id: e.id }],
        ExprKind::Call(f, args) => seq![NodeSpanEntry { span: e.span, node_id: e.id }]
            + node_spans_of_expr(*f) + node_spans_of_exprs(args@),
        ExprKind::Block(b) => seq![NodeSpanEntry { span: e.span, node_id: e.id }]
            + node_spans_of_block(*b),
        ExprKind::Closure(d) => seq![NodeSpanEntry { span: e.span, node_id: e.id }]
            + node_spans_of_fn_def(*d),
    }
}

pub open spec fn node_spans_of_exprs(es: Seq<Expr>) -> Seq<NodeSpanEntry>
    decreases es, 4int,
{
    if es.len() == 0 {
        Seq::<NodeSpanEntry>::empty()
    } else {
        node_spans_of_exprs(es.subrange(0, es.len() - 1)) + node_spans_of_expr(es[es.len() - 1])
    }
}

/// Declaration, expression and semicolon statements are recorded at the
/// statement's span; a macro-invocation statement carries no identifier
/// and is only walked through.
pub open spec fn node_spans_of_stmt(st: Stmt) -> Seq<NodeSpanEntry>
    decreases st, 3int,
{
    (match st.kind {
        StmtKind::Mac => Seq::<NodeSpanEntry>::empty(),
        _ => seq![NodeSpanEntry { span: st.span, node_id: st.id }],
    }) + match st.kind {
        StmtKind::Decl(Decl::Local(l)) => node_spans_of_pat(l.pat) + (match l.init {
            Some(e) => node_spans_of_expr(e),
            None => Seq::<NodeSpanEntry>::empty(),
        }),
        StmtKind::Decl(Decl::Item(it)) => node_spans_of_item(*it),
        StmtKind::Expr(e) => node_spans_of_expr(e),
        StmtKind::Semi(e) => node_spans_of_expr(e),
        StmtKind::Mac => Seq::<NodeSpanEntry>::empty(),
    }
}

pub open spec fn node_spans_of_stmts(stmts: Seq<Stmt>) -> Seq<NodeSpanEntry>
    decreases stmts, 4int,
{
    if stmts.len() == 0 {
        Seq::<NodeSpanEntry>::empty()
    } else {
        node_spans_of_stmts(stmts.subrange(0, stmts.len() - 1)) + node_spans_of_stmt(
            stmts[stmts.len() - 1],
        )
    }
}

pub open spec fn node_spans_of_block(b: Block) -> Seq<NodeSpanEntry>
    decreases b, 3int,
{
    node_spans_of_stmts(b.stmts@) + match b.tail {
        Some(e) => node_spans_of_expr(e),
        None => Seq::<NodeSpanEntry>::empty(),
    }
}

/// Argument patterns first, then the body, as the tree walker visits them.
pub open spec fn node_spans_of_fn_def(d: FnDef) -> Seq<NodeSpanEntry>
    decreases d, 3int,
{
    node_spans_of_pats(d.args@) + node_spans_of_block(d.body)
}

pub open spec fn node_spans_of_trait_items(tis: Seq<TraitItem>) -> Seq<NodeSpanEntry>
    decreases tis, 4int,
{
    if tis.len() == 0 {
        Seq::<NodeSpanEntry>::empty()
    } else {
        node_spans_of_trait_items(tis.subrange(0, tis.len() - 1)) + (match tis[tis.len() - 1] {
            TraitItem::Provided(m) => node_spans_of_fn_def(m.def),
            _ => Seq::<NodeSpanEntry>::empty(),
        })
    }
}

pub open spec fn node_spans_of_impl_items(iis: Seq<ImplItem>) -> Seq<NodeSpanEntry>
    decreases iis, 4int,
{
    if iis.len() == 0 {
        Seq::<NodeSpanEntry>::empty()
    } else {
        node_spans_of_impl_items(iis.subrange(0, iis.len() - 1)) + (match iis[iis.len() - 1] {
            ImplItem::Method(m) => node_spans_of_fn_def(m.def),
            _ => Seq::<NodeSpanEntry>::empty(),
        })
    }
}

/// Items themselves carry no entry; the pass only walks through them to
/// the patterns, paths, expressions and statements below.
pub open spec fn node_spans_of_item(it: Item) -> Seq<NodeSpanEntry>
    decreases it, 3int,
{
    match it.kind {
        ItemKind::Mod(m) => node_spans_of_mod(m),
        ItemKind::Fn(d) => node_spans_of_fn_def(d),
        ItemKind::Trait(tis) => node_spans_of_trait_items(tis@),
        ItemKind::Impl(iis) => node_spans_of_impl_items(iis@),
        _ => Seq::<NodeSpanEntry>::empty(),
    }
}

pub open spec fn node_spans_of_items(items: Seq<Item>) -> Seq<NodeSpanEntry>
    decreases items, 4int,
{
    if items.len() == 0 {
        Seq::<NodeSpanEntry>::empty()
    } else {
        node_spans_of_items(items.subrange(0, items.len() - 1)) + node_spans_of_item(
            items[items.len() - 1],
        )
    }
}

pub open spec fn node_spans_of_view_items(vis: Seq<ViewItem>) -> Seq<NodeSpanEntry>
    decreases vis,
{
    if vis.len() == 0 {
        Seq::<NodeSpanEntry>::empty()
    } else {
        node_spans_of_view_items(vis.subrange(0, vis.len() - 1)) + node_spans_of_view_item(
            vis[vis.len() - 1],
        )
    }
}

pub open spec fn node_spans_of_mod(m: Mod) -> Seq<NodeSpanEntry>
    decreases m, 3int,
{
    node_spans_of_view_items(m.view_items@) + node_spans_of_items(m.items@)
}

/// All node-span entries of a translation unit, in pre-order.
pub open spec fn node_spans_of_crate(k: Crate) -> Seq<NodeSpanEntry> {
    node_spans_of_mod(k.module)
}

/// One line of the node-span table:
/// `<filename>\t<begin-offset>\t<end-offset>\t<node-identifier>`, with both
/// offsets relative to the file that owns them; nothing when either end of
/// the span resolves to no file.
pub open spec fn node_span_line_opt(sm: SourceMap, e: NodeSpanEntry) -> Option<Seq<char>> {
    match (file_index(sm, e.span.lo as int), file_index(sm, e.span.hi as int)) {
        (Option::Some(i), Option::Some(j)) => {
            let fb = sm.files@[i];
            let fe = sm.files@[j];
            Option::Some(
                fb.name@ + seq!['\t'] + dec_rep((e.span.lo - fb.start) as nat) + seq!['\t']
                    + dec_rep((e.span.hi - fe.start) as nat) + seq!['\t'] + dec_rep(
                    e.node_id as nat,
                ) + seq!['\n'],
            )
        },
        _ => Option::None,
    }
}

pub open spec fn node_span_line_text(sm: SourceMap, e: NodeSpanEntry) -> Seq<char> {
    match node_span_line_opt(sm, e) {
        Option::Some(t) => t,
        Option::None => Seq::<char>::empty(),
    }
}

pub open spec fn node_span_lines(sm: SourceMap, entries: Seq<NodeSpanEntry>) -> Seq<char>
    decreases entries,
{
    if entries.len() == 0 {
        Seq::<char>::empty()
    } else {
        node_span_lines(sm, entries.subrange(0, entries.len() - 1)) + node_span_line_text(
            sm,
            entries[entries.len() - 1],
        )
    }
}

/// The recording pass itself.
struct NodeIdGrepper {
    map: Vec<NodeSpanEntry>,
}

impl NodeIdGrepper {
    fn grep_id(&mut self, id: NodeId, sp: Span)
        ensures
            final(self).map@ == old(self).map@ + seq![NodeSpanEntry { span: sp, node_id: id }],
    {
        self.map.push(NodeSpanEntry { span: sp, node_id: id });
    }

    #[verifier::loop_isolation(false)]
    fn visit_pat(&mut self, p: &Pat)
        ensures
            final(self).map@ == old(self).map@ + node_spans_of_pat(*p),
        decreases *p, 2int,
    {
        let ghost base = self.map@;
        self.grep_id(p.id, p.span);
        match &p.kind {
            PatKind::Wild => {},
            PatKind::Binding(_) => {},
            PatKind::Tuple(ps) => {
                let ghost mid = self.map@;
                let n = ps.len();
                let mut j: usize = 0;
                proof {
                    assert(ps@.subrange(0, 0) =~= Seq::<Pat>::empty());
                }
                while j < n
                    invariant
                        0 <= j <= n == ps@.len(),
                        self.map@ == mid + node_spans_of_pats(ps@.subrange(0, j as int)),
                    decreases n - j,
                {
                    proof {
                        assert(decreases_to!(*p => p.kind));
                        assert(decreases_to!(p.kind => p.kind->Tuple_0@));
                        assert(decreases_to!(p.kind->Tuple_0@ => ps@[j as int]));
                    }
                    self.visit_pat(&ps[j]);
                    proof {
                        let pre = ps@.subrange(0, j as int + 1);
                        assert(pre.subrange(0, pre.len() - 1) =~= ps@.subrange(0, j as int));
                        assert(self.map@ =~= mid + node_spans_of_pats(pre));
                    }
                    j = j + 1;
                }
                proof {
                    assert(ps@.subrange(0, n as int) =~= ps@);
                }
            },
            PatKind::Ctor(path, ps) => {
                self.visit_path(path, p.id);
                let ghost mid = self.map@;
                let n = ps.len();
                let mut j: usize = 0;
                proof {
                    assert(ps@.subrange(0, 0) =~= Seq::<Pat>::empty());
                }
                while j < n
                    invariant
                        0 <= j <= n == ps@.len(),
                        self.map@ == mid + node_spans_of_pats(ps@.subrange(0, j as int)),
                    decreases n - j,
                {
                    proof {
                        assert(decreases_to!(*p => p.kind));
                        assert(decreases_to!(p.kind => p.kind->Ctor_1@));
                        assert(decreases_to!(p.kind->Ctor_1@ => ps@[j as int]));
                    }
                    self.visit_pat(&ps[j]);
                    proof {
                        let pre = ps@.subrange(0, j as int + 1);
                        assert(pre.subrange(0, pre.len() - 1) =~= ps@.subrange(0, j as int));
                        assert(self.map@ =~= mid + node_spans_of_pats(pre));
                    }
                    j = j + 1;
                }
                proof {
                    assert(ps@.subrange(0, n as int) =~= ps@);
                }
            },
        }
        proof {
            assert(self.map@ =~= base + node_spans_of_pat(*p));
        }
    }

    /// The path hook: each name-reference path is recorded here once, with
    /// the identifier of the node that referenced it.
    fn visit_path(&mut self, p: &Path, id: NodeId)
        ensures
            final(self).map@ == old(self).map@ + seq![
                NodeSpanEntry { span: p.span, node_id: id },
            ],
    {
        self.grep_id(id, p.span);
    }

    #[verifier::loop_isolation(false)]
    fn visit_expr(&mut self, e: &Expr)
        ensures
            final(self).map@ == old(self).map@ + node_spans_of_expr(*e),
        decreases *e, 2int,
    {
        let ghost base = self.map@;
        match &e.kind {
            ExprKind::Path(pth) => {
                self.visit_path(pth, e.id);
            },
            ExprKind::Lit => {
                self.grep_id(e.id, e.span);
            },
            ExprKind::Call(f, args) => {
                self.grep_id(e.id, e.span);
                self.visit_expr(&**f);
                let ghost mid = self.map@;
                let n = args.len();
                let mut j: usize = 0;
                proof {
                    assert(args@.subrange(0, 0) =~= Seq::<Expr>::empty());
                }
                while j < n
                    invariant
                        0 <= j <= n == args@.len(),
                        self.map@ == mid + node_spans_of_exprs(args@.subrange(0, j as int)),
                    decreases n - j,
                {
                    proof {
                        assert(decreases_to!(*e => e.kind));
                        assert(decreases_to!(e.kind => e.kind->Call_1@));
                        assert(decreases_to!(e.kind->Call_1@ => args@[j as int]));
                    }
                    self.visit_expr(&args[j]);
                    proof {
                        let pre = args@.subrange(0, j as int + 1);
                        assert(pre.subrange(0, pre.len() - 1) =~= args@.subrange(0, j as int));
                        assert(self.map@ =~= mid + node_spans_of_exprs(pre));
                    }
                    j = j + 1;
                }
                proof {
                    assert(args@.subrange(0, n as int) =~= args@);
                }
            },
            ExprKind::Block(b) => {
                self.grep_id(e.id, e.span);
                self.visit_block(&**b);
            },
            ExprKind::Closure(d) => {
                self.grep_id(e.id, e.span);
                self.visit_fn_def(&**d);
            },
        }
        proof {
            assert(self.map@ =~= base + node_spans_of_expr(*e));
        }
    }

    fn visit_stmt(&mut self, st: &Stmt)
        ensures
            final(self).map@ == old(self).map@ + node_spans_of_stmt(*st),
        decreases *st, 2int,
    {
        let ghost base = self.map@;
        match &st.kind {
            StmtKind::Mac => {},
            _ => {
                self.grep_id(st.id, st.span);
            },
        }
        match &st.kind {
            StmtKind::Decl(Decl::Local(l)) => {
                self.visit_pat(&l.pat);
                match &l.init {
                    Some(e) => {
                        self.visit_expr(e);
                    },
                    None => {},
                }
            },
            StmtKind::Decl(Decl::Item(it)) => {
                self.visit_item(&**it);
            },
            StmtKind::Expr(e) => {
                self.visit_expr(e);
            },
            StmtKind::Semi(e) => {
                self.visit_expr(e);
            },
            StmtKind::Mac => {},
        }
        proof {
            assert(self.map@ =~= base + node_spans_of_stmt(*st));
        }
    }

    #[verifier::loop_isolation(false)]
    fn visit_block(&mut self, b: &Block)
        ensures
            final(self).map@ == old(self).map@ + node_spans_of_block(*b),
        decreases *b, 2int,
    {
        let ghost base = self.map@;
        let n = b.stmts.len();
        let mut i: usize = 0;
        proof {
            assert(b.stmts@.subrange(0, 0) =~= Seq::<Stmt>::empty());
        }
        while i < n
            invariant
                0 <= i <= n == b.stmts@.len(),
                self.map@ == base + node_spans_of_stmts(b.stmts@.subrange(0, i as int)),
            decreases n - i,
        {
            self.visit_stmt(&b.stmts[i]);
            proof {
                let pre = b.stmts@.subrange(0, i as int + 1);
                assert(pre.subrange(0, pre.len() - 1) =~= b.stmts@.subrange(0, i as int));
                assert(self.map@ =~= base + node_spans_of_stmts(pre));
            }
            i = i + 1;
        }
        proof {
            assert(b.stmts@.subrange(0, n as int) =~= b.stmts@);
        }
        match &b.tail {
            Some(e) => {
                self.visit_expr(e);
            },
            None => {},
        }
        proof {
            assert(self.map@ =~= base + node_spans_of_block(*b));
        }
    }

    #[verifier::loop_isolation(false)]
    fn visit_fn_def(&mut self, d: &FnDef)
        ensures
            final(self).map@ == old(self).map@ + node_spans_of_fn_def(*d),
        decreases *d, 2int,
    {
        let ghost base = self.map@;
        let n = d.args.len();
        let mut j: usize = 0;
        proof {
            assert(d.args@.subrange(0, 0) =~= Seq::<Pat>::empty());
        }
        while j < n
            invariant
                0 <= j <= n == d.args@.len(),
                self.map@ == base + node_spans_of_pats(d.args@.subrange(0, j as int)),
            decreases n - j,
        {
            self.visit_pat(&d.args[j]);
            proof {
                let pre = d.args@.subrange(0, j as int + 1);
                assert(pre.subrange(0, pre.len() - 1) =~= d.args@.subrange(0, j as int));
                assert(self.map@ =~= base + node_spans_of_pats(pre));
            }
            j = j + 1;
        }
        proof {
            assert(d.args@.subrange(0, n as int) =~= d.args@);
        }
        self.visit_block(&d.body);
        proof {
            assert(self.map@ =~= base + node_spans_of_fn_def(*d));
        }
    }

    #[verifier::loop_isolation(false)]
    fn visit_item(&mut self, i: &Item)
        ensures
            final(self).map@ == old(self).map@ + node_spans_of_item(*i),
        decreases *i, 2int,
    {
        let ghost base = self.map@;
        match &i.kind {
            ItemKind::Mod(m) => {
                self.visit_mod(m);
            },
            ItemKind::Fn(d) => {
                self.visit_fn_def(d);
            },
            ItemKind::Trait(tis) => {
                let n = tis.len();
                let mut j: usize = 0;
                proof {
                    assert(tis@.subrange(0, 0) =~= Seq::<TraitItem>::empty());
                }
                while j < n
                    invariant
                        0 <= j <= n == tis@.len(),
                        self.map@ == base + node_spans_of_trait_items(tis@.subrange(0, j as int)),
                    decreases n - j,
                {
                    match &tis[j] {
                        TraitItem::Provided(m) => {
                            proof {
                                assert(decreases_to!(*i => i.kind));
                                assert(decreases_to!(i.kind => i.kind->Trait_0@));
                                assert(decreases_to!(i.kind->Trait_0@ => tis@[j as int]));
                                assert(decreases_to!(tis@[j as int] => m.def));
                            }
                            self.visit_fn_def(&m.def);
                        },
                        _ => {},
                    }
                    proof {
                        let pre = tis@.subrange(0, j as int + 1);
                        assert(pre.subrange(0, pre.len() - 1) =~= tis@.subrange(0, j as int));
                        assert(self.map@ =~= base + node_spans_of_trait_items(pre));
                    }
                    j = j + 1;
                }
                proof {
                    assert(tis@.subrange(0, n as int) =~= tis@);
                }
            },
            ItemKind::Impl(iis) => {
                let n = iis.len();
                let mut j: usize = 0;
                proof {
                    assert(iis@.subrange(0, 0) =~= Seq::<ImplItem>::empty());
                }
                while j < n
                    invariant
                        0 <= j <= n == iis@.len(),
                        self.map@ == base + node_spans_of_impl_items(iis@.subrange(0, j as int)),
                    decreases n - j,
                {
                    match &iis[j] {
                        ImplItem::Method(m) => {
                            proof {
                                assert(decreases_to!(*i => i.kind));
                                assert(decreases_to!(i.kind => i.kind->Impl_0@));
                                assert(decreases_to!(i.kind->Impl_0@ => iis@[j as int]));
                                assert(decreases_to!(iis@[j as int] => m.def));
                            }
                            self.visit_fn_def(&m.def);
                        },
                        _ => {},
                    }
                    proof {
                        let pre = iis@.subrange(0, j as int + 1);
                        assert(pre.subrange(0, pre.len() - 1) =~= iis@.subrange(0, j as int));
                        assert(self.map@ =~= base + node_spans_of_impl_items(pre));
                    }
                    j = j + 1;
                }
                proof {
                    assert(iis@.subrange(0, n as int) =~= iis@);
                }
            },
            _ => {},
        }
        proof {
            assert(self.map@ =~= base + node_spans_of_item(*i));
        }
    }

    #[verifier::loop_isolation(false)]
    fn visit_mod(&mut self, m: &Mod)
        ensures
            final(self).map@ == old(self).map@ + node_spans_of_mod(*m),
        decreases *m, 2int,
    {
        let ghost base = self.map@;
        let nv = m.view_items.len();
        let mut j: usize = 0;
        proof {
            assert(m.view_items@.subrange(0, 0) =~= Seq::<ViewItem>::empty());
        }
        while j < nv
            invariant
                0 <= j <= nv == m.view_items@.len(),
                self.map@ == base + node_spans_of_view_items(m.view_items@.subrange(0, j as int)),
            decreases nv - j,
        {
            let vi = &m.view_items[j];
            match &vi.kind {
                ViewItemKind::UseSimple { path_span, id, .. } => {
                    self.grep_id(*id, *path_span);
                },
                ViewItemKind::UseGlob { path_span, id } => {
                    self.grep_id(*id, *path_span);
                },
                ViewItemKind::ExternCrate => {},
            }
            proof {
                let pre = m.view_items@.subrange(0, j as int + 1);
                assert(pre.subrange(0, pre.len() - 1) =~= m.view_items@.subrange(0, j as int));
                assert(self.map@ =~= base + node_spans_of_view_items(pre));
            }
            j = j + 1;
        }
        proof {
            assert(m.view_items@.subrange(0, nv as int) =~= m.view_items@);
        }
        let ghost mid = self.map@;
        let n = m.items.len();
        let mut i: usize = 0;
        proof {
            assert(m.items@.subrange(0, 0) =~= Seq::<Item>::empty());
        }
        while i < n
            invariant
                0 <= i <= n == m.items@.len(),
                self.map@ == mid + node_spans_of_items(m.items@.subrange(0, i as int)),
            decreases n - i,
        {
            self.visit_item(&m.items[i]);
            proof {
                let pre = m.items@.subrange(0, i as int + 1);
                assert(pre.subrange(0, pre.len() - 1) =~= m.items@.subrange(0, i as int));
                assert(self.map@ =~= mid + node_spans_of_items(pre));
            }
            i = i + 1;
        }
        proof {
            assert(m.items@.subrange(0, n as int) =~= m.items@);
            assert(self.map@ =~= base + node_spans_of_mod(*m));
        }
    }
}

fn push_node_span_line(sm: &SourceMap, e: &NodeSpanEntry, out: &mut Vec<char>)
    ensures
        final(out)@ == old(out)@ + node_span_line_text(*sm, *e),
{
    let fb = match find_file(sm, e.span.lo) {
        Some(i) => i,
        None => {
            proof {
                assert(out@ =~= old(out)@ + node_span_line_text(*sm, *e));
            }
            return ;
        },
    };
    let fe = match find_file(sm, e.span.hi) {
        Some(i) => i,
        None => {
            proof {
                assert(out@ =~= old(out)@ + node_span_line_text(*sm, *e));
            }
            return ;
        },
    };
    let begin = &sm.files[fb];
    let end = &sm.files[fe];
    push_str_chars(begin.name.as_str(), out);
    out.push('\t');
    push_u64_dec((e.span.lo - begin.start) as u64, out);
    out.push('\t');
    push_u64_dec((e.span.hi - end.start) as u64, out);
    out.push('\t');
    push_u64_dec(e.node_id as u64, out);
    out.push('\n');
    proof {
        assert(out@ =~= old(out)@ + node_span_line_text(*sm, *e));
    }
}

/// Runs the node-span pass over the post-expansion tree and renders its
/// entries, one tab-separated line per recorded pair.
pub fn write_node_id_dic(sm: &SourceMap, krate: &Crate) -> (r: String)
    ensures
        r@ == node_span_lines(*sm, node_spans_of_crate(*krate)),
{
    let mut grepper = NodeIdGrepper { map: Vec::new() };
    grepper.visit_mod(&krate.module);
    proof {
        assert(grepper.map@ =~= node_spans_of_crate(*krate));
    }
    let mut out: Vec<char> = Vec::new();
    let n = grepper.map.len();
    let mut i: usize = 0;
    proof {
        assert(grepper.map@.subrange(0, 0) =~= Seq::<NodeSpanEntry>::empty());
    }
    while i < n
        invariant
            0 <= i <= n == grepper.map@.len(),
            out@ == node_span_lines(*sm, grepper.map@.subrange(0, i as int)),
        decreases n - i,
    {
        push_node_span_line(sm, &grepper.map[i], &mut out);
        proof {
            let pre = grepper.map@.subrange(0, i as int + 1);
            assert(pre.subrange(0, pre.len() - 1) =~= grepper.map@.subrange(0, i as int));
            assert(out@ =~= node_span_lines(*sm, pre));
        }
        i = i + 1;
    }
    proof {
        assert(grepper.map@.subrange(0, n as int) =~= grepper.map@);
    }
    chars_to_string(&out)
}

} // verus!
