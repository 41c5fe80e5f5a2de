use typo::ast::Block;
use typo::ast::Crate;
use typo::ast::Decl;
use typo::ast::Expr;
use typo::ast::ExprKind;
use typo::ast::FnDef;
use typo::ast::Item;
use typo::ast::ItemKind;
use typo::ast::Local;
use typo::ast::Mod;
use typo::ast::Pat;
use typo::ast::PatKind;
use typo::ast::Path;
use typo::ast::Span;
use typo::ast::Stmt;
use typo::ast::StmtKind;
use typo::ast::ViewItem;
use typo::ast::ViewItemKind;
use typo::node_id_map::write_node_id_dic;
use typo::source_map::SourceFile;
use typo::source_map::SourceMap;

fn s(x: &str) -> String {
    x.to_string()
}

fn sp(lo: usize, hi: usize) -> Span {
    Span { lo, hi }
}

fn one_file_map(name: &str, text: &str) -> SourceMap {
    SourceMap {
        files: vec![SourceFile { name: s(name), start: 0, chars: text.chars().collect() }],
    }
}

fn root(items: Vec<Item>, span: Span) -> Crate {
    Crate { module: Mod { inner: span, view_items: Vec::new(), items }, span }
}

fn fn_of_stmts(name: &str, span: Span, stmts: Vec<Stmt>) -> Item {
    Item {
        ident: s(name),
        span,
        kind: ItemKind::Fn(FnDef { args: Vec::new(), body: Block { stmts, tail: None } }),
    }
}

#[test]
fn let_statement_records_pattern_span() {
    // `let x = 5;` — the pattern `x` sits at offsets 4..5.
    let sm = one_file_map("input.rs", "let x = 5;");
    let stmt = Stmt {
        id: 1,
        span: sp(0, 10),
        kind: StmtKind::Decl(Decl::Local(Local {
            pat: Pat { id: 2, span: sp(4, 5), kind: PatKind::Binding(s("x")) },
            init: Some(Expr { id: 3, span: sp(8, 9), kind: ExprKind::Lit }),
        })),
    };
    let k = root(vec![fn_of_stmts("main", sp(0, 10), vec![stmt])], sp(0, 10));
    let out = write_node_id_dic(&sm, &k);
    assert_eq!(out, "input.rs\t0\t10\t1\ninput.rs\t4\t5\t2\ninput.rs\t8\t9\t3\n");
    assert!(out.contains("input.rs\t4\t5\t2\n"));
}

#[test]
fn path_expression_recorded_once_with_expression_id() {
    let sm = one_file_map("p.rs", "x;");
    let stmt = Stmt {
        id: 7,
        span: sp(0, 2),
        kind: StmtKind::Semi(Expr {
            id: 8,
            span: sp(0, 1),
            kind: ExprKind::Path(Path { span: sp(0, 1), segments: vec![s("x")] }),
        }),
    };
    let k = root(vec![fn_of_stmts("main", sp(0, 2), vec![stmt])], sp(0, 2));
    let out = write_node_id_dic(&sm, &k);
    // One line for the statement, one for the path (via the path hook,
    // carrying the expression's id) — not two for the expression.
    assert_eq!(out, "p.rs\t0\t2\t7\np.rs\t0\t1\t8\n");
}

#[test]
fn call_expression_records_itself_and_children() {
    let sm = one_file_map("c.rs", "f(1);");
    let call = Expr {
        id: 11,
        span: sp(0, 4),
        kind: ExprKind::Call(
            Box::new(Expr {
                id: 12,
                span: sp(0, 1),
                kind: ExprKind::Path(Path { span: sp(0, 1), segments: vec![s("f")] }),
            }),
            vec![Expr { id: 13, span: sp(2, 3), kind: ExprKind::Lit }],
        ),
    };
    let stmt = Stmt { id: 10, span: sp(0, 5), kind: StmtKind::Semi(call) };
    let k = root(vec![fn_of_stmts("main", sp(0, 5), vec![stmt])], sp(0, 5));
    let out = write_node_id_dic(&sm, &k);
    assert_eq!(out, "c.rs\t0\t5\t10\nc.rs\t0\t4\t11\nc.rs\t0\t1\t12\nc.rs\t2\t3\t13\n");
}

#[test]
fn constructor_pattern_records_pattern_path_and_subpatterns() {
    let sm = one_file_map("m.rs", "let Some(y) = z;");
    let stmt = Stmt {
        id: 1,
        span: sp(0, 16),
        kind: StmtKind::Decl(Decl::Local(Local {
            pat: Pat {
                id: 2,
                span: sp(4, 11),
                kind: PatKind::Ctor(
                    Path { span: sp(4, 8), segments: vec![s("Some")] },
                    vec![Pat { id: 3, span: sp(9, 10), kind: PatKind::Binding(s("y")) }],
                ),
            },
            init: None,
        })),
    };
    let k = root(vec![fn_of_stmts("main", sp(0, 16), vec![stmt])], sp(0, 16));
    let out = write_node_id_dic(&sm, &k);
    // The constructor path carries the pattern's own node id.
    assert_eq!(out, "m.rs\t0\t16\t1\nm.rs\t4\t11\t2\nm.rs\t4\t8\t2\nm.rs\t9\t10\t3\n");
}

#[test]
fn macro_statement_records_no_entry() {
    let sm = one_file_map("m.rs", "foo!();");
    let stmt = Stmt { id: 9, span: sp(0, 7), kind: StmtKind::Mac };
    let k = root(vec![fn_of_stmts("main", sp(0, 7), vec![stmt])], sp(0, 7));
    assert_eq!(write_node_id_dic(&sm, &k), "");
}

#[test]
fn import_path_recorded_through_path_hook() {
    let sm = one_file_map("u.rs", "use a::b;");
    let k = Crate {
        module: Mod {
            inner: sp(0, 9),
            view_items: vec![ViewItem {
                span: sp(4, 8),
                kind: ViewItemKind::UseSimple {
                    name: s("b"),
                    segments: vec![s("a"), s("b")],
                    path_span: sp(4, 8),
                    id: 21,
                },
            }],
            items: Vec::new(),
        },
        span: sp(0, 9),
    };
    assert_eq!(write_node_id_dic(&sm, &k), "u.rs\t4\t8\t21\n");
}

#[test]
fn extern_crate_records_nothing() {
    let sm = one_file_map("u.rs", "extern crate a;");
    let k = Crate {
        module: Mod {
            inner: sp(0, 15),
            view_items: vec![ViewItem { span: sp(0, 15), kind: ViewItemKind::ExternCrate }],
            items: Vec::new(),
        },
        span: sp(0, 15),
    };
    assert_eq!(write_node_id_dic(&sm, &k), "");
}

#[test]
fn closure_is_recorded_as_expression_and_walked() {
    let sm = one_file_map("cl.rs", "|q| { q }");
    let tail = Expr {
        id: 33,
        span: sp(6, 7),
        kind: ExprKind::Path(Path { span: sp(6, 7), segments: vec![s("q")] }),
    };
    let closure = Expr {
        id: 31,
        span: sp(0, 9),
        kind: ExprKind::Closure(Box::new(FnDef {
            args: vec![Pat { id: 32, span: sp(1, 2), kind: PatKind::Binding(s("q")) }],
            body: Block { stmts: Vec::new(), tail: Some(tail) },
        })),
    };
    let stmt = Stmt { id: 30, span: sp(0, 9), kind: StmtKind::Expr(closure) };
    let k = root(vec![fn_of_stmts("main", sp(0, 9), vec![stmt])], sp(0, 9));
    let out = write_node_id_dic(&sm, &k);
    assert_eq!(out, "cl.rs\t0\t9\t30\ncl.rs\t0\t9\t31\ncl.rs\t1\t2\t32\ncl.rs\t6\t7\t33\n");
}

#[test]
fn span_ending_at_file_boundary_still_resolves() {
    // hi == file length: the end offset belongs to the file all the same.
    let sm = one_file_map("b.rs", "x;");
    let stmt = Stmt { id: 4, span: sp(0, 2), kind: StmtKind::Mac };
    let wild = Stmt {
        id: 5,
        span: sp(0, 2),
        kind: StmtKind::Decl(Decl::Local(Local {
            pat: Pat { id: 6, span: sp(0, 2), kind: PatKind::Wild },
            init: None,
        })),
    };
    let k = root(vec![fn_of_stmts("main", sp(0, 2), vec![stmt, wild])], sp(0, 2));
    let out = write_node_id_dic(&sm, &k);
    assert_eq!(out, "b.rs\t0\t2\t5\nb.rs\t0\t2\t6\n");
}
