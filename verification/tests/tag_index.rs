use typo::ast::Block;
use typo::ast::Crate;
use typo::ast::Decl;
use typo::ast::FnDef;
use typo::ast::Stmt;
use typo::ast::StmtKind;
use typo::ast::ImplItem;
use typo::ast::Item;
use typo::ast::ItemKind;
use typo::ast::MacInvocation;
use typo::ast::Method;
use typo::ast::Mod;
use typo::ast::ForeignItem;
use typo::ast::Span;
use typo::ast::StructField;
use typo::ast::TraitItem;
use typo::ast::Variant;
use typo::ast::ViewItem;
use typo::ast::ViewItemKind;
use typo::source_map::SourceFile;
use typo::source_map::SourceMap;
use typo::tags::MacroTagGrepper;
use typo::tags::TagGrepper;
use typo::tags::write_defs;
use typo::tags::write_header;
use typo::tags::write_macros;

fn s(x: &str) -> String {
    x.to_string()
}

fn sp(lo: usize, hi: usize) -> Span {
    Span { lo, hi }
}

fn src_file(name: &str, start: usize, text: &str) -> SourceFile {
    SourceFile { name: s(name), start, chars: text.chars().collect() }
}

fn one_file_map(name: &str, text: &str) -> SourceMap {
    SourceMap { files: vec![src_file(name, 0, text)] }
}

fn root(items: Vec<Item>, span: Span) -> Crate {
    Crate { module: Mod { inner: span, view_items: Vec::new(), items }, span }
}

fn empty_block() -> Block {
    Block { stmts: Vec::new(), tail: None }
}

fn fn_item(name: &str, lo: usize, hi: usize) -> Item {
    Item {
        ident: s(name),
        span: sp(lo, hi),
        kind: ItemKind::Fn(FnDef { args: Vec::new(), body: empty_block() }),
    }
}

#[test]
fn header_has_three_pragma_lines() {
    let h = write_header();
    assert_eq!(h, "!_TAG_FILE_FORMAT\t1\n!_TAG_FILE_SORTED\t0\n!_TAG_PROGRAM_NAME\ttypo\n");
}

#[test]
fn single_function_yields_one_tag_line() {
    let sm = one_file_map("main.rs", "fn foo() {}");
    let k = root(vec![fn_item("foo", 0, 11)], sp(0, 11));
    let out = write_defs(&sm, &k);
    assert_eq!(out, "foo\tmain.rs\t/^fn foo() {}$/\n");
}

#[test]
fn tuple_struct_emits_no_field_entries() {
    let sm = one_file_map("main.rs", "struct P(i32, i32);");
    let item = Item {
        ident: s("P"),
        span: sp(0, 19),
        kind: ItemKind::Struct(vec![
            StructField { span: sp(9, 12), name: None },
            StructField { span: sp(14, 17), name: None },
        ]),
    };
    let mut g = TagGrepper { map: Vec::new() };
    g.visit_item(&sm, &item);
    assert_eq!(g.map.len(), 1);
    assert_eq!(g.map[0].ident, "P");
}

#[test]
fn named_struct_emits_one_entry_per_field() {
    let sm = one_file_map("main.rs", "struct Q { x: i32 }");
    let item = Item {
        ident: s("Q"),
        span: sp(0, 19),
        kind: ItemKind::Struct(vec![StructField { span: sp(11, 17), name: Some(s("x")) }]),
    };
    let mut g = TagGrepper { map: Vec::new() };
    g.visit_item(&sm, &item);
    assert_eq!(g.map.len(), 2);
    assert_eq!(g.map[0].ident, "Q");
    assert_eq!(g.map[1].ident, "x");
    assert_eq!(g.map[1].span.lo, 11);
}

#[test]
fn renamed_import_emits_new_name_only() {
    let sm = one_file_map("main.rs", "use a::b as c;");
    let vi = ViewItem {
        span: sp(4, 13),
        kind: ViewItemKind::UseSimple {
            name: s("c"),
            segments: vec![s("a"), s("b")],
            path_span: sp(4, 8),
            id: 1,
        },
    };
    let mut g = TagGrepper { map: Vec::new() };
    g.visit_view_item(&vi);
    assert_eq!(g.map.len(), 1);
    assert_eq!(g.map[0].ident, "c");
    assert_eq!(g.map[0].span.lo, 4);
    let _ = sm;
}

#[test]
fn unrenamed_import_emits_nothing() {
    let vi = ViewItem {
        span: sp(4, 8),
        kind: ViewItemKind::UseSimple {
            name: s("b"),
            segments: vec![s("a"), s("b")],
            path_span: sp(4, 8),
            id: 1,
        },
    };
    let mut g = TagGrepper { map: Vec::new() };
    g.visit_view_item(&vi);
    assert_eq!(g.map.len(), 0);
}

#[test]
fn glob_import_emits_nothing() {
    let vi = ViewItem {
        span: sp(4, 8),
        kind: ViewItemKind::UseGlob { path_span: sp(4, 8), id: 1 },
    };
    let mut g = TagGrepper { map: Vec::new() };
    g.visit_view_item(&vi);
    assert_eq!(g.map.len(), 0);
}

#[test]
fn out_of_line_module_tag_points_into_body_file() {
    let sm = SourceMap {
        files: vec![
            src_file("main.rs", 0, "mod m;\n"),
            src_file("m.ext", 8, "fn inner() {}"),
        ],
    };
    let inner_item = fn_item("inner", 8, 21);
    let item = Item {
        ident: s("m"),
        span: sp(0, 6),
        kind: ItemKind::Mod(Mod { inner: sp(8, 21), view_items: Vec::new(), items: vec![
            inner_item,
        ] }),
    };
    let k = root(vec![item], sp(0, 21));
    let out = write_defs(&sm, &k);
    assert_eq!(out, "m\tm.ext\t/^fn inner() {}$/\ninner\tm.ext\t/^fn inner() {}$/\n");
}

#[test]
fn inline_module_tag_keeps_declaration_span() {
    let sm = one_file_map("main.rs", "mod m { }");
    let item = Item {
        ident: s("m"),
        span: sp(0, 9),
        kind: ItemKind::Mod(Mod { inner: sp(7, 8), view_items: Vec::new(), items: Vec::new() }),
    };
    let k = root(vec![item], sp(0, 9));
    let out = write_defs(&sm, &k);
    assert_eq!(out, "m\tmain.rs\t/^mod m { }$/\n");
}

#[test]
fn macro_definition_indexed_from_pre_expansion_tree() {
    let sm = one_file_map("x.rs", "macro_rules! foo {}");
    let item = Item {
        ident: s("foo"),
        span: sp(0, 19),
        kind: ItemKind::Mac(MacInvocation { segments: vec![s("macro_rules")] }),
    };
    let k = root(vec![item], sp(0, 19));
    let out = write_macros(&sm, &k);
    assert_eq!(out, "foo\tx.rs\t/^macro_rules! foo {}$/\n");
}

#[test]
fn macro_pass_on_expanded_tree_emits_nothing() {
    let sm = one_file_map("x.rs", "fn foo() {}");
    let k = root(vec![fn_item("foo", 0, 11)], sp(0, 11));
    assert_eq!(write_macros(&sm, &k), "");
}

#[test]
fn macro_invocation_of_defined_macro_is_not_a_definition() {
    let sm = one_file_map("x.rs", "foo!();");
    let item = Item {
        ident: s(""),
        span: sp(0, 7),
        kind: ItemKind::Mac(MacInvocation { segments: vec![s("foo")] }),
    };
    let k = root(vec![item], sp(0, 7));
    assert_eq!(write_macros(&sm, &k), "");
}

#[test]
fn multi_segment_invocation_is_ignored_by_macro_pass() {
    let item = Item {
        ident: s("foo"),
        span: sp(0, 7),
        kind: ItemKind::Mac(MacInvocation { segments: vec![s("std"), s("macro_rules")] }),
    };
    let mut g = MacroTagGrepper { macro_map: Vec::new() };
    g.visit_item(&item);
    assert_eq!(g.macro_map.len(), 0);
}

#[test]
fn macro_entry_uses_the_invocation_span() {
    let item = Item {
        ident: s("foo"),
        span: sp(2, 21),
        kind: ItemKind::Mac(MacInvocation { segments: vec![s("macro_rules")] }),
    };
    let mut g = MacroTagGrepper { macro_map: Vec::new() };
    g.visit_item(&item);
    assert_eq!(g.macro_map.len(), 1);
    assert_eq!(g.macro_map[0].ident, "foo");
    assert_eq!(g.macro_map[0].span.lo, 2);
    assert_eq!(g.macro_map[0].span.hi, 21);
}

#[test]
fn pattern_line_escapes_slash_dollar_and_backslash() {
    let sm = one_file_map("e.rs", "a/b$c\\");
    let k = root(vec![fn_item("t", 0, 6)], sp(0, 6));
    let out = write_defs(&sm, &k);
    assert_eq!(out, "t\te.rs\t/^a\\/b\\$c\\\\$/\n");
}

#[test]
fn unresolvable_span_drops_only_that_entry() {
    let sm = one_file_map("main.rs", "fn a() {}");
    let far = fn_item("ghostly", 100, 105);
    let near = fn_item("a", 0, 9);
    let k = root(vec![near, far], sp(0, 9));
    let out = write_defs(&sm, &k);
    assert_eq!(out, "a\tmain.rs\t/^fn a() {}$/\n");
}

#[test]
fn trait_items_emit_methods_and_associated_types() {
    let sm = one_file_map("t.rs", "trait T { }");
    let item = Item {
        ident: s("T"),
        span: sp(0, 11),
        kind: ItemKind::Trait(vec![
            TraitItem::Required { ident: s("req"), span: sp(1, 2) },
            TraitItem::Provided(Method {
                ident: s("prov"),
                span: sp(3, 4),
                def: FnDef { args: Vec::new(), body: empty_block() },
            }),
            TraitItem::AssocType { ident: s("Assoc"), span: sp(5, 6) },
        ]),
    };
    let mut g = TagGrepper { map: Vec::new() };
    g.visit_item(&sm, &item);
    let names: Vec<&str> = g.map.iter().map(|e| e.ident.as_str()).collect();
    assert_eq!(names, vec!["T", "req", "prov", "Assoc"]);
}

#[test]
fn impl_methods_emit_but_impl_associated_types_do_not() {
    let sm = one_file_map("t.rs", "impl T for S { }");
    let item = Item {
        ident: s(""),
        span: sp(0, 16),
        kind: ItemKind::Impl(vec![
            ImplItem::Method(Method {
                ident: s("run"),
                span: sp(1, 2),
                def: FnDef { args: Vec::new(), body: empty_block() },
            }),
            ImplItem::AssocType { ident: s("Out"), span: sp(3, 4) },
        ]),
    };
    let mut g = TagGrepper { map: Vec::new() };
    g.visit_item(&sm, &item);
    let names: Vec<&str> = g.map.iter().map(|e| e.ident.as_str()).collect();
    assert_eq!(names, vec!["", "run"]);
}

#[test]
fn enum_variants_and_their_named_fields_emit() {
    let sm = one_file_map("t.rs", "enum E { }");
    let item = Item {
        ident: s("E"),
        span: sp(0, 10),
        kind: ItemKind::Enum(vec![
            Variant { name: s("A"), span: sp(1, 2), fields: Vec::new() },
            Variant {
                name: s("B"),
                span: sp(3, 4),
                fields: vec![
                    StructField { span: sp(5, 6), name: Some(s("x")) },
                    StructField { span: sp(7, 8), name: None },
                ],
            },
        ]),
    };
    let mut g = TagGrepper { map: Vec::new() };
    g.visit_item(&sm, &item);
    let names: Vec<&str> = g.map.iter().map(|e| e.ident.as_str()).collect();
    assert_eq!(names, vec!["E", "A", "B", "x"]);
}

#[test]
fn foreign_items_emit_like_local_items() {
    let sm = one_file_map("t.rs", "extern { }");
    let item = Item {
        ident: s(""),
        span: sp(0, 10),
        kind: ItemKind::ForeignMod(vec![
            ForeignItem { ident: s("getenv"), span: sp(1, 2) },
            ForeignItem { ident: s("putenv"), span: sp(3, 4) },
        ]),
    };
    let mut g = TagGrepper { map: Vec::new() };
    g.visit_item(&sm, &item);
    let names: Vec<&str> = g.map.iter().map(|e| e.ident.as_str()).collect();
    assert_eq!(names, vec!["", "getenv", "putenv"]);
}

#[test]
fn item_nested_in_function_body_is_indexed() {
    let sm = one_file_map("t.rs", "fn outer() { struct Inner; }");
    let nested = Item { ident: s("Inner"), span: sp(13, 26), kind: ItemKind::Struct(Vec::new()) };
    let item = Item {
        ident: s("outer"),
        span: sp(0, 28),
        kind: ItemKind::Fn(FnDef {
            args: Vec::new(),
            body: Block {
                stmts: vec![Stmt {
                    id: 5,
                    span: sp(13, 26),
                    kind: StmtKind::Decl(Decl::Item(Box::new(nested))),
                }],
                tail: None,
            },
        }),
    };
    let mut g = TagGrepper { map: Vec::new() };
    g.visit_item(&sm, &item);
    let names: Vec<&str> = g.map.iter().map(|e| e.ident.as_str()).collect();
    assert_eq!(names, vec!["outer", "Inner"]);
}
