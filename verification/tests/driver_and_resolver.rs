use typo::ast::Crate;
use typo::ast::FnDef;
use typo::ast::Item;
use typo::ast::ItemKind;
use typo::ast::Mod;
use typo::ast::Block;
use typo::ast::Span;
use typo::ast::TypeEntry;
use typo::driver::ConfigError;
use typo::driver::IndexRequest;
use typo::driver::InputSelection;
use typo::driver::run_index;
use typo::driver::select_input;
use typo::source_map::SourceFile;
use typo::source_map::SourceMap;
use typo::source_map::resolve_span;

fn s(x: &str) -> String {
    x.to_string()
}

fn sp(lo: usize, hi: usize) -> Span {
    Span { lo, hi }
}

fn one_file_map(name: &str, text: &str) -> SourceMap {
    SourceMap {
        files: vec![SourceFile { name: s(name), start: 0, chars: text.chars().collect() }],
    }
}

fn root(items: Vec<Item>, span: Span) -> Crate {
    Crate { module: Mod { inner: span, view_items: Vec::new(), items }, span }
}

fn fn_item(name: &str, lo: usize, hi: usize) -> Item {
    Item {
        ident: s(name),
        span: sp(lo, hi),
        kind: ItemKind::Fn(FnDef { args: Vec::new(), body: Block { stmts: Vec::new(), tail: None } }),
    }
}

#[test]
fn no_input_is_a_config_error() {
    let r = select_input(&Vec::new());
    assert!(matches!(r, Err(ConfigError::NoInput)));
    assert_eq!(ConfigError::NoInput.message(), "no input filename given");
}

#[test]
fn several_inputs_are_a_config_error() {
    let r = select_input(&vec![s("a.rs"), s("b.rs")]);
    assert!(matches!(r, Err(ConfigError::MultipleInputs)));
    assert_eq!(ConfigError::MultipleInputs.message(), "multiple input found");
}

#[test]
fn dash_selects_standard_input() {
    let r = select_input(&vec![s("-")]);
    assert!(matches!(r, Ok(InputSelection::StandardInput)));
}

#[test]
fn file_name_selects_named_file() {
    let r = select_input(&vec![s("lib.rs")]);
    match r {
        Ok(InputSelection::NamedFile(p)) => assert_eq!(p, "lib.rs"),
        _ => panic!("expected a named file"),
    }
}

#[test]
fn passes_run_only_for_requested_destinations() {
    let sm = one_file_map("main.rs", "fn foo() {}");
    let k = root(vec![fn_item("foo", 0, 11)], sp(0, 11));
    let none = run_index(
        &sm,
        &k,
        &k,
        &Vec::new(),
        &IndexRequest { tags: false, tags_append: false, node_spans: false, types: false },
    );
    assert!(none.tags.is_none());
    assert!(none.node_spans.is_none());
    assert!(none.types.is_none());

    let all = run_index(
        &sm,
        &k,
        &k,
        &vec![TypeEntry { node_id: 1, type_text: s("()") }],
        &IndexRequest { tags: true, tags_append: false, node_spans: true, types: true },
    );
    assert!(all.tags.is_some());
    assert_eq!(all.node_spans.as_deref(), Some(""));
    assert_eq!(all.types.as_deref(), Some("1\t()\n"));
}

#[test]
fn tag_output_is_header_then_macros_then_defs() {
    let sm = one_file_map("main.rs", "fn foo() {}");
    let k = root(vec![fn_item("foo", 0, 11)], sp(0, 11));
    let out = run_index(
        &sm,
        &k,
        &k,
        &Vec::new(),
        &IndexRequest { tags: true, tags_append: false, node_spans: false, types: false },
    );
    assert_eq!(
        out.tags.as_deref(),
        Some(
            "!_TAG_FILE_FORMAT\t1\n!_TAG_FILE_SORTED\t0\n!_TAG_PROGRAM_NAME\ttypo\n\
             foo\tmain.rs\t/^fn foo() {}$/\n"
        ),
    );
}

#[test]
fn appending_omits_the_header() {
    let sm = one_file_map("main.rs", "fn foo() {}");
    let k = root(vec![fn_item("foo", 0, 11)], sp(0, 11));
    let out = run_index(
        &sm,
        &k,
        &k,
        &Vec::new(),
        &IndexRequest { tags: true, tags_append: true, node_spans: false, types: false },
    );
    assert_eq!(out.tags.as_deref(), Some("foo\tmain.rs\t/^fn foo() {}$/\n"));
}

#[test]
fn resolving_an_offset_finds_file_line_and_text() {
    let sm = one_file_map("lib.rs", "fn a() {}\nfn b() {}\n");
    let loc = resolve_span(&sm, sp(10, 19)).expect("offset 10 lies in the file");
    assert_eq!(loc.file_name, "lib.rs");
    assert_eq!(loc.line, 1);
    assert_eq!(loc.line_text, "fn b() {}");
}

#[test]
fn resolving_start_of_file_is_line_zero() {
    let sm = one_file_map("lib.rs", "fn a() {}\nfn b() {}\n");
    let loc = resolve_span(&sm, sp(0, 9)).expect("offset 0 lies in the file");
    assert_eq!(loc.line, 0);
    assert_eq!(loc.line_text, "fn a() {}");
}

#[test]
fn resolving_an_offset_in_no_file_is_unavailable() {
    let sm = one_file_map("lib.rs", "fn a() {}");
    assert!(resolve_span(&sm, sp(50, 60)).is_none());
}

#[test]
fn resolution_picks_the_owning_file_of_several() {
    let sm = SourceMap {
        files: vec![
            SourceFile { name: s("main.rs"), start: 0, chars: "mod m;\n".chars().collect() },
            SourceFile { name: s("m.ext"), start: 8, chars: "fn inner() {}".chars().collect() },
        ],
    };
    let loc = resolve_span(&sm, sp(8, 21)).expect("offset 8 lies in the second file");
    assert_eq!(loc.file_name, "m.ext");
    assert_eq!(loc.line, 0);
    assert_eq!(loc.line_text, "fn inner() {}");
}
