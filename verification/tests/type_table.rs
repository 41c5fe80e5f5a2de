use typo::ast::TypeEntry;
use typo::type_map::write_type_map;

fn entry(node_id: u32, text: &str) -> TypeEntry {
    TypeEntry { node_id, type_text: text.to_string() }
}

#[test]
fn type_row_renders_id_tab_type() {
    // A node identifier assigned during expansion, paired with the front
    // end's rendered type, yields exactly `<id>\ti32`.
    let out = write_type_map(&vec![entry(3, "i32")]);
    assert_eq!(out, "3\ti32\n");
}

#[test]
fn empty_table_renders_nothing() {
    let out = write_type_map(&Vec::new());
    assert_eq!(out, "");
}

#[test]
fn rows_keep_table_order_unsorted() {
    let out = write_type_map(&vec![
        entry(42, "&str"),
        entry(7, "Vec<u8>"),
        entry(1000000, "()"),
    ]);
    assert_eq!(out, "42\t&str\n7\tVec<u8>\n1000000\t()\n");
}

#[test]
fn zero_and_largest_identifiers_render_in_decimal() {
    let out = write_type_map(&vec![entry(0, "bool"), entry(u32::MAX, "u32")]);
    assert_eq!(out, "0\tbool\n4294967295\tu32\n");
}
