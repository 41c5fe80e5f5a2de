//! The type-table projection: one line per (node identifier, type) pair of
//! the front end's inference table, `<node-identifier>\t<rendered-type>`.
//!
//! The front end owns the type-printing rules; each row arrives with its
//! type already rendered to canonical text, and the projector emits the
//! rows in the table's own order, imposing no sort. Nodes absent from the
//! table are simply absent from the output: not every node receives an
//! inferred type, and that is expected, not an error.

use vstd::prelude::*;

use crate::ast::TypeEntry;
use crate::text::chars_to_string;
use crate::text::dec_rep;
use crate::text::push_str_chars;
use crate::text::push_u64_dec;

verus! {

pub open spec fn type_line(e: TypeEntry) -> Seq<char> {
    dec_rep(e.node_id as nat) + seq!['\t'] + e.type_text@ + seq!['\n']
}

pub open spec fn type_lines(entries: Seq<TypeEntry>) -> Seq<char>
    decreases entries,
{
    if entries.len() == 0 {
        Seq::<char>::empty()
    } else {
        type_lines(entries.subrange(0, entries.len() - 1)) + type_line(entries[entries.len() - 1])
    }
}

/// Renders the whole node-identifier-to-type table, one line per row, in
/// table order.
#[verifier::loop_isolation(false)]
pub fn write_type_map(table: &Vec<TypeEntry>) -> (r: String)
    ensures
        r@ == type_lines(table@),
{
    let mut out: Vec<char> = Vec::new();
    let n = table.len();
    let mut i: usize = 0;
    proof {
        assert(table@.subrange(0, 0) =~= Seq::<TypeEntry>::empty());
    }
    while i < n
        invariant
            0 <= i <= n == table@.len(),
            out@ == type_lines(table@.subrange(0, i as int)),
        decreases n - i,
    {
        let e = &table[i];
        push_u64_dec(e.node_id as u64, &mut out);
        out.push('\t');
        push_str_chars(e.type_text.as_str(), &mut out);
        out.push('\n');
        proof {
            let pre = table@.subrange(0, i as int + 1);
            assert(pre.subrange(0, pre.len() - 1) =~= table@.subrange(0, i as int));
            assert(out@ =~= type_lines(pre));
        }
        i = i + 1;
    }
    proof {
        assert(table@.subrange(0, n as int) =~= table@);
    }
    chars_to_string(&out)
}

} // verus!
