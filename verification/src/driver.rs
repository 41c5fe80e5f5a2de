//! The orchestration the surrounding program drives: selecting the single
//! input, and running the requested passes in order.
//!
//! Each output destination is an explicit request flag; a pass runs iff its
//! output was asked for, so the system does at most the work the caller
//! requested. Configuration errors (no input, several inputs) are reported
//! before any processing begins; the caller prints the message and stops.

use vstd::prelude::*;
use vstd::string::StringExecFns;

use crate::ast::Crate;
use crate::ast::TypeEntry;
use crate::node_id_map::node_span_lines;
use crate::node_id_map::node_spans_of_crate;
use crate::node_id_map::write_node_id_dic;
use crate::source_map::SourceMap;
use crate::tags::defs_of_crate;
use crate::tags::header_text;
use crate::tags::macro_defs_of_crate;
use crate::tags::tag_lines;
use crate::tags::write_defs;
use crate::tags::write_header;
use crate::tags::write_macros;
use crate::type_map::type_lines;
use crate::type_map::write_type_map;

verus! {

/// Where the source text comes from: a named file, or standard input,
/// selected once at the boundary by the reserved "-" token.
pub enum InputSelection {
    StandardInput,
    NamedFile(String),
}

/// A configuration error: reported with a usage message before the front
/// end is invoked.
pub enum ConfigError {
    NoInput,
    MultipleInputs,
}

pub open spec fn config_error_text(e: ConfigError) -> Seq<char> {
    match e {
        ConfigError::NoInput => "no input filename given"@,
        ConfigError::MultipleInputs => "multiple input found"@,
    }
}

impl ConfigError {
    /// The diagnostic the caller prints for this error.
    pub fn message(&self) -> (r: String)
        ensures
            r@ == config_error_text(*self),
    {
        match self {
            ConfigError::NoInput => "no input filename given".to_owned(),
            ConfigError::MultipleInputs => "multiple input found".to_owned(),
        }
    }
}

/// Picks the single input from the free command-line arguments: exactly one
/// must be present, and "-" selects standard input.
pub fn select_input(free: &Vec<String>) -> (r: Result<InputSelection, ConfigError>)
    ensures
        free@.len() == 0 ==> r == Result::<InputSelection, ConfigError>::Err(ConfigError::NoInput),
        free@.len() > 1 ==> r == Result::<InputSelection, ConfigError>::Err(
            ConfigError::MultipleInputs,
        ),
        free@.len() == 1 ==> r == (if free@[0]@ == "-"@ {
            Result::<InputSelection, ConfigError>::Ok(InputSelection::StandardInput)
        } else {
            Result::<InputSelection, ConfigError>::Ok(InputSelection::NamedFile(free@[0]))
        }),
{
    if free.len() == 0 {
        Err(ConfigError::NoInput)
    } else if free.len() > 1 {
        Err(ConfigError::MultipleInputs)
    } else {
        let dash: String = "-".to_owned();
        if free[0] == dash {
            Ok(InputSelection::StandardInput)
        } else {
            Ok(InputSelection::NamedFile(free[0].clone()))
        }
    }
}

/// Which outputs the caller asked for. The tag output may append to an
/// existing file, in which case the header is not re-emitted.
pub struct IndexRequest {
    pub tags: bool,
    pub tags_append: bool,
    pub node_spans: bool,
    pub types: bool,
}

/// The rendered artifacts, one per requested destination.
pub struct IndexOutputs {
    pub tags: Option<String>,
    pub node_spans: Option<String>,
    pub types: Option<String>,
}

/// The tag artifact for one run: the header (unless appending), the macro
/// definitions collected before expansion, then the definitions of the
/// expanded tree.
pub open spec fn tags_output_text(sm: SourceMap, pre: Crate, post: Crate, append: bool) -> Seq<
    char,
> {
    (if append {
        Seq::<char>::empty()
    } else {
        header_text()
    }) + tag_lines(sm, macro_defs_of_crate(pre)) + tag_lines(sm, defs_of_crate(sm, post))
}

/// One whole run over an already-parsed translation unit: each pass runs
/// exactly when its destination was requested, in the fixed order tag
/// index, node-span table, type table. `pre` is the pre-expansion tree,
/// `post` the post-expansion, node-identified tree, and `types` the front
/// end's inference table with its types already rendered.
pub fn run_index(
    sm: &SourceMap,
    pre: &Crate,
    post: &Crate,
    types: &Vec<TypeEntry>,
    req: &IndexRequest,
) -> (out: IndexOutputs)
    ensures
        out.tags is Some <==> req.tags,
        req.tags ==> out.tags->0@ == tags_output_text(*sm, *pre, *post, req.tags_append),
        out.node_spans is Some <==> req.node_spans,
        req.node_spans ==> out.node_spans->0@ == node_span_lines(*sm, node_spans_of_crate(*post)),
        out.types is Some <==> req.types,
        req.types ==> out.types->0@ == type_lines(types@),
{
    let tags = if req.tags {
        let mut text = if req.tags_append {
            String::new()
        } else {
            write_header()
        };
        let macros = write_macros(sm, pre);
        text.append(macros.as_str());
        let defs = write_defs(sm, post);
        text.append(defs.as_str());
        Some(text)
    } else {
        None
    };
    let node_spans = if req.node_spans {
        Some(write_node_id_dic(sm, post))
    } else {
        None
    };
    let types_out = if req.types {
        Some(write_type_map(types))
    } else {
        None
    };
    IndexOutputs { tags, node_spans, types: types_out }
}

} // verus!
