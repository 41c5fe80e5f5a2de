//! Span resolution: mapping a global byte offset back to the owning source
//! file, the 0-based line number holding it, and that line's text.
//!
//! The front end lays every file of the translation unit out in one global
//! position space; a file owns the closed range from its start offset to its
//! start plus its length. Resolution scans for the first owning file, so it
//! is total: a position inside no file (a synthesized span with no backing
//! source) resolves to "unavailable", which callers treat as "skip, don't
//! fail", never as an error.

use vstd::prelude::*;

use crate::ast::Span;
use crate::text::chars_to_string;
use crate::text::push_range;

verus! {

/// One source file: its display name, its start offset in the global
/// position space, and its text.
pub struct SourceFile {
    pub name: String,
    pub start: usize,
    pub chars: Vec<char>,
}

/// The read-only file table handed out by the front end.
pub struct SourceMap {
    pub files: Vec<SourceFile>,
}

/// A resolved position: the owning file's display name, the 0-based line
/// number containing the position, and that line's full text.
pub struct SrcLoc {
    pub file_name: String,
    pub line: usize,
    pub line_text: String,
}

/// Whether `f` owns global position `pos`. The range is closed on both
/// sides so that a span's end offset, which may sit just past the last
/// character, still belongs to its file.
pub open spec fn file_owns(f: SourceFile, pos: int) -> bool {
    f.start <= pos <= f.start + f.chars@.len()
}

/// The index of the first file at or after `i` that owns `pos`.
pub open spec fn file_index_from(files: Seq<SourceFile>, pos: int, i: int) -> Option<int>
    decreases files.len() - i,
{
    if i < 0 || i >= files.len() {
        None
    } else if file_owns(files[i], pos) {
        Some(i)
    } else {
        file_index_from(files, pos, i + 1)
    }
}

/// The index of the file owning `pos`, if any.
pub open spec fn file_index(sm: SourceMap, pos: int) -> Option<int> {
    file_index_from(sm.files@, pos, 0)
}

/// How many line breaks precede position `p` of `s`; equivalently, the
/// 0-based number of the line containing `p`.
pub open spec fn newline_count(s: Seq<char>, p: int) -> nat
    decreases p,
{
    if p <= 0 {
        0
    } else {
        newline_count(s, p - 1) + (if s[p - 1] == '\n' {
            1nat
        } else {
            0nat
        })
    }
}

/// The start of the line containing position `p`: the position right after
/// the closest line break before `p`, or 0 when none precedes it.
pub open spec fn line_start(s: Seq<char>, p: int) -> int
    decreases p,
{
    if p <= 0 {
        0
    } else if s[p - 1] == '\n' {
        p
    } else {
        line_start(s, p - 1)
    }
}

/// The end of the line containing position `p`: the position of the first
/// line break at or after `p`, or the text's length when none follows.
pub open spec fn line_end(s: Seq<char>, p: int) -> int
    decreases s.len() - p,
{
    if p >= s.len() {
        s.len() as int
    } else if s[p] == '\n' {
        p
    } else {
        line_end(s, p + 1)
    }
}

/// The full text of the line containing position `p`, without its break.
pub open spec fn line_text_at(s: Seq<char>, p: int) -> Seq<char> {
    s.subrange(line_start(s, p), line_end(s, p))
}

/// Where the `k`-th line (0-based) of `s` starts: a consumer that walks the
/// text line by line reaches this position after `k` line breaks.
pub open spec fn kth_line_start(s: Seq<char>, k: nat) -> int
    decreases k,
{
    if k == 0 {
        0
    } else {
        line_end(s, kth_line_start(s, (k - 1) as nat)) + 1
    }
}

/// The full text of the `k`-th line of `s`.
pub open spec fn kth_line_text(s: Seq<char>, k: nat) -> Seq<char> {
    s.subrange(kth_line_start(s, k), line_end(s, kth_line_start(s, k)))
}

pub proof fn lemma_line_start_bounds(s: Seq<char>, p: int)
    requires
        0 <= p,
    ensures
        0 <= line_start(s, p) <= p,
    decreases p,
{
    if p > 0 && s[p - 1] != '\n' {
        lemma_line_start_bounds(s, p - 1);
    }
}

pub proof fn lemma_line_end_bounds(s: Seq<char>, p: int)
    requires
        0 <= p <= s.len(),
    ensures
        p <= line_end(s, p) <= s.len(),
    decreases s.len() - p,
{
    if p < s.len() && s[p] != '\n' {
        lemma_line_end_bounds(s, p + 1);
    }
}

/// No line break sits between the start of `p`'s line and `p` itself.
proof fn lemma_line_start_clean(s: Seq<char>, p: int)
    requires
        0 <= p,
    ensures
        forall|k: int| line_start(s, p) <= k < p ==> s[k] != '\n',
    decreases p,
{
    if p > 0 && s[p - 1] != '\n' {
        lemma_line_start_clean(s, p - 1);
        lemma_line_start_bounds(s, p - 1);
    }
}

/// Scanning for the next line break from anywhere within a break-free
/// stretch finds the same break.
proof fn lemma_line_end_stable(s: Seq<char>, a: int, b: int)
    requires
        0 <= a <= b <= s.len(),
        forall|k: int| a <= k < b ==> s[k] != '\n',
    ensures
        line_end(s, a) == line_end(s, b),
    decreases b - a,
{
    if a < b {
        lemma_line_end_stable(s, a + 1, b);
    }
}

/// Counting line breaks up to a position and walking the text line by line
/// agree: the line holding position `p` is the `newline_count(s, p)`-th
/// line of `s`.
proof fn lemma_kth_line_start(s: Seq<char>, p: int)
    requires
        0 <= p <= s.len(),
    ensures
        kth_line_start(s, newline_count(s, p)) == line_start(s, p),
    decreases p,
{
    if p > 0 {
        lemma_kth_line_start(s, p - 1);
        if s[p - 1] == '\n' {
            lemma_line_start_bounds(s, p - 1);
            lemma_line_start_clean(s, p - 1);
            lemma_line_end_stable(s, line_start(s, p - 1), p - 1);
            assert(line_end(s, p - 1) == p - 1);
        }
    }
}

/// The index a resolution returns really owns the position, and no earlier
/// file does.
pub proof fn lemma_file_index_owns(files: Seq<SourceFile>, pos: int, i: int)
    requires
        0 <= i <= files.len(),
    ensures
        match file_index_from(files, pos, i) {
            Some(j) => i <= j < files.len() && file_owns(files[j], pos),
            None => forall|j: int| i <= j < files.len() ==> !file_owns(files[j], pos),
        },
    decreases files.len() - i,
{
    if i < files.len() && !file_owns(files[i], pos) {
        lemma_file_index_owns(files, pos, i + 1);
    }
}

/// Resolving a span's start offset is a faithful round trip back into the
/// source text: the owning file holds the position; the reported line
/// number, read as "the k-th line of that file", denotes exactly the
/// reported line text; and the position lies within that line's bounds.
pub proof fn lemma_resolution_round_trip(sm: SourceMap, pos: int)
    requires
        file_index(sm, pos) is Some,
    ensures
        ({
            let i = file_index(sm, pos)->0;
            let f = sm.files@[i];
            let rel = pos - f.start;
            let k = newline_count(f.chars@, rel);
            &&& 0 <= i < sm.files@.len()
            &&& file_owns(f, pos)
            &&& line_text_at(f.chars@, rel) == kth_line_text(f.chars@, k)
            &&& line_start(f.chars@, rel) <= rel <= line_end(f.chars@, rel)
        }),
{
    lemma_file_index_owns(sm.files@, pos, 0);
    let i = file_index(sm, pos)->0;
    let f = sm.files@[i];
    let rel = pos - f.start;
    lemma_line_start_bounds(f.chars@, rel);
    lemma_line_end_bounds(f.chars@, rel);
    lemma_kth_line_start(f.chars@, rel);
    lemma_line_start_clean(f.chars@, rel);
    lemma_line_end_stable(f.chars@, line_start(f.chars@, rel), rel);
}

/// Linear scan for the first file owning `pos`.
pub fn find_file(sm: &SourceMap, pos: usize) -> (r: Option<usize>)
    ensures
        match r {
            Some(i) => i < sm.files@.len() && file_owns(sm.files@[i as int], pos as int)
                && file_index(*sm, pos as int) == Some(i as int),
            None => file_index(*sm, pos as int) is None,
        },
{
    let n = sm.files.len();
    let mut i: usize = 0;
    while i < n
        invariant
            0 <= i <= n == sm.files@.len(),
            file_index(*sm, pos as int) == file_index_from(sm.files@, pos as int, i as int),
        decreases n - i,
    {
        let f = &sm.files[i];
        if pos >= f.start && pos - f.start <= f.chars.len() {
            return Some(i);
        }
        i = i + 1;
    }
    None
}

/// The 0-based number of the line containing position `p` of `chars`.
fn count_newlines(chars: &Vec<char>, p: usize) -> (n: usize)
    requires
        p <= chars@.len(),
    ensures
        n as nat == newline_count(chars@, p as int),
{
    let mut n: usize = 0;
    let mut j: usize = 0;
    while j < p
        invariant
            0 <= j <= p <= chars@.len(),
            n <= j,
            n as nat == newline_count(chars@, j as int),
        decreases p - j,
    {
        if chars[j] == '\n' {
            n = n + 1;
        }
        j = j + 1;
    }
    n
}

pub(crate) fn find_line_start(chars: &Vec<char>, p: usize) -> (r: usize)
    requires
        p <= chars@.len(),
    ensures
        r as int == line_start(chars@, p as int),
{
    let mut st: usize = 0;
    let mut j: usize = 0;
    while j < p
        invariant
            0 <= j <= p <= chars@.len(),
            st as int == line_start(chars@, j as int),
        decreases p - j,
    {
        if chars[j] == '\n' {
            st = j + 1;
        }
        j = j + 1;
    }
    st
}

pub(crate) fn find_line_end(chars: &Vec<char>, p: usize) -> (r: usize)
    requires
        p <= chars@.len(),
    ensures
        r as int == line_end(chars@, p as int),
{
    let n = chars.len();
    let mut j: usize = p;
    while j < n
        invariant
            p <= j <= n == chars@.len(),
            line_end(chars@, p as int) == line_end(chars@, j as int),
        decreases n - j,
    {
        if chars[j] == '\n' {
            return j;
        }
        j = j + 1;
    }
    n
}

/// Resolves a span's start offset to its file name, 0-based line number and
/// line text, or reports the position unavailable when no file owns it.
pub fn resolve_span(sm: &SourceMap, sp: Span) -> (r: Option<SrcLoc>)
    ensures
        r is Some <==> file_index(*sm, sp.lo as int) is Some,
        r is Some ==> ({
            let f = sm.files@[file_index(*sm, sp.lo as int)->0];
            let rel = sp.lo - f.start;
            &&& r->0.file_name@ == f.name@
            &&& r->0.line as nat == newline_count(f.chars@, rel)
            &&& r->0.line_text@ == line_text_at(f.chars@, rel)
        }),
{
    let i = match find_file(sm, sp.lo) {
        Some(i) => i,
        None => {
            return None;
        },
    };
    proof {
        lemma_file_index_owns(sm.files@, sp.lo as int, 0);
    }
    let f = &sm.files[i];
    let rel = sp.lo - f.start;
    let line = count_newlines(&f.chars, rel);
    let a = find_line_start(&f.chars, rel);
    let b = find_line_end(&f.chars, rel);
    proof {
        lemma_line_start_bounds(f.chars@, rel as int);
        lemma_line_end_bounds(f.chars@, rel as int);
    }
    let mut text_chars: Vec<char> = Vec::new();
    push_range(&f.chars, a, b, &mut text_chars);
    let text = chars_to_string(&text_chars);
    Some(SrcLoc { file_name: f.name.clone(), line, line_text: text })
}

} // verus!
