//! Plain-text building blocks shared by the writers: decimal rendering of
//! numbers, the ex-command escaping rule for tag patterns, and conversions
//! between `str`/`String` and character vectors.

use vstd::prelude::*;
use vstd::std_specs::iter::IteratorSpec;

verus! {

broadcast use vstd::string::group_string_axioms;

/// The decimal digit character for a value below ten.
pub open spec fn dec_digit(d: nat) -> char {
    if d == 0 {
        '0'
    } else if d == 1 {
        '1'
    } else if d == 2 {
        '2'
    } else if d == 3 {
        '3'
    } else if d == 4 {
        '4'
    } else if d == 5 {
        '5'
    } else if d == 6 {
        '6'
    } else if d == 7 {
        '7'
    } else if d == 8 {
        '8'
    } else {
        '9'
    }
}

/// The decimal rendering of a number, most significant digit first,
/// without a sign and without leading zeros (zero renders as "0").
pub open spec fn dec_rep(n: nat) -> Seq<char>
    decreases n,
{
    if n < 10 {
        seq![dec_digit(n)]
    } else {
        dec_rep(n / 10).push(dec_digit(n % 10))
    }
}

fn digit_char(d: u64) -> (c: char)
    requires
        d < 10,
    ensures
        c == dec_digit(d as nat),
{
    if d == 0 {
        '0'
    } else if d == 1 {
        '1'
    } else if d == 2 {
        '2'
    } else if d == 3 {
        '3'
    } else if d == 4 {
        '4'
    } else if d == 5 {
        '5'
    } else if d == 6 {
        '6'
    } else if d == 7 {
        '7'
    } else if d == 8 {
        '8'
    } else {
        '9'
    }
}

/// Appends the decimal rendering of `n` to `out`.
pub fn push_u64_dec(n: u64, out: &mut Vec<char>)
    ensures
        final(out)@ == old(out)@ + dec_rep(n as nat),
    decreases n,
{
    if n < 10 {
        out.push(digit_char(n));
    } else {
        push_u64_dec(n / 10, out);
        out.push(digit_char(n % 10));
        proof {
            assert(out@ =~= old(out)@ + dec_rep(n as nat));
        }
    }
}

/// How one character of a source line appears inside a tag search pattern:
/// `/`, `$` and `\` take a backslash prefix, everything else is itself.
pub open spec fn esc_char(c: char) -> Seq<char> {
    if c == '/' || c == '$' || c == '\\' {
        seq!['\\', c]
    } else {
        seq![c]
    }
}

/// A whole line escaped for use between `/^` and `$/` in a tag line.
pub open spec fn escape_text(s: Seq<char>) -> Seq<char>
    decreases s.len(),
{
    if s.len() == 0 {
        Seq::empty()
    } else {
        escape_text(s.drop_last()) + esc_char(s.last())
    }
}

/// Appends the escaped form of `chars[a..b]` to `out`.
pub fn push_escaped_range(chars: &Vec<char>, a: usize, b: usize, out: &mut Vec<char>)
    requires
        a <= b <= chars@.len(),
    ensures
        final(out)@ == old(out)@ + escape_text(chars@.subrange(a as int, b as int)),
{
    let mut j: usize = a;
    proof {
        assert(chars@.subrange(a as int, a as int) =~= Seq::<char>::empty());
    }
    while j < b
        invariant
            a <= j <= b <= chars@.len(),
            out@ == old(out)@ + escape_text(chars@.subrange(a as int, j as int)),
        decreases b - j,
    {
        let c = chars[j];
        if c == '/' || c == '$' || c == '\\' {
            out.push('\\');
        }
        out.push(c);
        proof {
            let pre = chars@.subrange(a as int, j as int + 1);
            assert(pre.drop_last() =~= chars@.subrange(a as int, j as int));
            assert(pre.last() == chars@[j as int]);
            assert(out@ =~= old(out)@ + escape_text(pre));
        }
        j = j + 1;
    }
}

/// Appends `chars[a..b]` to `out` unchanged.
pub fn push_range(chars: &Vec<char>, a: usize, b: usize, out: &mut Vec<char>)
    requires
        a <= b <= chars@.len(),
    ensures
        final(out)@ == old(out)@ + chars@.subrange(a as int, b as int),
{
    let mut j: usize = a;
    proof {
        assert(chars@.subrange(a as int, a as int) =~= Seq::<char>::empty());
    }
    while j < b
        invariant
            a <= j <= b <= chars@.len(),
            out@ == old(out)@ + chars@.subrange(a as int, j as int),
        decreases b - j,
    {
        out.push(chars[j]);
        proof {
            assert(out@ =~= old(out)@ + chars@.subrange(a as int, j as int + 1));
        }
        j = j + 1;
    }
}

/// Appends the characters of `s` to `out`.
pub fn push_str_chars(s: &str, out: &mut Vec<char>)
    ensures
        final(out)@ == old(out)@ + s@,
{
    let mut it = s.chars();
    loop
        invariant
            it.obeys_prophetic_iter_laws(),
            it.decrease() is Some,
            out@ + it.remaining() == old(out)@ + s@,
        decreases it.decrease()->0,
    {
        match it.next() {
            Some(c) => {
                out.push(c);
                proof {
                    assert(out@ + it.remaining() =~= old(out)@ + s@);
                }
            },
            None => {
                proof {
                    assert(out@ =~= old(out)@ + s@);
                }
                return ;
            },
        }
    }
}

/// Relies on `String`'s `FromIterator` over characters: collecting the
/// characters of `v` yields the string holding exactly those characters.
#[verifier::external_body]
pub fn chars_to_string(v: &Vec<char>) -> (s: String)
    ensures
        s@ == v@,
{
    v.iter().collect()
}

} // verus!

