//! The substitution engine: replace every token for one variable name in a
//! document with that variable's value, scanning left to right over
//! non-overlapping matches.

use vstd::prelude::*;

use crate::chars::{append_chars, chars_to_string, str_to_chars};
use crate::pattern::{lemma_token_end_bounds, match_token_at, token_end_at};

verus! {

/// The tail of the substituted document from position `i` on: a token match
/// emits the value and resumes past the match; any other character passes
/// through.
pub open spec fn spec_substitute_from(t: Seq<char>, name: Seq<char>, v: Seq<char>, i: int) -> Seq<
    char,
>
    decreases t.len() - i,
{
    if i < 0 || i >= t.len() {
        Seq::empty()
    } else {
        match token_end_at(t, name, i) {
            Some(e) => {
                proof {
                    lemma_token_end_bounds(t, name, i);
                }
                v + spec_substitute_from(t, name, v, e)
            },
            None => seq![t[i]] + spec_substitute_from(t, name, v, i + 1),
        }
    }
}

/// The document with every token for `name` replaced by `v`.
pub open spec fn spec_substitute(t: Seq<char>, name: Seq<char>, v: Seq<char>) -> Seq<char> {
    spec_substitute_from(t, name, v, 0)
}

/// The substitution engine over character vectors.
pub fn substitute_chars(t: &Vec<char>, name: &Vec<char>, v: &Vec<char>) -> (out: Vec<char>)
    ensures
        out@ == spec_substitute(t@, name@, v@),
{
    let mut out: Vec<char> = Vec::new();
    let mut i: usize = 0;
    while i < t.len()
        invariant
            0 <= i <= t@.len(),
            out@ + spec_substitute_from(t@, name@, v@, i as int) == spec_substitute(
                t@,
                name@,
                v@,
            ),
        decreases t@.len() - i,
    {
        match match_token_at(t, name, i) {
            Some(e) => {
                proof {
                    lemma_token_end_bounds(t@, name@, i as int);
                }
                append_chars(&mut out, v);
                i = e;
            },
            None => {
                out.push(t[i]);
                proof {
                    assert(out@ + spec_substitute_from(t@, name@, v@, i + 1 as int)
                        =~= spec_substitute(t@, name@, v@));
                }
                i = i + 1;
            },
        }
    }
    proof {
        assert(out@ + spec_substitute_from(t@, name@, v@, i as int) =~= out@);
    }
    out
}

/// The substitution engine over strings: every token for `name` in `text`
/// replaced by `value`.
pub fn substitute(text: &str, name: &str, value: &str) -> (out: String)
    ensures
        out@ == spec_substitute(text@, name@, value@),
{
    let t = str_to_chars(text);
    let n = str_to_chars(name);
    let v = str_to_chars(value);
    let r = substitute_chars(&t, &n, &v);
    chars_to_string(&r)
}

} // verus!
