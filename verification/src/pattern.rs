//! The template-token grammar: a token is `{{`, optional whitespace, an
//! optional leading `.`, a variable name matched case-insensitively with its
//! dots taken literally, optional whitespace, and `}}`. This module defines
//! the grammar mathematically and provides a verified matcher over it.

use vstd::prelude::*;

use crate::chars::{chars_eq, subvec};
use vstd::string::StringExecFns;

verus! {

/// Whitespace tolerated inside a token, immediately within the braces.
pub open spec fn is_space(c: char) -> bool {
    c == ' ' || c == '\t' || c == '\n' || c == '\r' || c == '\x0b' || c == '\x0c'
}

/// ASCII case folding of a single character.
pub open spec fn lower(c: char) -> char {
    if 'A' <= c && c <= 'Z' {
        ((c as int) + 32) as char
    } else {
        c
    }
}

/// Case-insensitive equality of two character sequences.
pub open spec fn ci_eq(a: Seq<char>, b: Seq<char>) -> bool {
    a.len() == b.len() && (forall|i: int| 0 <= i < a.len() ==> lower(a[i]) == lower(b[i]))
}

/// A variable name fit for token matching: non-empty, free of the characters
/// that delimit a token, and not itself starting with the `.` marker.
pub open spec fn name_ok(n: Seq<char>) -> bool {
    &&& n.len() > 0
    &&& forall|i: int| 0 <= i < n.len() ==> !is_space(#[trigger] n[i]) && n[i] != '{' && n[i] != '}'
    &&& n[0] != '.'
}

/// The first position at or after `i` that does not hold whitespace (or the
/// end of the text).
pub open spec fn skip_ws(t: Seq<char>, i: int) -> int
    decreases t.len() - i,
{
    if 0 <= i && i < t.len() && is_space(t[i]) {
        skip_ws(t, i + 1)
    } else {
        i
    }
}

pub proof fn lemma_skip_ws_bounds(t: Seq<char>, i: int)
    requires
        0 <= i <= t.len(),
    ensures
        i <= skip_ws(t, i) <= t.len(),
        forall|k: int| i <= k < skip_ws(t, i) ==> is_space(#[trigger] t[k]),
        skip_ws(t, i) < t.len() ==> !is_space(t[skip_ws(t, i)]),
    decreases t.len() - i,
{
    if i < t.len() && is_space(t[i]) {
        lemma_skip_ws_bounds(t, i + 1);
    }
}

/// Where a token for `name` starts at position `i` of `t`: the position just
/// past its closing braces. `None` where no such token starts at `i`.
pub open spec fn token_end_at(t: Seq<char>, name: Seq<char>, i: int) -> Option<int> {
    if !(0 <= i && i + 2 <= t.len() && t[i] == '{' && t[i + 1] == '{') {
        None
    } else {
        let j = skip_ws(t, i + 2);
        let j2 = if j < t.len() && t[j] == '.' {
            j + 1
        } else {
            j
        };
        if j2 + name.len() <= t.len() && ci_eq(t.subrange(j2, j2 + name.len()), name) {
            let k = skip_ws(t, j2 + name.len());
            if k + 2 <= t.len() && t[k] == '}' && t[k + 1] == '}' {
                Some(k + 2)
            } else {
                None
            }
        } else {
            None
        }
    }
}

pub proof fn lemma_token_end_bounds(t: Seq<char>, name: Seq<char>, i: int)
    requires
        token_end_at(t, name, i) is Some,
    ensures
        i + 4 <= token_end_at(t, name, i)->Some_0 <= t.len(),
{
    lemma_skip_ws_bounds(t, i + 2);
    let j = skip_ws(t, i + 2);
    let j2 = if j < t.len() && t[j] == '.' {
        j + 1
    } else {
        j
    };
    lemma_skip_ws_bounds(t, j2 + name.len());
}

/// The text that introduces a rendered pattern: a case-insensitivity marker
/// and the escaped opening braces with optional whitespace.
pub open spec fn pattern_prefix() -> Seq<char> {
    seq!['(', '?', 'i', ')', '\\', '{', '\\', '{', '\\', 's', '*']
}

/// The text that closes a rendered pattern: optional whitespace and the
/// escaped closing braces.
pub open spec fn pattern_suffix() -> Seq<char> {
    seq!['\\', 's', '*', '\\', '}', '\\', '}']
}

/// The rendered pattern text for a variable written with its own leading `.`.
pub open spec fn spec_make_regex_pattern(var: Seq<char>) -> Seq<char> {
    pattern_prefix() + var + pattern_suffix()
}

/// The rendered pattern text for a bare variable name; the `.` marker is
/// supplied by the pattern itself.
pub open spec fn spec_make_pattern(var: Seq<char>) -> Seq<char> {
    pattern_prefix() + seq!['.'] + var + pattern_suffix()
}

/// The variable text enclosed in a rendered pattern, or `None` where the text
/// is not of the rendered form.
pub open spec fn pattern_payload(p: Seq<char>) -> Option<Seq<char>> {
    if p.len() >= pattern_prefix().len() + pattern_suffix().len() && p.take(
        pattern_prefix().len() as int,
    ) == pattern_prefix() && p.skip(p.len() - pattern_suffix().len()) == pattern_suffix() {
        Some(p.subrange(pattern_prefix().len() as int, p.len() - pattern_suffix().len()))
    } else {
        None
    }
}

/// A payload with its optional leading `.` marker removed.
pub open spec fn strip_dot(m: Seq<char>) -> Seq<char> {
    if m.len() > 0 && m[0] == '.' {
        m.skip(1)
    } else {
        m
    }
}

/// Rendering a variable and reading it back are inverse.
pub proof fn lemma_payload_of_pattern(var: Seq<char>)
    ensures
        pattern_payload(spec_make_regex_pattern(var)) == Some(var),
{
    let p = spec_make_regex_pattern(var);
    assert(p.take(pattern_prefix().len() as int) =~= pattern_prefix());
    assert(p.skip(p.len() - pattern_suffix().len()) =~= pattern_suffix());
    assert(p.subrange(pattern_prefix().len() as int, p.len() - pattern_suffix().len()) =~= var);
}

/// The pattern-prefix text as a character vector.
pub fn pattern_prefix_chars() -> (v: Vec<char>)
    ensures
        v@ == pattern_prefix(),
{
    let mut v: Vec<char> = Vec::new();
    v.push('(');
    v.push('?');
    v.push('i');
    v.push(')');
    v.push('\\');
    v.push('{');
    v.push('\\');
    v.push('{');
    v.push('\\');
    v.push('s');
    v.push('*');
    assert(v@ =~= pattern_prefix());
    v
}

/// The pattern-suffix text as a character vector.
pub fn pattern_suffix_chars() -> (v: Vec<char>)
    ensures
        v@ == pattern_suffix(),
{
    let mut v: Vec<char> = Vec::new();
    v.push('\\');
    v.push('s');
    v.push('*');
    v.push('\\');
    v.push('}');
    v.push('\\');
    v.push('}');
    assert(v@ =~= pattern_suffix());
    v
}

/// Builds the pattern text for a variable written with its own leading `.`.
pub fn make_regex_pattern_text(var: &str) -> (r: String)
    ensures
        r@ == spec_make_regex_pattern(var@),
{
    let mut s = String::from_str("(?i)\\{\\{\\s*");
    proof {
        reveal_strlit("(?i)\\{\\{\\s*");
        assert(s@ =~= pattern_prefix());
    }
    s.append(var);
    s.append("\\s*\\}\\}");
    proof {
        reveal_strlit("\\s*\\}\\}");
        assert(("\\s*\\}\\}")@ =~= pattern_suffix());
        assert(s@ =~= spec_make_regex_pattern(var@));
    }
    s
}

/// Builds the pattern text for a bare variable name, the `.` marker included.
pub fn make_pattern_text(var: &str) -> (r: String)
    ensures
        r@ == spec_make_pattern(var@),
{
    let mut s = String::from_str("(?i)\\{\\{\\s*.");
    proof {
        reveal_strlit("(?i)\\{\\{\\s*.");
        assert(s@ =~= pattern_prefix() + seq!['.']);
    }
    s.append(var);
    s.append("\\s*\\}\\}");
    proof {
        reveal_strlit("\\s*\\}\\}");
        assert(("\\s*\\}\\}")@ =~= pattern_suffix());
        assert(s@ =~= spec_make_pattern(var@));
    }
    s
}

/// Reads the variable text back out of rendered pattern text.
pub fn pattern_payload_chars(p: &Vec<char>) -> (r: Option<Vec<char>>)
    ensures
        match r {
            Some(m) => pattern_payload(p@) == Some(m@),
            None => pattern_payload(p@) is None,
        },
{
    let prefix = pattern_prefix_chars();
    let suffix = pattern_suffix_chars();
    if p.len() < prefix.len() + suffix.len() {
        return None;
    }
    let head = subvec(p, 0, prefix.len());
    if !chars_eq(&head, &prefix) {
        proof {
            assert(p@.take(pattern_prefix().len() as int) =~= head@);
        }
        return None;
    }
    let tail = subvec(p, p.len() - suffix.len(), p.len());
    if !chars_eq(&tail, &suffix) {
        proof {
            assert(p@.take(pattern_prefix().len() as int) =~= head@);
            assert(p@.skip(p@.len() - pattern_suffix().len()) =~= tail@);
        }
        return None;
    }
    let m = subvec(p, prefix.len(), p.len() - suffix.len());
    proof {
        assert(p@.take(pattern_prefix().len() as int) =~= head@);
        assert(p@.skip(p@.len() - pattern_suffix().len()) =~= tail@);
    }
    Some(m)
}

/// Removes the optional leading `.` marker of a payload.
pub fn strip_dot_chars(m: &Vec<char>) -> (r: Vec<char>)
    ensures
        r@ == strip_dot(m@),
{
    if m.len() > 0 && m[0] == '.' {
        subvec(m, 1, m.len())
    } else {
        let r = subvec(m, 0, m.len());
        assert(r@ =~= m@);
        r
    }
}

/// Executable mirror of `is_space`.
pub fn is_space_char(c: char) -> (r: bool)
    ensures
        r == is_space(c),
{
    c == ' ' || c == '\t' || c == '\n' || c == '\r' || c == '\x0b' || c == '\x0c'
}

/// Executable mirror of `lower`.
pub fn lower_char(c: char) -> (r: char)
    ensures
        r == lower(c),
{
    if 'A' <= c && c <= 'Z' {
        ((c as u8) + 32) as char
    } else {
        c
    }
}

fn skip_ws_from(t: &Vec<char>, i: usize) -> (r: usize)
    requires
        i <= t@.len(),
    ensures
        r as int == skip_ws(t@, i as int),
        i <= r <= t@.len(),
{
    let mut j = i;
    while j < t.len() && is_space_char(t[j])
        invariant
            i <= j <= t@.len(),
            skip_ws(t@, i as int) == skip_ws(t@, j as int),
        decreases t@.len() - j,
    {
        j = j + 1;
    }
    proof {
        lemma_skip_ws_bounds(t@, i as int);
    }
    j
}

fn ci_eq_range(t: &Vec<char>, start: usize, name: &Vec<char>) -> (r: bool)
    requires
        start + name@.len() <= t@.len(),
    ensures
        r == ci_eq(t@.subrange(start as int, start as int + name@.len() as int), name@),
{
    let ghost sub = t@.subrange(start as int, start as int + name@.len() as int);
    let tl = t.len();
    let mut k: usize = 0;
    while k < name.len()
        invariant
            0 <= k <= name@.len(),
            start + name@.len() <= t@.len(),
            tl == t@.len(),
            sub == t@.subrange(start as int, start as int + name@.len() as int),
            forall|m: int| 0 <= m < k ==> lower(#[trigger] sub[m]) == lower(name@[m]),
        decreases name@.len() - k,
    {
        if lower_char(t[start + k]) != lower_char(name[k]) {
            assert(sub[k as int] == t@[start + k as int]);
            return false;
        }
        assert(sub[k as int] == t@[start + k as int]);
        k = k + 1;
    }
    true
}

/// The verified matcher: decides whether a token for `name` starts at
/// position `i` of `t`, returning the position just past it.
pub fn match_token_at(t: &Vec<char>, name: &Vec<char>, i: usize) -> (r: Option<usize>)
    requires
        i <= t@.len(),
    ensures
        match r {
            Some(e) => token_end_at(t@, name@, i as int) == Some(e as int),
            None => token_end_at(t@, name@, i as int) is None,
        },
{
    let len = t.len();
    if len - i < 2 {
        return None;
    }
    if !(t[i] == '{' && t[i + 1] == '{') {
        return None;
    }
    let j = skip_ws_from(t, i + 2);
    let j2 = if j < len && t[j] == '.' {
        j + 1
    } else {
        j
    };
    let nl = name.len();
    if len - j2 < nl {
        return None;
    }
    if !ci_eq_range(t, j2, name) {
        return None;
    }
    let k = skip_ws_from(t, j2 + nl);
    if len - k < 2 {
        return None;
    }
    if t[k] == '}' && t[k + 1] == '}' {
        Some(k + 2)
    } else {
        None
    }
}

} // verus!
