//! General properties of the matcher and the substitution passes, stated and
//! proved once over all inputs.

use vstd::prelude::*;

use crate::pattern::{
    ci_eq, is_space, lemma_payload_of_pattern, lower, name_ok, skip_ws, strip_dot, token_end_at,
};
use crate::runtime::{
    apply_set_entries, set_entry_key, set_entry_pattern, set_entry_value, spec_replace_implicit,
    spec_subst_one,
};
use crate::subst::{spec_substitute, spec_substitute_from};

verus! {

/// A whitespace run: every character of `ws` is token whitespace.
pub open spec fn all_spaces(ws: Seq<char>) -> bool {
    forall|i: int| 0 <= i < ws.len() ==> is_space(#[trigger] ws[i])
}

/// One whole token, written out: braces, a whitespace run, the optional
/// leading marker, a body, another whitespace run, and braces.
pub open spec fn token_text(ws1: Seq<char>, dot: bool, body: Seq<char>, ws2: Seq<char>) -> Seq<
    char,
> {
    seq!['{', '{'] + ws1 + (if dot {
        seq!['.']
    } else {
        Seq::<char>::empty()
    }) + body + ws2 + seq!['}', '}']
}

proof fn lemma_skip_ws_run(t: Seq<char>, i: int, j: int)
    requires
        0 <= i <= j <= t.len(),
        forall|k: int| i <= k < j ==> is_space(#[trigger] t[k]),
        j == t.len() || !is_space(t[j]),
    ensures
        skip_ws(t, i) == j,
    decreases j - i,
{
    if i < j {
        lemma_skip_ws_run(t, i + 1, j);
    }
}

/// A character that case-folds like a name character is itself no
/// whitespace, no brace, and no leading marker.
proof fn lemma_ci_char_shape(a: char, b: char)
    requires
        lower(a) == lower(b),
        !is_space(b),
        b != '{',
        b != '}',
    ensures
        !is_space(a),
        a != '{',
        a != '}',
        b != '.' ==> a != '.',
{
}

/// Every character of a body that case-folds like a well-formed name is
/// itself no whitespace and no brace, and its first character is no marker.
proof fn lemma_ci_body_shape(body: Seq<char>, name: Seq<char>)
    requires
        ci_eq(body, name),
        name_ok(name),
    ensures
        forall|i: int|
            0 <= i < body.len() ==> !is_space(#[trigger] body[i]) && body[i] != '{' && body[i]
                != '}',
        body[0] != '.',
{
    assert forall|i: int|
        0 <= i < body.len() implies !is_space(#[trigger] body[i]) && body[i] != '{' && body[i]
        != '}' by {
        lemma_ci_char_shape(body[i], name[i]);
    }
    lemma_ci_char_shape(body[0], name[0]);
}

/// Matching is case-insensitive and whitespace-tolerant: a token written for
/// `name` with any whitespace runs, any casing of the name, and with or
/// without the leading marker, matches as one whole token.
pub proof fn lemma_token_matches_variants(
    ws1: Seq<char>,
    dot: bool,
    body: Seq<char>,
    ws2: Seq<char>,
    name: Seq<char>,
)
    requires
        all_spaces(ws1),
        all_spaces(ws2),
        ci_eq(body, name),
        name_ok(name),
    ensures
        token_end_at(token_text(ws1, dot, body, ws2), name, 0) == Some(
            token_text(ws1, dot, body, ws2).len() as int,
        ),
{
    let t = token_text(ws1, dot, body, ws2);
    let n = name.len() as int;
    let d: int = if dot {
        1
    } else {
        0
    };
    lemma_ci_body_shape(body, name);
    assert(t[0] == '{');
    assert(t[1] == '{');
    assert forall|k: int| 2 <= k < 2 + ws1.len() implies is_space(#[trigger] t[k]) by {
        assert(t[k] == ws1[k - 2]);
    }
    assert(t[2 + ws1.len() as int] == (if dot {
        '.'
    } else {
        body[0]
    }));
    lemma_skip_ws_run(t, 2, 2 + ws1.len() as int);
    let j = 2 + ws1.len() as int;
    let j2 = j + d;
    assert(t.subrange(j2, j2 + n) =~= body);
    assert(ci_eq(t.subrange(j2, j2 + n), name));
    assert forall|k: int| j2 + n <= k < j2 + n + ws2.len() implies is_space(#[trigger] t[k]) by {
        assert(t[k] == ws2[k - (j2 + n)]);
    }
    assert(t[j2 + n + ws2.len()] == '}');
    lemma_skip_ws_run(t, j2 + n, j2 + n + ws2.len() as int);
    let k = j2 + n + ws2.len() as int;
    assert(t[k] == '}');
    assert(t[k + 1] == '}');
    assert(k + 2 == t.len());
}

/// A document that is exactly one token for `name` resolves to the stored
/// value, whatever its whitespace and casing.
pub proof fn lemma_token_resolves(
    ws1: Seq<char>,
    dot: bool,
    body: Seq<char>,
    ws2: Seq<char>,
    name: Seq<char>,
    v: Seq<char>,
)
    requires
        all_spaces(ws1),
        all_spaces(ws2),
        ci_eq(body, name),
        name_ok(name),
    ensures
        spec_substitute(token_text(ws1, dot, body, ws2), name, v) == v,
{
    let t = token_text(ws1, dot, body, ws2);
    lemma_token_matches_variants(ws1, dot, body, ws2, name);
    assert(spec_substitute_from(t, name, v, 0) == v + spec_substitute_from(
        t,
        name,
        v,
        t.len() as int,
    ));
    assert(v + Seq::<char>::empty() =~= v);
}

/// Where no token for `name` starts anywhere in `t`, substitution leaves `t`
/// unchanged.
pub proof fn lemma_substitute_no_match(t: Seq<char>, name: Seq<char>, v: Seq<char>, i: int)
    requires
        0 <= i <= t.len(),
        forall|k: int| 0 <= k < t.len() ==> token_end_at(t, name, k) is None,
    ensures
        spec_substitute_from(t, name, v, i) == t.skip(i),
    decreases t.len() - i,
{
    if i < t.len() {
        lemma_substitute_no_match(t, name, v, i + 1);
        assert(seq![t[i]] + t.skip(i + 1) =~= t.skip(i));
    } else {
        assert(t.skip(i) =~= Seq::<char>::empty());
    }
}

/// Matching is exact-token: a token written for a longer name — one that
/// merely begins with `name` — does not match `name`, and substitution for
/// `name` leaves the whole token unchanged.
pub proof fn lemma_extended_token_no_match(
    ws1: Seq<char>,
    dot: bool,
    body: Seq<char>,
    ws2: Seq<char>,
    name: Seq<char>,
    name2: Seq<char>,
    v: Seq<char>,
)
    requires
        all_spaces(ws1),
        all_spaces(ws2),
        ci_eq(body, name2),
        name_ok(name2),
        name_ok(name),
        name.len() < name2.len(),
        ci_eq(name2.take(name.len() as int), name),
    ensures
        token_end_at(token_text(ws1, dot, body, ws2), name, 0) is None,
        spec_substitute(token_text(ws1, dot, body, ws2), name, v) == token_text(
            ws1,
            dot,
            body,
            ws2,
        ),
{
    let t = token_text(ws1, dot, body, ws2);
    let n = name.len() as int;
    let n2 = name2.len() as int;
    let d: int = if dot {
        1
    } else {
        0
    };
    lemma_ci_body_shape(body, name2);
    assert forall|k: int| 2 <= k < 2 + ws1.len() implies is_space(#[trigger] t[k]) by {
        assert(t[k] == ws1[k - 2]);
    }
    assert(t[2 + ws1.len() as int] == (if dot {
        '.'
    } else {
        body[0]
    }));
    lemma_skip_ws_run(t, 2, 2 + ws1.len() as int);
    let j = 2 + ws1.len() as int;
    let j2 = j + d;
    // the first `name.len()` characters of the body fold like `name`
    assert forall|k: int| 0 <= k < n implies lower(#[trigger] t.subrange(j2, j2 + n)[k]) == lower(
        name[k],
    ) by {
        assert(t.subrange(j2, j2 + n)[k] == body[k]);
        assert(lower(body[k]) == lower(name2[k]));
        assert(lower(name2.take(n)[k]) == lower(name[k]));
    }
    assert(ci_eq(t.subrange(j2, j2 + n), name));
    // what follows them is a further name character: no whitespace, no brace
    let c = body[n];
    assert(lower(c) == lower(name2[n]));
    lemma_ci_char_shape(c, name2[n]);
    assert(t[j2 + n] == c);
    lemma_skip_ws_run(t, j2 + n, j2 + n);
    assert(token_end_at(t, name, 0) is None);
    // no token for `name` starts anywhere else either
    assert forall|k: int| 0 <= k < t.len() implies token_end_at(t, name, k) is None by {
        if k != 0 && k + 2 <= t.len() {
            assert(t[1] == '{');
            if k == 1 {
                assert(t[2] == (if ws1.len() > 0 {
                    ws1[0]
                } else if dot {
                    '.'
                } else {
                    body[0]
                }));
                assert(t[k + 1] != '{');
            } else {
                assert(t[k] == (if k < 2 + ws1.len() {
                    ws1[k - 2]
                } else if k < j2 {
                    '.'
                } else if k < j2 + n2 {
                    body[k - j2]
                } else if k < j2 + n2 + ws2.len() {
                    ws2[k - (j2 + n2)]
                } else {
                    '}'
                }));
                assert(t[k] != '{');
            }
        }
    }
    lemma_substitute_no_match(t, name, v, 0);
    assert(t.skip(0) =~= t);
}

/// One `--set` argument registers both a pattern-keyed explicit entry and a
/// bare-key implicit entry with its value, and rewrites every token for its
/// key, under the `Values.` namespace, in both documents.
pub proof fn lemma_set_entry_effects(
    imp: Map<Seq<char>, Seq<char>>,
    exp: Map<Seq<char>, Seq<char>>,
    values: Seq<char>,
    cfg: Seq<char>,
    s: Seq<char>,
)
    ensures
        ({
            let r = apply_set_entries(imp, exp, values, cfg, seq![s]);
            let v = set_entry_value(s);
            let name = "Values."@ + set_entry_key(s);
            &&& r.0 == imp.insert(set_entry_key(s), v)
            &&& r.1 == exp.insert(set_entry_pattern(s), v)
            &&& r.2 == spec_substitute(values, name, v)
            &&& r.3 == spec_substitute(cfg, name, v)
        }),
{
    let payload = seq!['.'] + "Values."@ + set_entry_key(s);
    lemma_payload_of_pattern(payload);
    assert(payload.len() > 0 && payload[0] == '.');
    assert(strip_dot(payload) =~= "Values."@ + set_entry_key(s));
    assert(seq![s].drop_last() =~= Seq::<Seq<char>>::empty());
    assert(seq![s].last() == s);
    let prev = apply_set_entries(imp, exp, values, cfg, seq![s].drop_last());
    assert(prev.0 == imp && prev.1 == exp && prev.2 == values && prev.3 == cfg);
}

/// An implicit variable with no stored value contributes no substitution
/// pass: the document passes through unchanged.
pub proof fn lemma_unbound_implicit_unchanged(
    imp: Map<Seq<char>, Seq<char>>,
    key: Seq<char>,
    name: Seq<char>,
    t: Seq<char>,
)
    requires
        !imp.contains_key(key),
    ensures
        spec_subst_one(imp, key, name, t) == t,
{
}

/// Where none of the well-known implicit variables holds a stored value, the
/// whole implicit substitution leaves the document unchanged.
pub proof fn lemma_implicit_all_unbound_unchanged(imp: Map<Seq<char>, Seq<char>>, t: Seq<char>)
    requires
        !imp.contains_key("release.name"@),
        !imp.contains_key("chart.name"@),
        !imp.contains_key("source.branch"@),
        !imp.contains_key("previous.branch"@),
        !imp.contains_key("starting.canary.percentage"@),
    ensures
        spec_replace_implicit(imp, t) == t,
{
}

} // verus!

