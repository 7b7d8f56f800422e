//! Laws on the calls an emitted match arm makes: it calls the imported
//! function of its shape once, and returns only the `SqlValue` variant
//! of its shape.

use vstd::prelude::*;

use super::arms::{
    import_call, lemma_arm_contains, lemma_last_arm_line, no_char, occurs_at, result_variant,
};
use super::{contains_text, lemma_contains_at, shape_names, starts_with};
use crate::text::{concat_map, join_map, lemma_concat_map_append, lemma_join_map_step};
use crate::wasm_target::dispatch::{arm_body_text, arm_lines, indented_line_fn, DispatchShape};

verus! {

/// The names of the `SqlValue` variants the arms return.
pub open spec fn is_variant_name(w: Seq<char>) -> bool {
    w == "Blob"@ || w == "Text"@ || w == "Real"@ || w == "Integer"@
}

/// `s` holds no `::` and does not end in `:`.
pub open spec fn no_path(s: Seq<char>) -> bool {
    !contains_text(s, "::"@) && (s.len() > 0 ==> s.last() != ':')
}

/// `a` ends with `b` or `b` ends with `a`: read backwards, one is the
/// start of the other.
pub open spec fn suffix_related(a: Seq<char>, b: Seq<char>) -> bool {
    (b.len() <= a.len() && a.skip(a.len() - b.len()) == b) || (a.len() <= b.len() && b.skip(
        b.len() - a.len(),
    ) == a)
}

/// Every `::` of `s` stands, within `s`, in `SqlValue::<v>(`, and `s`
/// does not end in `:`.
pub open spec fn only_result_paths(s: Seq<char>, v: Seq<char>) -> bool {
    &&& (s.len() > 0 ==> s.last() != ':')
    &&& forall|p: int|
        0 <= p && p + 1 < s.len() && #[trigger] s[p] == ':' && s[p + 1] == ':' ==> {
            &&& 8 <= p
            &&& p + 3 + v.len() <= s.len()
            &&& s.subrange(p - 8, p) == "SqlValue"@
            &&& s.subrange(p + 2, p + 3 + v.len()) == v + "("@
        }
}

proof fn lemma_paths_concat(a: Seq<char>, b: Seq<char>, v: Seq<char>)
    requires
        only_result_paths(a, v),
        only_result_paths(b, v),
    ensures
        only_result_paths(a + b, v),
{
    let h = a + b;
    if b.len() > 0 {
        assert(h.last() == b.last());
    } else {
        assert(h =~= a);
    }
    assert forall|p: int| 0 <= p && p + 1 < h.len() && #[trigger] h[p] == ':' && h[p + 1] == ':' implies {
        &&& 8 <= p
        &&& p + 3 + v.len() <= h.len()
        &&& h.subrange(p - 8, p) == "SqlValue"@
        &&& h.subrange(p + 2, p + 3 + v.len()) == v + "("@
    } by {
        if p + 1 < a.len() {
            assert(h[p] == a[p]);
            assert(h[p + 1] == a[p + 1]);
            assert(h.subrange(p - 8, p) =~= a.subrange(p - 8, p));
            assert(h.subrange(p + 2, p + 3 + v.len()) =~= a.subrange(p + 2, p + 3 + v.len()));
        } else if p + 1 == a.len() {
            assert(h[p] == a[p]);
        } else {
            let q = p - a.len();
            assert(h[p] == b[q]);
            assert(h[p + 1] == b[q + 1]);
            assert(h.subrange(p - 8, p) =~= b.subrange(q - 8, q));
            assert(h.subrange(p + 2, p + 3 + v.len()) =~= b.subrange(q + 2, q + 3 + v.len()));
        }
    }
}

proof fn lemma_no_path_paths(s: Seq<char>, v: Seq<char>)
    requires
        no_path(s),
    ensures
        only_result_paths(s, v),
{
    reveal_strlit("::");
    assert forall|p: int| 0 <= p && p + 1 < s.len() && #[trigger] s[p] == ':' && s[p + 1] == ':' implies false by {
        assert(s.subrange(p, p + 2) =~= "::"@);
        lemma_contains_at(s, "::"@, p);
    }
}

/// A literal in which no `:` is followed by another, and that does not
/// end in `:`, holds no `::`.
proof fn lemma_no_path_literal(s: Seq<char>)
    requires
        s.len() > 0 ==> s.last() != ':',
        forall|i: int| 0 <= i < s.len() && #[trigger] s[i] == ':' ==> i + 1 < s.len() && s[i + 1] != ':',
    ensures
        no_path(s),
{
    reveal_strlit("::");
    if contains_text(s, "::"@) {
        let k = choose|k: int| 0 <= k && k + "::"@.len() <= s.len() && #[trigger] s.subrange(k, k + "::"@.len()) == "::"@;
        assert(s.subrange(k, k + 2)[0] == s[k]);
        assert(s.subrange(k, k + 2)[1] == s[k + 1]);
    }
}

proof fn lemma_paths_join(lines: Seq<Seq<char>>, f: spec_fn(Seq<char>) -> Seq<char>, v: Seq<char>)
    requires
        forall|k: int| 0 <= k < lines.len() ==> only_result_paths(#[trigger] f(lines[k]), v),
    ensures
        only_result_paths(join_map(lines, f, "\n"@), v),
    decreases lines.len(),
{
    reveal_strlit("\n");
    if lines.len() == 0 {
        assert(only_result_paths(Seq::<char>::empty(), v));
    } else if lines.len() == 1 {
        assert(only_result_paths(f(lines[0]), v));
    } else {
        let rest = lines.drop_last();
        assert forall|k: int| 0 <= k < rest.len() implies only_result_paths(#[trigger] f(rest[k]), v) by {
            assert(rest[k] == lines[k]);
        }
        lemma_paths_join(rest, f, v);
        lemma_no_path_literal("\n"@);
        lemma_no_path_paths("\n"@, v);
        assert(only_result_paths(f(lines[lines.len() - 1]), v));
        lemma_paths_concat(join_map(rest, f, "\n"@), "\n"@, v);
        lemma_paths_concat(join_map(rest, f, "\n"@) + "\n"@, f(lines.last()), v);
    }
}

proof fn lemma_paths_concat_map<T>(s: Seq<T>, g: spec_fn(T) -> Seq<char>, v: Seq<char>)
    requires
        forall|k: int| 0 <= k < s.len() ==> only_result_paths(#[trigger] g(s[k]), v),
    ensures
        only_result_paths(concat_map(s, g), v),
    decreases s.len(),
{
    if s.len() > 0 {
        let rest = s.drop_last();
        assert forall|k: int| 0 <= k < rest.len() implies only_result_paths(#[trigger] g(rest[k]), v) by {
            assert(rest[k] == s[k]);
        }
        lemma_paths_concat_map(rest, g, v);
        assert(only_result_paths(g(s[s.len() - 1]), v));
        lemma_paths_concat(concat_map(rest, g), g(s.last()), v);
    } else {
        assert(only_result_paths(Seq::<char>::empty(), v));
    }
}

/// A line's image after a newline.
pub open spec fn after_newline_fn(f: spec_fn(Seq<char>) -> Seq<char>) -> spec_fn(Seq<char>) -> Seq<char> {
    |e: Seq<char>| "\n"@ + f(e)
}

/// The lines from `i` on, each after a newline.
pub open spec fn join_tail(s: Seq<Seq<char>>, f: spec_fn(Seq<char>) -> Seq<char>, i: int) -> Seq<char> {
    concat_map(s.skip(i), after_newline_fn(f))
}

/// A join is its first `i` lines joined, then the rest each after a
/// newline.
proof fn lemma_join_head_tail(s: Seq<Seq<char>>, f: spec_fn(Seq<char>) -> Seq<char>, i: int)
    requires
        1 <= i <= s.len(),
    ensures
        join_map(s, f, "\n"@) == join_map(s.take(i), f, "\n"@) + join_tail(s, f, i),
    decreases s.len() - i,
{
    let g = after_newline_fn(f);
    if i == s.len() {
        assert(s.take(i) =~= s);
        assert(s.skip(i) =~= Seq::<Seq<char>>::empty());
        assert(join_map(s, f, "\n"@) + join_tail(s, f, i) =~= join_map(s, f, "\n"@));
    } else {
        lemma_join_head_tail(s, f, i + 1);
        lemma_join_map_step(s, f, "\n"@, i);
        assert(s.skip(i) =~= seq![s[i]] + s.skip(i + 1));
        lemma_concat_map_append(seq![s[i]], s.skip(i + 1), g);
        let one = seq![s[i]];
        assert(one.drop_last() =~= Seq::<Seq<char>>::empty());
        assert(concat_map(one.drop_last(), g) =~= Seq::<char>::empty());
        assert(one.last() == s[i]);
        assert(concat_map(one, g) =~= g(s[i]));
    }
}

proof fn lemma_regroup(
    j: Seq<char>,
    nl: Seq<char>,
    indent: Seq<char>,
    pre: Seq<char>,
    m: Seq<char>,
    fname: Seq<char>,
    r: Seq<char>,
    tail: Seq<char>,
)
    ensures
        j + nl + (indent + (pre + m + "::"@ + fname + r)) + tail == (j + nl + indent + pre) + m + "::"@
            + fname + (r + tail),
{
    assert(j + nl + (indent + (pre + m + "::"@ + fname + r)) + tail =~= (j + nl + indent + pre) + m
        + "::"@ + fname + (r + tail));
}

/// `Ok(SqlValue::<v>(` and a text that holds no `::` and does not start
/// with `:` have their only `::` in `SqlValue::<v>(`.
proof fn lemma_result_literal(v: Seq<char>, tail: Seq<char>)
    requires
        is_variant_name(v),
        no_path(tail),
        tail.len() > 0 ==> tail[0] != ':',
    ensures
        only_result_paths("Ok(SqlValue::"@ + v + "("@ + tail, v),
{
    reveal_strlit("Ok(SqlValue::");
    reveal_strlit("SqlValue");
    reveal_strlit("(");
    reveal_strlit("Blob");
    reveal_strlit("Text");
    reveal_strlit("Real");
    reveal_strlit("Integer");
    reveal_strlit("::");
    let a = "Ok(SqlValue::"@;
    let s = a + v + "("@ + tail;
    assert(forall|i: int| 0 <= i < v.len() ==> v[i] != ':');
    if tail.len() > 0 {
        assert(s.last() == tail.last());
    } else {
        assert(s.last() == '(');
    }
    assert forall|p: int| 0 <= p && p + 1 < s.len() && #[trigger] s[p] == ':' && s[p + 1] == ':' implies {
        &&& 8 <= p
        &&& p + 3 + v.len() <= s.len()
        &&& s.subrange(p - 8, p) == "SqlValue"@
        &&& s.subrange(p + 2, p + 3 + v.len()) == v + "("@
    } by {
        if p < 13 {
            assert(s[p] == a[p]);
            if p == 12 {
                assert(s[p + 1] == v[0]);
            }
            assert(p == 11);
            assert(s.subrange(p - 8, p) =~= "SqlValue"@);
            assert(s.subrange(p + 2, p + 3 + v.len()) =~= v + "("@);
        } else if p < 13 + v.len() {
            assert(s[p] == v[p - 13]);
        } else if p == 13 + v.len() {
            assert(s[p] == '(');
        } else {
            let q = p - 14 - v.len();
            assert(s[p] == tail[q]);
            assert(s[p + 1] == tail[q + 1]);
            assert(tail.subrange(q, q + 2) =~= "::"@);
            lemma_contains_at(tail, "::"@, q);
        }
    }
}

/// An arm whose line `ci` calls `m::f` splits around the call into a
/// head and a tail whose every `::` stands in `SqlValue::<v>(`.
#[verifier::rlimit(30)]
proof fn lemma_call_split(
    lines: Seq<Seq<char>>,
    indent: Seq<char>,
    ci: int,
    pre: Seq<char>,
    m: Seq<char>,
    fname: Seq<char>,
    r: Seq<char>,
    v: Seq<char>,
) -> (xz: (Seq<char>, Seq<char>))
    requires
        1 <= ci < lines.len(),
        lines[ci] == pre + m + "::"@ + fname + r,
        forall|k: int| 0 <= k < lines.len() && k != ci ==> only_result_paths(#[trigger] (indent + lines[k]), v),
        only_result_paths(indent, v),
        only_result_paths(pre, v),
        only_result_paths(r, v),
        pre.len() > 0,
        r.len() > 0,
    ensures
        only_result_paths(xz.0, v),
        only_result_paths(xz.1, v),
        xz.0.len() > 0,
        xz.0.last() == pre.last(),
        xz.1.len() > 0,
        xz.1[0] == r[0],
        join_map(lines, indented_line_fn(indent), "\n"@) == xz.0 + m + "::"@ + fname + xz.1,
{
    let f = indented_line_fn(indent);
    let nl = "\n"@;
    reveal_strlit("\n");
    lemma_join_head_tail(lines, f, ci + 1);
    lemma_join_map_step(lines, f, nl, ci);
    let head = lines.take(ci);
    assert forall|k: int| 0 <= k < head.len() implies only_result_paths(#[trigger] f(head[k]), v) by {
        assert(head[k] == lines[k]);
    }
    lemma_paths_join(head, f, v);
    lemma_no_path_literal(nl);
    lemma_no_path_paths(nl, v);
    let x = join_map(head, f, nl) + nl + indent + pre;
    lemma_paths_concat(join_map(head, f, nl), nl, v);
    lemma_paths_concat(join_map(head, f, nl) + nl, indent, v);
    lemma_paths_concat(join_map(head, f, nl) + nl + indent, pre, v);
    let rest = lines.skip(ci + 1);
    let g = after_newline_fn(f);
    assert forall|k: int| 0 <= k < rest.len() implies only_result_paths(#[trigger] g(rest[k]), v) by {
        assert(rest[k] == lines[ci + 1 + k]);
        lemma_paths_concat(nl, indent + lines[ci + 1 + k], v);
        assert(nl + (indent + lines[ci + 1 + k]) =~= nl + f(rest[k]));
    }
    lemma_paths_concat_map(rest, g, v);
    let z = r + join_tail(lines, f, ci + 1);
    lemma_paths_concat(r, join_tail(lines, f, ci + 1), v);
    assert(f(lines[ci]) == indent + (pre + m + "::"@ + fname + r));
    lemma_regroup(join_map(head, f, nl), nl, indent, pre, m, fname, r, join_tail(lines, f, ci + 1));
    assert(x.last() == pre.last());
    assert(z[0] == r[0]);
    (x, z)
}

/// Every arm splits around its call as [`lemma_call_split`] says, with
/// `v` its result variant and a head ending in a space or `(`.
#[verifier::rlimit(40)]
proof fn lemma_arm_split(shape: DispatchShape, sql_name: Seq<char>, indent: Seq<char>) -> (xz: (
    Seq<char>,
    Seq<char>,
))
    requires
        no_path(sql_name),
        no_path(indent),
        no_char(shape_names(shape).0, ':'),
        no_char(shape_names(shape).1, ':'),
    ensures
        only_result_paths(xz.0, result_variant(shape)),
        only_result_paths(xz.1, result_variant(shape)),
        xz.0.len() > 0,
        xz.0.last() == ' ' || xz.0.last() == '(',
        xz.1.len() > 0,
        xz.1[0] == '(',
        arm_body_text(shape, sql_name, indent) == xz.0 + shape_names(shape).0 + "::"@
            + shape_names(shape).1 + xz.1,
{
    let lines = arm_lines(shape, sql_name);
    let (m, fname) = shape_names(shape);
    let v = result_variant(shape);
    reveal_strlit("let wkt = arg_text(&args, 0, \"");
    lemma_no_path_literal("let wkt = arg_text(&args, 0, \""@);
    reveal_strlit("\")?;");
    lemma_no_path_literal("\")?;"@);
    reveal_strlit("let g = ");
    lemma_no_path_literal("let g = "@);
    reveal_strlit("(wkt)");
    lemma_no_path_literal("(wkt)"@);
    reveal_strlit("    .map_err(|e| format!(\"");
    lemma_no_path_literal("    .map_err(|e| format!(\""@);
    reveal_strlit(": {}\", postgis_err_string(e)))?;");
    lemma_no_path_literal(": {}\", postgis_err_string(e)))?;"@);
    reveal_strlit("let g = from_wkb(arg_blob(&args, 0, \"");
    lemma_no_path_literal("let g = from_wkb(arg_blob(&args, 0, \""@);
    reveal_strlit("\")?, \"");
    lemma_no_path_literal("\")?, \""@);
    reveal_strlit("(&g)))");
    lemma_no_path_literal("(&g)))"@);
    reveal_strlit("let s = ");
    lemma_no_path_literal("let s = "@);
    reveal_strlit("(&g)");
    lemma_no_path_literal("(&g)"@);
    reveal_strlit("let r = ");
    lemma_no_path_literal("let r = "@);
    reveal_strlit("let a = from_wkb(arg_blob(&args, 0, \"");
    lemma_no_path_literal("let a = from_wkb(arg_blob(&args, 0, \""@);
    reveal_strlit("let b = from_wkb(arg_blob(&args, 1, \"");
    lemma_no_path_literal("let b = from_wkb(arg_blob(&args, 1, \""@);
    reveal_strlit("(&a, &b)");
    lemma_no_path_literal("(&a, &b)"@);
    reveal_strlit("(&g) as i64))");
    lemma_no_path_literal("(&g) as i64))"@);
    reveal_strlit("let x = arg_f64(&args, 0, \"");
    lemma_no_path_literal("let x = arg_f64(&args, 0, \""@);
    reveal_strlit("let y = arg_f64(&args, 1, \"");
    lemma_no_path_literal("let y = arg_f64(&args, 1, \""@);
    reveal_strlit("(x, y).as_wkb()))");
    lemma_no_path_literal("(x, y).as_wkb()))"@);
    reveal_strlit("\n");
    lemma_no_path_literal("\n"@);
    reveal_strlit("(");
    assert forall|a: Seq<char>, b: Seq<char>| only_result_paths(a, v) && only_result_paths(b, v)
        implies #[trigger] only_result_paths(a + b, v) by {
        lemma_paths_concat(a, b, v);
    }
    assert forall|s: Seq<char>| no_path(s) implies #[trigger] only_result_paths(s, v) by {
        lemma_no_path_paths(s, v);
    }
    assert(only_result_paths(sql_name, v));
    assert(only_result_paths(indent, v));
    assert(only_result_paths(m, v)) by {
        assert(no_path(m)) by {
            lemma_no_path_literal(m);
        }
    }
    assert(only_result_paths(fname, v)) by {
        assert(no_path(fname)) by {
            lemma_no_path_literal(fname);
        }
    }
    assert(only_result_paths("let wkt = arg_text(&args, 0, \""@, v));
    assert(only_result_paths("\")?;"@, v));
    assert(only_result_paths("let g = "@, v));
    assert(only_result_paths("(wkt)"@, v));
    assert(only_result_paths("    .map_err(|e| format!(\""@, v));
    assert(only_result_paths(": {}\", postgis_err_string(e)))?;"@, v));
    assert(only_result_paths("let g = from_wkb(arg_blob(&args, 0, \""@, v));
    assert(only_result_paths("\")?, \""@, v));
    assert(only_result_paths("(&g)))"@, v));
    assert(only_result_paths("let s = "@, v));
    assert(only_result_paths("(&g)"@, v));
    assert(only_result_paths("let r = "@, v));
    assert(only_result_paths("let a = from_wkb(arg_blob(&args, 0, \""@, v));
    assert(only_result_paths("let b = from_wkb(arg_blob(&args, 1, \""@, v));
    assert(only_result_paths("(&a, &b)"@, v));
    assert(only_result_paths("(&g) as i64))"@, v));
    assert(only_result_paths("let x = arg_f64(&args, 0, \""@, v));
    assert(only_result_paths("let y = arg_f64(&args, 1, \""@, v));
    assert(only_result_paths("(x, y).as_wkb()))"@, v));
    assert(only_result_paths("\n"@, v));
    let xz = match shape {
        DispatchShape::TextToGeomResult { .. } => {
            reveal_strlit("Ok(SqlValue::Blob(g.as_wkb()))");
            reveal_strlit("g.as_wkb()))");
            reveal_strlit("Ok(SqlValue::");
            reveal_strlit("Blob");
            reveal_strlit("(");
            lemma_no_path_literal("g.as_wkb()))"@);
            lemma_result_literal("Blob"@, "g.as_wkb()))"@);
            assert("Ok(SqlValue::Blob(g.as_wkb()))"@ =~= "Ok(SqlValue::"@ + "Blob"@ + "("@ + "g.as_wkb()))"@);
            reveal_strlit("Blob");
            assert(only_result_paths(indent + lines[0], "Blob"@));
            assert(only_result_paths(indent + lines[2], "Blob"@));
            assert(only_result_paths(indent + lines[3], "Blob"@));
            let (x, z) = lemma_call_split(lines, indent, 1, "let g = "@, m, fname, "(wkt)"@, "Blob"@);
            (x, z)
        },
        DispatchShape::GeomToString { .. } => {
            reveal_strlit("Ok(SqlValue::Text(");
            reveal_strlit("");
            reveal_strlit("Ok(SqlValue::");
            reveal_strlit("Text");
            reveal_strlit("(");
            lemma_no_path_literal(""@);
            lemma_result_literal("Text"@, ""@);
            assert("Ok(SqlValue::Text("@ =~= "Ok(SqlValue::"@ + "Text"@ + "("@ + ""@);
            reveal_strlit("Text");
            assert(only_result_paths(indent + lines[0], "Text"@));
            let (x, z) = lemma_call_split(lines, indent, 1, "Ok(SqlValue::Text("@, m, fname, "(&g)))"@, "Text"@);
            (x, z)
        },
        DispatchShape::GeomToStringResult { .. } => {
            reveal_strlit("Ok(SqlValue::Text(s))");
            reveal_strlit("s))");
            reveal_strlit("Ok(SqlValue::");
            reveal_strlit("Text");
            reveal_strlit("(");
            lemma_no_path_literal("s))"@);
            lemma_result_literal("Text"@, "s))"@);
            assert("Ok(SqlValue::Text(s))"@ =~= "Ok(SqlValue::"@ + "Text"@ + "("@ + "s))"@);
            reveal_strlit("Text");
            assert(only_result_paths(indent + lines[0], "Text"@));
            assert(only_result_paths(indent + lines[2], "Text"@));
            assert(only_result_paths(indent + lines[3], "Text"@));
            let (x, z) = lemma_call_split(lines, indent, 1, "let s = "@, m, fname, "(&g)"@, "Text"@);
            (x, z)
        },
        DispatchShape::GeomToF64Result { .. } => {
            reveal_strlit("Ok(SqlValue::Real(r))");
            reveal_strlit("r))");
            reveal_strlit("Ok(SqlValue::");
            reveal_strlit("Real");
            reveal_strlit("(");
            lemma_no_path_literal("r))"@);
            lemma_result_literal("Real"@, "r))"@);
            assert("Ok(SqlValue::Real(r))"@ =~= "Ok(SqlValue::"@ + "Real"@ + "("@ + "r))"@);
            reveal_strlit("Real");
            assert(only_result_paths(indent + lines[0], "Real"@));
            assert(only_result_paths(indent + lines[2], "Real"@));
            assert(only_result_paths(indent + lines[3], "Real"@));
            let (x, z) = lemma_call_split(lines, indent, 1, "let r = "@, m, fname, "(&g)"@, "Real"@);
            (x, z)
        },
        DispatchShape::GeomGeomToF64Result { .. } => {
            reveal_strlit("Ok(SqlValue::Real(r))");
            reveal_strlit("r))");
            reveal_strlit("Ok(SqlValue::");
            reveal_strlit("Real");
            reveal_strlit("(");
            lemma_no_path_literal("r))"@);
            lemma_result_literal("Real"@, "r))"@);
            assert("Ok(SqlValue::Real(r))"@ =~= "Ok(SqlValue::"@ + "Real"@ + "("@ + "r))"@);
            reveal_strlit("Real");
            assert(only_result_paths(indent + lines[0], "Real"@));
            assert(only_result_paths(indent + lines[1], "Real"@));
            assert(only_result_paths(indent + lines[3], "Real"@));
            assert(only_result_paths(indent + lines[4], "Real"@));
            let (x, z) = lemma_call_split(lines, indent, 2, "let r = "@, m, fname, "(&a, &b)"@, "Real"@);
            (x, z)
        },
        DispatchShape::GeomToU32 { .. } => {
            reveal_strlit("Ok(SqlValue::Integer(");
            reveal_strlit("");
            reveal_strlit("Ok(SqlValue::");
            reveal_strlit("Integer");
            reveal_strlit("(");
            lemma_no_path_literal(""@);
            lemma_result_literal("Integer"@, ""@);
            assert("Ok(SqlValue::Integer("@ =~= "Ok(SqlValue::"@ + "Integer"@ + "("@ + ""@);
            reveal_strlit("Integer");
            assert(only_result_paths(indent + lines[0], "Integer"@));
            let (x, z) = lemma_call_split(lines, indent, 1, "Ok(SqlValue::Integer("@, m, fname, "(&g) as i64))"@, "Integer"@);
            (x, z)
        },
        DispatchShape::GeomToBool { .. } => {
            reveal_strlit("Ok(SqlValue::Integer(");
            reveal_strlit("");
            reveal_strlit("Ok(SqlValue::");
            reveal_strlit("Integer");
            reveal_strlit("(");
            lemma_no_path_literal(""@);
            lemma_result_literal("Integer"@, ""@);
            assert("Ok(SqlValue::Integer("@ =~= "Ok(SqlValue::"@ + "Integer"@ + "("@ + ""@);
            reveal_strlit("Integer");
            assert(only_result_paths(indent + lines[0], "Integer"@));
            let (x, z) = lemma_call_split(lines, indent, 1, "Ok(SqlValue::Integer("@, m, fname, "(&g) as i64))"@, "Integer"@);
            (x, z)
        },
        DispatchShape::F64F64ToGeom { .. } => {
            reveal_strlit("Ok(SqlValue::Blob(");
            reveal_strlit("");
            reveal_strlit("Ok(SqlValue::");
            reveal_strlit("Blob");
            reveal_strlit("(");
            lemma_no_path_literal(""@);
            lemma_result_literal("Blob"@, ""@);
            assert("Ok(SqlValue::Blob("@ =~= "Ok(SqlValue::"@ + "Blob"@ + "("@ + ""@);
            reveal_strlit("Blob");
            assert(only_result_paths(indent + lines[0], "Blob"@));
            assert(only_result_paths(indent + lines[1], "Blob"@));
            let (x, z) = lemma_call_split(lines, indent, 2, "Ok(SqlValue::Blob("@, m, fname, "(x, y).as_wkb()))"@, "Blob"@);
            (x, z)
        },
        DispatchShape::GeomToGeomResult { .. } => {
            reveal_strlit("Ok(SqlValue::Blob(r.as_wkb()))");
            reveal_strlit("r.as_wkb()))");
            reveal_strlit("Ok(SqlValue::");
            reveal_strlit("Blob");
            reveal_strlit("(");
            lemma_no_path_literal("r.as_wkb()))"@);
            lemma_result_literal("Blob"@, "r.as_wkb()))"@);
            assert("Ok(SqlValue::Blob(r.as_wkb()))"@ =~= "Ok(SqlValue::"@ + "Blob"@ + "("@ + "r.as_wkb()))"@);
            reveal_strlit("Blob");
            assert(only_result_paths(indent + lines[0], "Blob"@));
            assert(only_result_paths(indent + lines[2], "Blob"@));
            assert(only_result_paths(indent + lines[3], "Blob"@));
            let (x, z) = lemma_call_split(lines, indent, 1, "let r = "@, m, fname, "(&g)"@, "Blob"@);
            (x, z)
        },
    };
    assert(arm_body_text(shape, sql_name, indent) == join_map(lines, indented_line_fn(indent), "\n"@));
    xz
}

/// Where the text before a `::` reads `SqlValue`, a name standing right
/// before that `::` is the end of `SqlValue` or ends with it.
proof fn lemma_reads_as_sql_value(h: Seq<char>, m: Seq<char>, k: int)
    requires
        0 <= k,
        k + m.len() <= h.len(),
        8 <= k + m.len(),
        forall|i: int| 0 <= i < m.len() ==> h[k + i] == #[trigger] m[i],
        h.subrange(k + m.len() - 8, k + m.len() as int) == "SqlValue"@,
    ensures
        suffix_related(m, "SqlValue"@),
{
    reveal_strlit("SqlValue");
    let p = k + m.len();
    let sv = "SqlValue"@;
    if m.len() <= 8 {
        assert forall|i: int| 0 <= i < m.len() implies sv.skip(8 - m.len())[i] == m[i] by {
            assert(h.subrange(p - 8, p)[8 - m.len() + i] == h[k + i]);
        }
        assert(sv.skip(8 - m.len()) =~= m);
    } else {
        assert forall|i: int| 0 <= i < 8 implies m.skip(m.len() - 8)[i] == sv[i] by {
            assert(h.subrange(p - 8, p)[i] == h[p - 8 + i]);
            assert(m[m.len() - 8 + i] == h[k + m.len() - 8 + i]);
        }
        assert(m.skip(m.len() - 8) =~= sv);
    }
}

/// In `x + m + "::" + f + z`, where every `::` of `x` and of `z` stands
/// in `SqlValue::<v>(`, `z` opens with `(`, `m` and `f` hold no `:`, and
/// `m` cannot be read as the end of `SqlValue` nor ends with it, the
/// call `m::f(` occurs where `m` starts and nowhere else.
#[verifier::rlimit(40)]
proof fn lemma_unique_call(x: Seq<char>, m: Seq<char>, fname: Seq<char>, z: Seq<char>, v: Seq<char>)
    requires
        only_result_paths(x, v),
        only_result_paths(z, v),
        z.len() > 0,
        z[0] == '(',
        no_char(m, ':'),
        no_char(fname, ':'),
        !suffix_related(m, "SqlValue"@),
    ensures
        occurs_at(x + m + "::"@ + fname + z, m + "::"@ + fname + "("@, x.len() as int),
        forall|k: int| #[trigger] occurs_at(x + m + "::"@ + fname + z, m + "::"@ + fname + "("@, k) ==> k == x.len(),
{
    reveal_strlit("::");
    reveal_strlit("(");
    let h = x + m + "::"@ + fname + z;
    let n = m + "::"@ + fname + "("@;
    let c: int = (x.len() + m.len()) as int;
    let ml: int = m.len() as int;
    assert(h.subrange(x.len() as int, (x.len() + n.len()) as int) =~= n);
    assert forall|k: int| #[trigger] occurs_at(h, n, k) implies k == x.len() by {
        let p = k + ml;
        assert(h.subrange(k, k + n.len())[ml] == h[p]);
        assert(h.subrange(k, k + n.len())[ml + 1] == h[p + 1]);
        assert(n[ml] == ':');
        assert(n[ml + 1] == ':');
        assert forall|i: int| 0 <= i < m.len() implies h[k + i] == #[trigger] m[i] by {
            assert(h.subrange(k, k + n.len())[i] == h[k + i]);
            assert(n[i] == m[i]);
        }
        if p + 1 < x.len() {
            assert(h[p] == x[p]);
            assert(h[p + 1] == x[p + 1]);
            assert(h.subrange(p - 8, p) =~= x.subrange(p - 8, p));
            lemma_reads_as_sql_value(h, m, k);
        } else if p + 1 == x.len() {
            assert(h[p] == x[p]);
            assert(x[x.len() - 1] != ':');
        } else if p < c {
            assert(h[p] == m[p - x.len()]);
        } else if p == c + 1 {
            if fname.len() > 0 {
                assert(h[p + 1] == fname[0]);
            } else {
                assert(h[p + 1] == z[0]);
            }
        } else if c + 1 < p < c + 2 + fname.len() {
            assert(h[p] == fname[p - c - 2]);
        } else if p >= c + 2 + fname.len() {
            let q = p - c - 2 - fname.len();
            assert(h[p] == z[q]);
            assert(h[p + 1] == z[q + 1]);
            assert(h.subrange(p - 8, p) =~= z.subrange(q - 8, q));
            lemma_reads_as_sql_value(h, m, k);
        }
    }
}

/// Two variant names, each followed by `(`, that start at the same place
/// of a text are the same name.
proof fn lemma_same_variant(h: Seq<char>, i: int, w: Seq<char>, v: Seq<char>)
    requires
        is_variant_name(w),
        is_variant_name(v),
        0 <= i,
        i + w.len() + 1 <= h.len(),
        i + v.len() + 1 <= h.len(),
        h.subrange(i, i + w.len() + 1) == w + "("@,
        h.subrange(i, i + v.len() + 1) == v + "("@,
    ensures
        w == v,
{
    reveal_strlit("(");
    reveal_strlit("Blob");
    reveal_strlit("Text");
    reveal_strlit("Real");
    reveal_strlit("Integer");
    if w.len() < v.len() {
        assert(h.subrange(i, i + w.len() + 1)[w.len() as int] == h[i + w.len()]);
        assert(h.subrange(i, i + v.len() + 1)[w.len() as int] == h[i + w.len()]);
        assert(v[w.len() as int] != '(');
    } else if v.len() < w.len() {
        assert(h.subrange(i, i + w.len() + 1)[v.len() as int] == h[i + v.len()]);
        assert(h.subrange(i, i + v.len() + 1)[v.len() as int] == h[i + v.len()]);
        assert(w[v.len() as int] != '(');
    } else {
        assert forall|j: int| 0 <= j < w.len() implies w[j] == v[j] by {
            assert(h.subrange(i, i + w.len() + 1)[j] == h[i + j]);
            assert(h.subrange(i, i + v.len() + 1)[j] == h[i + j]);
        }
        assert(w =~= v);
    }
}

/// In the same split, `SqlValue::<w>(` stands only where `w` is `v`.
#[verifier::rlimit(40)]
proof fn lemma_only_variant(x: Seq<char>, m: Seq<char>, fname: Seq<char>, z: Seq<char>, v: Seq<char>, w: Seq<char>, k: int)
    requires
        only_result_paths(x, v),
        only_result_paths(z, v),
        x.len() > 0,
        x.last() == ' ' || x.last() == '(',
        z.len() > 0,
        z[0] == '(',
        no_char(m, ':'),
        no_char(fname, ':'),
        !suffix_related(m, "SqlValue"@),
        is_variant_name(v),
        is_variant_name(w),
        occurs_at(x + m + "::"@ + fname + z, "SqlValue::"@ + w + "("@, k),
    ensures
        w == v,
{
    reveal_strlit("::");
    reveal_strlit("(");
    reveal_strlit("SqlValue::");
    reveal_strlit("SqlValue");
    let h = x + m + "::"@ + fname + z;
    let n = "SqlValue::"@ + w + "("@;
    let c: int = (x.len() + m.len()) as int;
    let p = k + 8;
    let hw = h.subrange(k, k + n.len());
    assert(hw[8] == h[p]);
    assert(hw[9] == h[p + 1]);
    assert(h.subrange(p - 8, p) =~= "SqlValue"@) by {
        assert forall|i: int| 0 <= i < 8 implies h.subrange(p - 8, p)[i] == "SqlValue"@[i] by {
            assert(hw[i] == h[k + i]);
        }
    }
    assert(h.subrange(p + 2, p + 3 + w.len()) =~= w + "("@) by {
        assert forall|i: int| 0 <= i < w.len() + 1 implies h.subrange(p + 2, p + 3 + w.len())[i] == (w
            + "("@)[i] by {
            assert(hw[10 + i] == h[k + 10 + i]);
        }
    }
    if p + 1 < x.len() {
        assert(h[p] == x[p]);
        assert(h[p + 1] == x[p + 1]);
        assert(h.subrange(p + 2, p + 3 + v.len()) =~= x.subrange(p + 2, p + 3 + v.len()));
        lemma_same_variant(h, p + 2, w, v);
    } else if p + 1 == x.len() {
        assert(h[p] == x[p]);
        assert(x[x.len() - 1] != ':');
    } else if p < c {
        assert(h[p] == m[p - x.len()]);
    } else if p == c {
        if m.len() >= 8 {
            assert forall|i: int| 0 <= i < m.len() implies h[x.len() + i] == #[trigger] m[i] by {}
            lemma_reads_as_sql_value(h, m, x.len() as int);
        } else {
            assert(h[x.len() - 1] == x.last());
            assert(h.subrange(p - 8, p)[8 - m.len() - 1] == h[x.len() - 1]);
        }
    } else if p == c + 1 {
        if fname.len() > 0 {
            assert(h[p + 1] == fname[0]);
        } else {
            assert(h[p + 1] == z[0]);
        }
    } else if c + 1 < p < c + 2 + fname.len() {
        assert(h[p] == fname[p - c - 2]);
    } else {
        let q = p - c - 2 - fname.len();
        assert(h[p] == z[q]);
        assert(h[p + 1] == z[q + 1]);
        assert(h.subrange(p + 2, p + 3 + v.len()) =~= z.subrange(q + 2, q + 3 + v.len()));
        lemma_same_variant(h, p + 2, w, v);
    }
}

/// An emitted match arm calls the imported function of its shape
/// exactly once. This holds when the SQL name and the indent hold no
/// `::` and do not end in `:`, the names the shape imports hold no `:`,
/// and the module name is neither the end of `SqlValue` nor ends with
/// it.
pub proof fn law_arm_calls_once(shape: DispatchShape, sql_name: Seq<char>, indent: Seq<char>)
    requires
        no_path(sql_name),
        no_path(indent),
        no_char(shape_names(shape).0, ':'),
        no_char(shape_names(shape).1, ':'),
        !suffix_related(shape_names(shape).0, "SqlValue"@),
    ensures
        exists|k0: int| {
            &&& occurs_at(arm_body_text(shape, sql_name, indent), import_call(shape), k0)
            &&& forall|k: int| #[trigger] occurs_at(arm_body_text(shape, sql_name, indent), import_call(shape), k) ==> k == k0
        },
{
    let (x, z) = lemma_arm_split(shape, sql_name, indent);
    let (m, fname) = shape_names(shape);
    lemma_unique_call(x, m, fname, z, result_variant(shape));
    let t = arm_body_text(shape, sql_name, indent);
    assert(import_call(shape) == m + "::"@ + fname + "("@);
    assert(occurs_at(t, import_call(shape), x.len() as int));
}

/// An emitted match arm builds the `SqlValue` variant of its shape and
/// no other: for each variant name, the arm holds `SqlValue::<name>(`
/// exactly when the name is its shape's variant. This holds under the
/// conditions of [`law_arm_calls_once`].
#[verifier::rlimit(40)]
pub proof fn law_arm_returns_its_variant(shape: DispatchShape, sql_name: Seq<char>, indent: Seq<char>, w: Seq<char>)
    requires
        is_variant_name(w),
        no_path(sql_name),
        no_path(indent),
        no_char(shape_names(shape).0, ':'),
        no_char(shape_names(shape).1, ':'),
        !suffix_related(shape_names(shape).0, "SqlValue"@),
    ensures
        contains_text(arm_body_text(shape, sql_name, indent), "SqlValue::"@ + w + "("@)
            <==> w == result_variant(shape),
{
    let t = arm_body_text(shape, sql_name, indent);
    let v = result_variant(shape);
    let n = "SqlValue::"@ + w + "("@;
    reveal_strlit("Blob");
    reveal_strlit("Text");
    reveal_strlit("Real");
    reveal_strlit("Integer");
    assert(is_variant_name(v));
    if contains_text(t, n) {
        let (x, z) = lemma_arm_split(shape, sql_name, indent);
        let (m, fname) = shape_names(shape);
        let k = choose|k: int| 0 <= k && k + n.len() <= t.len() && #[trigger] t.subrange(k, k + n.len()) == n;
        lemma_only_variant(x, m, fname, z, v, w, k);
    }
    if w == v {
        let lines = arm_lines(shape, sql_name);
        lemma_last_arm_line(shape, sql_name);
        let q = "Ok(SqlValue::"@ + v + "("@;
        let last = lines[lines.len() - 1];
        reveal_strlit("Ok(SqlValue::");
        reveal_strlit("SqlValue::");
        reveal_strlit("(");
        assert(last.take(q.len() as int) == q);
        assert(last.subrange(3, (3 + n.len()) as int) =~= n) by {
            assert forall|i: int| 0 <= i < n.len() implies last.subrange(3, (3 + n.len()) as int)[i] == n[i] by {
                assert(last.take(q.len() as int)[3 + i] == last[3 + i]);
            }
        }
        lemma_contains_at(last, n, 3);
        lemma_arm_contains(shape, sql_name, indent, lines.len() - 1, n);
    }
}

} // verus!
