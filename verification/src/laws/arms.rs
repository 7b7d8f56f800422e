//! Laws on the layout of an emitted match arm: how many lines it has,
//! what its last line returns, and which calls it makes.

use vstd::prelude::*;

use super::{
    contains_text, lemma_arm_lines_single, lemma_contains_at, lemma_contains_extend_left,
    lemma_contains_extend_right, lemma_contains_self, lemma_contains_trans, lemma_no_newline_concat, no_newline, shape_names,
    starts_with,
};
use crate::text::join_map;
use crate::wasm_target::dispatch::{arm_body_text, arm_lines, indented_line_fn, DispatchShape};

verus! {

/// Number of newline characters in `t`.
pub open spec fn newline_count(t: Seq<char>) -> nat
    decreases t.len(),
{
    if t.len() == 0 {
        0
    } else {
        newline_count(t.drop_last()) + if t.last() == '\n' {
            1nat
        } else {
            0nat
        }
    }
}

/// The text after the last newline of `t`; all of `t` when it holds none.
pub open spec fn last_line(t: Seq<char>) -> Seq<char>
    decreases t.len(),
{
    if t.len() == 0 {
        t
    } else if t.last() == '\n' {
        seq![]
    } else {
        last_line(t.drop_last()).push(t.last())
    }
}

/// `p` is a suffix of `s`.
pub open spec fn ends_with(s: Seq<char>, p: Seq<char>) -> bool {
    p.len() <= s.len() && s.skip(s.len() - p.len()) == p
}

/// Number of lines of an arm of `shape`.
pub open spec fn arm_line_count(shape: DispatchShape) -> nat {
    match shape {
        DispatchShape::TextToGeomResult { .. } => 4,
        DispatchShape::GeomToString { .. } => 2,
        DispatchShape::GeomToStringResult { .. } => 4,
        DispatchShape::GeomToF64Result { .. } => 4,
        DispatchShape::GeomGeomToF64Result { .. } => 5,
        DispatchShape::GeomToU32 { .. } => 2,
        DispatchShape::GeomToBool { .. } => 2,
        DispatchShape::F64F64ToGeom { .. } => 3,
        DispatchShape::GeomToGeomResult { .. } => 4,
    }
}

/// The `SqlValue` variant an arm of `shape` returns.
pub open spec fn result_variant(shape: DispatchShape) -> Seq<char> {
    match shape {
        DispatchShape::TextToGeomResult { .. } => "Blob"@,
        DispatchShape::GeomToString { .. } => "Text"@,
        DispatchShape::GeomToStringResult { .. } => "Text"@,
        DispatchShape::GeomToF64Result { .. } => "Real"@,
        DispatchShape::GeomGeomToF64Result { .. } => "Real"@,
        DispatchShape::GeomToU32 { .. } => "Integer"@,
        DispatchShape::GeomToBool { .. } => "Integer"@,
        DispatchShape::F64F64ToGeom { .. } => "Blob"@,
        DispatchShape::GeomToGeomResult { .. } => "Blob"@,
    }
}

/// Whether the imported function of `shape` returns a `result`.
pub open spec fn is_fallible(shape: DispatchShape) -> bool {
    match shape {
        DispatchShape::TextToGeomResult { .. } => true,
        DispatchShape::GeomToStringResult { .. } => true,
        DispatchShape::GeomToF64Result { .. } => true,
        DispatchShape::GeomGeomToF64Result { .. } => true,
        DispatchShape::GeomToGeomResult { .. } => true,
        _ => false,
    }
}

/// The call of the imported function of `shape`, up to its opening
/// parenthesis.
pub open spec fn import_call(shape: DispatchShape) -> Seq<char> {
    shape_names(shape).0 + "::"@ + shape_names(shape).1 + "("@
}

/// The statement that turns an error of the imported function into the
/// arm's error, which names the SQL function.
pub open spec fn map_err_text(sql_name: Seq<char>) -> Seq<char> {
    ".map_err(|e| format!(\""@ + sql_name + ": {}\", postgis_err_string(e)))?;"@
}

proof fn lemma_append_no_newline(a: Seq<char>, b: Seq<char>)
    requires
        no_newline(b),
    ensures
        newline_count(a + b) == newline_count(a),
        last_line(a + b) == last_line(a) + b,
    decreases b.len(),
{
    if b.len() == 0 {
        assert(a + b =~= a);
        assert(last_line(a) + b =~= last_line(a));
    } else {
        lemma_append_no_newline(a, b.drop_last());
        assert((a + b).drop_last() =~= a + b.drop_last());
        assert((a + b).last() == b.last());
        assert(b[b.len() - 1] != '\n');
        assert(last_line(a) + b =~= (last_line(a) + b.drop_last()).push(b.last()));
    }
}

proof fn lemma_append_newline(a: Seq<char>)
    ensures
        newline_count(a + "\n"@) == newline_count(a) + 1,
        last_line(a + "\n"@) == Seq::<char>::empty(),
{
    reveal_strlit("\n");
    assert((a + "\n"@).drop_last() =~= a);
    assert((a + "\n"@).last() == '\n');
}

/// Lines without newlines, joined by newlines: one newline fewer than
/// lines, and the last line is the image of the last element.
proof fn lemma_join_layout(lines: Seq<Seq<char>>, f: spec_fn(Seq<char>) -> Seq<char>)
    requires
        lines.len() > 0,
        forall|k: int| 0 <= k < lines.len() ==> no_newline(#[trigger] f(lines[k])),
    ensures
        newline_count(join_map(lines, f, "\n"@)) + 1 == lines.len(),
        last_line(join_map(lines, f, "\n"@)) == f(lines.last()),
    decreases lines.len(),
{
    let nl = "\n"@;
    let lastf = f(lines.last());
    assert(no_newline(f(lines[lines.len() - 1])));
    if lines.len() == 1 {
        let e = Seq::<char>::empty();
        lemma_append_no_newline(e, lastf);
        assert(e + lastf =~= lastf);
        assert(join_map(lines, f, nl) == f(lines[0]));
    } else {
        let rest = lines.drop_last();
        assert forall|k: int| 0 <= k < rest.len() implies no_newline(#[trigger] f(rest[k])) by {
            assert(rest[k] == lines[k]);
        }
        lemma_join_layout(rest, f);
        let t = join_map(rest, f, nl);
        lemma_append_newline(t);
        lemma_append_no_newline(t + nl, lastf);
        assert(Seq::<char>::empty() + lastf =~= lastf);
        assert(join_map(lines, f, nl) == t + nl + lastf);
    }
}

proof fn lemma_starts_with_prefixed(indent: Seq<char>, l: Seq<char>, q: Seq<char>)
    requires
        starts_with(l, q),
    ensures
        starts_with(indent + l, indent + q),
{
    assert((indent + l).take((indent + q).len() as int) =~= indent + q);
}

/// The last line of an arm, without the indent, begins by returning
/// the shape's variant; an integer result is widened with `as i64`.
pub(crate) proof fn lemma_last_arm_line(shape: DispatchShape, sql_name: Seq<char>)
    ensures
        starts_with(arm_lines(shape, sql_name).last(), "Ok(SqlValue::"@ + result_variant(shape) + "("@),
        result_variant(shape) == "Integer"@ ==> ends_with(arm_lines(shape, sql_name).last(), " as i64))"@),
{
    let l = arm_lines(shape, sql_name).last();
    reveal_strlit("Ok(SqlValue::");
    reveal_strlit("(");
    reveal_strlit("Blob");
    reveal_strlit("Text");
    reveal_strlit("Real");
    reveal_strlit("Integer");
    let q = "Ok(SqlValue::"@ + result_variant(shape) + "("@;
    match shape {
        DispatchShape::TextToGeomResult { .. } => {
            reveal_strlit("Ok(SqlValue::Blob(g.as_wkb()))");
            assert(l.take(q.len() as int) =~= q);
        },
        DispatchShape::GeomToString { .. } => {
            reveal_strlit("Ok(SqlValue::Text(");
            assert(l.take(q.len() as int) =~= q);
        },
        DispatchShape::GeomToStringResult { .. } => {
            reveal_strlit("Ok(SqlValue::Text(s))");
            assert(l.take(q.len() as int) =~= q);
        },
        DispatchShape::GeomToF64Result { .. } => {
            reveal_strlit("Ok(SqlValue::Real(r))");
            assert(l.take(q.len() as int) =~= q);
        },
        DispatchShape::GeomGeomToF64Result { .. } => {
            reveal_strlit("Ok(SqlValue::Real(r))");
            assert(l.take(q.len() as int) =~= q);
        },
        DispatchShape::GeomToU32 { .. } => {
            reveal_strlit("Ok(SqlValue::Integer(");
            reveal_strlit("(&g) as i64))");
            reveal_strlit(" as i64))");
            assert(l.take(q.len() as int) =~= q);
            assert(l.skip(l.len() - " as i64))"@.len()) =~= " as i64))"@);
        },
        DispatchShape::GeomToBool { .. } => {
            reveal_strlit("Ok(SqlValue::Integer(");
            reveal_strlit("(&g) as i64))");
            reveal_strlit(" as i64))");
            assert(l.take(q.len() as int) =~= q);
            assert(l.skip(l.len() - " as i64))"@.len()) =~= " as i64))"@);
        },
        DispatchShape::F64F64ToGeom { .. } => {
            reveal_strlit("Ok(SqlValue::Blob(");
            assert(l.take(q.len() as int) =~= q);
        },
        DispatchShape::GeomToGeomResult { .. } => {
            reveal_strlit("Ok(SqlValue::Blob(r.as_wkb()))");
            assert(l.take(q.len() as int) =~= q);
        },
    }
}

/// An emitted match arm has the number of lines its shape fixes, from
/// two to five; it does not end in a newline; and its last line, at the
/// arm indent, returns the shape's `SqlValue` variant, an integer result
/// widened with `as i64`. This holds when the indent, the SQL name and
/// the names the shape imports hold no newline.
pub proof fn law_arm_layout(shape: DispatchShape, sql_name: Seq<char>, indent: Seq<char>)
    requires
        no_newline(sql_name),
        no_newline(indent),
        no_newline(shape_names(shape).0),
        no_newline(shape_names(shape).1),
    ensures
        newline_count(arm_body_text(shape, sql_name, indent)) + 1 == arm_line_count(shape),
        arm_body_text(shape, sql_name, indent).len() > 0,
        arm_body_text(shape, sql_name, indent).last() != '\n',
        starts_with(
            last_line(arm_body_text(shape, sql_name, indent)),
            indent + "Ok(SqlValue::"@ + result_variant(shape) + "("@,
        ),
        result_variant(shape) == "Integer"@ ==> ends_with(
            arm_body_text(shape, sql_name, indent),
            " as i64))"@,
        ),
{
    let lines = arm_lines(shape, sql_name);
    let f = indented_line_fn(indent);
    let t = arm_body_text(shape, sql_name, indent);
    lemma_arm_lines_single(shape, sql_name);
    assert forall|k: int| 0 <= k < lines.len() implies no_newline(#[trigger] f(lines[k])) by {
        lemma_no_newline_concat(indent, lines[k]);
    }
    lemma_join_layout(lines, f);
    lemma_last_arm_line(shape, sql_name);
    let last = indent + lines.last();
    assert(last_line(t) == last);
    lemma_starts_with_prefixed(indent, lines.last(), "Ok(SqlValue::"@ + result_variant(shape) + "("@);
    assert(indent + ("Ok(SqlValue::"@ + result_variant(shape) + "("@)
        =~= indent + "Ok(SqlValue::"@ + result_variant(shape) + "("@);
    // The last line is not empty, so the text ends with its last character.
    reveal_strlit("Ok(SqlValue::");
    assert(last.len() > 0);
    assert(t.len() > 0 && t.last() != '\n' && t.last() == last.last()) by {
        if t.len() == 0 || t.last() == '\n' {
            assert(last_line(t).len() == 0);
        }
    }
    assert(no_newline(last));
    assert(last[last.len() - 1] != '\n');
    if result_variant(shape) == "Integer"@ {
        let sfx = " as i64))"@;
        assert(ends_with(lines.last(), sfx));
        lemma_suffix_of_last_line(t, lines.last(), indent, sfx);
    }
}

/// A text whose last line is `indent + l` ends as `l` does.
proof fn lemma_suffix_of_last_line(t: Seq<char>, l: Seq<char>, indent: Seq<char>, sfx: Seq<char>)
    requires
        last_line(t) == indent + l,
        ends_with(l, sfx),
    ensures
        ends_with(t, sfx),
    decreases t.len(),
{
    if sfx.len() > 0 {
        assert(l.len() > 0);
        assert(t.len() > 0 && t.last() != '\n') by {
            if t.len() == 0 || t.last() == '\n' {
                assert(last_line(t).len() == 0);
            }
        }
        let t2 = t.drop_last();
        let l2 = l.drop_last();
        let lt = last_line(t2).push(t.last());
        assert(last_line(t) == lt);
        assert(lt.drop_last() =~= last_line(t2));
        assert((indent + l).drop_last() =~= indent + l2);
        assert(last_line(t2) == indent + l2);
        assert(lt[lt.len() - 1] == t.last());
        assert((indent + l)[(indent + l).len() - 1] == l.last());
        assert(t.last() == l.last());
        let s2 = sfx.drop_last();
        assert(l2.skip(l2.len() - s2.len()) =~= s2) by {
            assert(l.skip(l.len() - sfx.len()) == sfx);
            assert forall|i: int| 0 <= i < s2.len() implies l2.skip(l2.len() - s2.len())[i] == s2[i] by {
                assert(l.skip(l.len() - sfx.len())[i] == sfx[i]);
            }
        }
        lemma_suffix_of_last_line(t2, l2, indent, s2);
        assert(t.skip(t.len() - sfx.len()) =~= sfx) by {
            assert(t2.skip(t2.len() - s2.len()) == s2);
            assert(l.skip(l.len() - sfx.len())[sfx.len() - 1] == sfx[sfx.len() - 1]);
            assert forall|i: int| 0 <= i < sfx.len() implies t.skip(t.len() - sfx.len())[i] == sfx[i] by {
                if i < sfx.len() - 1 {
                    assert(t2.skip(t2.len() - s2.len())[i] == s2[i]);
                }
            }
        }
    } else {
        assert(t.skip(t.len() - sfx.len()) =~= sfx);
    }
}

/// Every joined element's image occurs in the joined text.
proof fn lemma_join_contains<T>(s: Seq<T>, f: spec_fn(T) -> Seq<char>, sep: Seq<char>, i: int)
    requires
        0 <= i < s.len(),
    ensures
        contains_text(join_map(s, f, sep), f(s[i])),
    decreases s.len(),
{
    if s.len() == 1 {
        lemma_contains_self(f(s[0]));
    } else {
        let rest = s.drop_last();
        let head = join_map(rest, f, sep);
        assert(join_map(s, f, sep) == head + sep + f(s.last()));
        if i < s.len() - 1 {
            lemma_join_contains(rest, f, sep, i);
            assert(rest[i] == s[i]);
            lemma_contains_extend_right(head, sep, f(s[i]));
            lemma_contains_extend_right(head + sep, f(s.last()), f(s[i]));
        } else {
            lemma_contains_self(f(s.last()));
            lemma_contains_extend_left(head + sep, f(s.last()), f(s.last()));
        }
    }
}

/// What line `i` of an arm contains, the arm contains.
pub(crate) proof fn lemma_arm_contains(shape: DispatchShape, sql_name: Seq<char>, indent: Seq<char>, i: int, n: Seq<char>)
    requires
        0 <= i < arm_lines(shape, sql_name).len(),
        contains_text(arm_lines(shape, sql_name)[i], n),
    ensures
        contains_text(arm_body_text(shape, sql_name, indent), n),
{
    let lines = arm_lines(shape, sql_name);
    let f = indented_line_fn(indent);
    lemma_join_contains(lines, f, "\n"@, i);
    lemma_contains_extend_left(indent, lines[i], n);
    lemma_contains_trans(arm_body_text(shape, sql_name, indent), f(lines[i]), n);
}

/// A line that calls `m::f` with arguments contains the call up to its
/// opening parenthesis.
proof fn lemma_call_in_line(p: Seq<char>, m: Seq<char>, f: Seq<char>, rest: Seq<char>)
    requires
        rest.len() > 0,
        rest[0] == '(',
    ensures
        contains_text(p + m + "::"@ + f + rest, m + "::"@ + f + "("@),
{
    reveal_strlit("(");
    let hay = p + m + "::"@ + f + rest;
    let n = m + "::"@ + f + "("@;
    assert(hay.subrange(p.len() as int, (p.len() + n.len()) as int) =~= n);
    lemma_contains_at(hay, n, p.len() as int);
}

/// The statement that maps the error, as indented in its line, contains
/// the statement itself.
pub(crate) proof fn lemma_map_err_in_line(sql_name: Seq<char>)
    ensures
        contains_text(
            "    .map_err(|e| format!(\""@ + sql_name + ": {}\", postgis_err_string(e)))?;"@,
            map_err_text(sql_name),
        ),
{
    reveal_strlit("    .map_err(|e| format!(\"");
    reveal_strlit(".map_err(|e| format!(\"");
    let hay = "    .map_err(|e| format!(\""@ + sql_name + ": {}\", postgis_err_string(e)))?;"@;
    let n = map_err_text(sql_name);
    assert(hay.subrange(4, (4 + n.len()) as int) =~= n);
    lemma_contains_at(hay, n, 4);
}

/// An emitted match arm calls the imported function of its shape, and
/// an arm whose imported function returns a `result` maps its error
/// with a statement that names the SQL function.
pub proof fn law_arm_calls(shape: DispatchShape, sql_name: Seq<char>, indent: Seq<char>)
    ensures
        contains_text(arm_body_text(shape, sql_name, indent), import_call(shape)),
        is_fallible(shape) ==> contains_text(
            arm_body_text(shape, sql_name, indent),
            map_err_text(sql_name),
        ),
{
    let lines = arm_lines(shape, sql_name);
    let (m, f) = shape_names(shape);
    match shape {
        DispatchShape::TextToGeomResult { .. } => {
            reveal_strlit("(wkt)");
            lemma_call_in_line("let g = "@, m, f, "(wkt)"@);
            lemma_arm_contains(shape, sql_name, indent, 1, import_call(shape));
            lemma_map_err_in_line(sql_name);
            lemma_arm_contains(shape, sql_name, indent, 2, map_err_text(sql_name));
        },
        DispatchShape::GeomToString { .. } => {
            reveal_strlit("(&g)))");
            lemma_call_in_line("Ok(SqlValue::Text("@, m, f, "(&g)))"@);
            lemma_arm_contains(shape, sql_name, indent, 1, import_call(shape));
        },
        DispatchShape::GeomToStringResult { .. } => {
            reveal_strlit("(&g)");
            lemma_call_in_line("let s = "@, m, f, "(&g)"@);
            lemma_arm_contains(shape, sql_name, indent, 1, import_call(shape));
            lemma_map_err_in_line(sql_name);
            lemma_arm_contains(shape, sql_name, indent, 2, map_err_text(sql_name));
        },
        DispatchShape::GeomToF64Result { .. } => {
            reveal_strlit("(&g)");
            lemma_call_in_line("let r = "@, m, f, "(&g)"@);
            lemma_arm_contains(shape, sql_name, indent, 1, import_call(shape));
            lemma_map_err_in_line(sql_name);
            lemma_arm_contains(shape, sql_name, indent, 2, map_err_text(sql_name));
        },
        DispatchShape::GeomGeomToF64Result { .. } => {
            reveal_strlit("(&a, &b)");
            lemma_call_in_line("let r = "@, m, f, "(&a, &b)"@);
            lemma_arm_contains(shape, sql_name, indent, 2, import_call(shape));
            lemma_map_err_in_line(sql_name);
            lemma_arm_contains(shape, sql_name, indent, 3, map_err_text(sql_name));
        },
        DispatchShape::GeomToU32 { .. } => {
            reveal_strlit("(&g) as i64))");
            lemma_call_in_line("Ok(SqlValue::Integer("@, m, f, "(&g) as i64))"@);
            lemma_arm_contains(shape, sql_name, indent, 1, import_call(shape));
        },
        DispatchShape::GeomToBool { .. } => {
            reveal_strlit("(&g) as i64))");
            lemma_call_in_line("Ok(SqlValue::Integer("@, m, f, "(&g) as i64))"@);
            lemma_arm_contains(shape, sql_name, indent, 1, import_call(shape));
        },
        DispatchShape::F64F64ToGeom { .. } => {
            reveal_strlit("(x, y).as_wkb()))");
            lemma_call_in_line("Ok(SqlValue::Blob("@, m, f, "(x, y).as_wkb()))"@);
            lemma_arm_contains(shape, sql_name, indent, 2, import_call(shape));
        },
        DispatchShape::GeomToGeomResult { .. } => {
            reveal_strlit("(&g)");
            lemma_call_in_line("let r = "@, m, f, "(&g)"@);
            lemma_arm_contains(shape, sql_name, indent, 1, import_call(shape));
            lemma_map_err_in_line(sql_name);
            lemma_arm_contains(shape, sql_name, indent, 2, map_err_text(sql_name));
        },
    }
}

/// `s` holds no `c`.
pub open spec fn no_char(s: Seq<char>, c: char) -> bool {
    forall|p: int| 0 <= p < s.len() ==> #[trigger] s[p] != c
}

/// `needle` occurs in `hay` at `k`.
pub open spec fn occurs_at(hay: Seq<char>, needle: Seq<char>, k: int) -> bool {
    0 <= k && k + needle.len() <= hay.len() && hay.subrange(k, k + needle.len()) == needle
}

/// The last two lines of a join, split off.
pub(crate) proof fn lemma_join_last_two<T>(s: Seq<T>, f: spec_fn(T) -> Seq<char>, sep: Seq<char>)
    requires
        s.len() >= 3,
    ensures
        join_map(s, f, sep) == join_map(s.take(s.len() - 2), f, sep) + sep + f(s[s.len() - 2]) + sep
            + f(s[s.len() - 1]),
{
    let d = s.drop_last();
    assert(d.drop_last() =~= s.take(s.len() - 2));
    assert(d.last() == s[s.len() - 2]);
    assert(join_map(s, f, sep) == join_map(d, f, sep) + sep + f(s.last()));
    assert(join_map(d, f, sep) == join_map(d.drop_last(), f, sep) + sep + f(d.last()));
}

} // verus!
