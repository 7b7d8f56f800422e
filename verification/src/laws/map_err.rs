//! Laws on how an emitted match arm maps the error of its imported
//! function: a fallible arm does it with one statement that names the
//! SQL function, an infallible arm not at all.

use vstd::prelude::*;

use super::arms::{is_fallible, lemma_join_last_two, map_err_text, occurs_at};
use super::{contains_text, lemma_contains_at, shape_names};
use crate::text::join_map;
use crate::wasm_target::dispatch::{arm_body_text, arm_lines, indented_line_fn, DispatchShape};

verus! {

/// `s` holds no `.map_err`.
pub open spec fn free_of_map_err(s: Seq<char>) -> bool {
    !contains_text(s, ".map_err"@)
}

/// A character that `.map_err` holds after its first one.
pub open spec fn inner_char(c: char) -> bool {
    c == 'm' || c == 'a' || c == 'p' || c == '_' || c == 'e' || c == 'r'
}

/// `s` does not end in a character with which a `.map_err` could begin
/// or go on.
pub open spec fn ends_clean(s: Seq<char>) -> bool {
    s.len() == 0 || (s.last() != '.' && !inner_char(s.last()))
}

/// `s` does not start with a character with which a `.map_err` could
/// go on.
pub open spec fn starts_clean(s: Seq<char>) -> bool {
    s.len() > 0 && !inner_char(s[0])
}

/// A piece without `.map_err` that ends and starts clean.
pub open spec fn clean_piece(p: Seq<char>) -> bool {
    free_of_map_err(p) && ends_clean(p) && starts_clean(p)
}

/// A `.map_err` in `a + b` that neither part holds straddles the
/// boundary: `a` ends with its first `r` characters, `b` starts with
/// the rest.
proof fn lemma_straddle(a: Seq<char>, b: Seq<char>, k: int)
    requires
        free_of_map_err(a),
        free_of_map_err(b),
        occurs_at(a + b, ".map_err"@, k),
    ensures
        a.len() - 8 < k < a.len(),
        a.last() == ".map_err"@[a.len() - k - 1],
        b[0] == ".map_err"@[a.len() - k],
{
    reveal_strlit(".map_err");
    let n = ".map_err"@;
    let h = a + b;
    if k + 8 <= a.len() {
        assert(a.subrange(k, k + 8) =~= h.subrange(k, k + 8));
        lemma_contains_at(a, n, k);
    } else if k >= a.len() {
        assert(b.subrange(k - a.len(), k - a.len() + 8) =~= h.subrange(k, k + 8));
        lemma_contains_at(b, n, k - a.len());
    } else {
        assert(h.subrange(k, k + 8)[a.len() - k - 1] == h[a.len() - 1]);
        assert(h.subrange(k, k + 8)[a.len() - k] == h[a.len() as int]);
    }
}

proof fn lemma_map_err_chars()
    ensures
        forall|r: int| 0 <= r < 7 ==> #[trigger] ".map_err"@[r] == '.' || inner_char(".map_err"@[r]),
        forall|r: int| 1 <= r < 8 ==> inner_char(#[trigger] ".map_err"@[r]),
        ".map_err"@.len() == 8,
{
    reveal_strlit(".map_err");
}

/// Gluing on a text that holds no `.map_err` after one that ends
/// clean, or before one that starts clean, makes no `.map_err`.
proof fn lemma_free_concat(a: Seq<char>, b: Seq<char>)
    requires
        free_of_map_err(a),
        free_of_map_err(b),
        ends_clean(a) || starts_clean(b),
    ensures
        free_of_map_err(a + b),
        b.len() > 0 ==> (ends_clean(a + b) <==> ends_clean(b)),
        a.len() > 0 ==> (starts_clean(a + b) <==> starts_clean(a)),
{
    lemma_map_err_chars();
    if contains_text(a + b, ".map_err"@) {
        let k = choose|k: int| 0 <= k && k + ".map_err"@.len() <= (a + b).len() && #[trigger] (a
            + b).subrange(k, k + ".map_err"@.len()) == ".map_err"@;
        lemma_straddle(a, b, k);
        assert(".map_err"@[a.len() - k - 1] == '.' || inner_char(".map_err"@[a.len() - k - 1]));
        assert(inner_char(".map_err"@[a.len() - k]));
    }
    if b.len() > 0 {
        assert((a + b).last() == b.last());
    }
    if a.len() > 0 {
        assert((a + b)[0] == a[0]);
    }
}

/// The lines of an arm, each without `.map_err` and ending clean,
/// joined by newlines, hold no `.map_err` and end clean.
proof fn lemma_free_join(lines: Seq<Seq<char>>, f: spec_fn(Seq<char>) -> Seq<char>)
    requires
        forall|k: int| 0 <= k < lines.len() ==> free_of_map_err(#[trigger] f(lines[k])) && ends_clean(f(lines[k])),
    ensures
        free_of_map_err(join_map(lines, f, "\n"@)),
        ends_clean(join_map(lines, f, "\n"@)),
    decreases lines.len(),
{
    reveal_strlit("\n");
    lemma_map_err_chars();
    if lines.len() == 0 {
        assert(!contains_text(Seq::<char>::empty(), ".map_err"@));
    } else if lines.len() == 1 {
        assert(free_of_map_err(f(lines[0])) && ends_clean(f(lines[0])));
    } else {
        let rest = lines.drop_last();
        assert forall|k: int| 0 <= k < rest.len() implies free_of_map_err(#[trigger] f(rest[k]))
            && ends_clean(f(rest[k])) by {
            assert(rest[k] == lines[k]);
        }
        lemma_free_join(rest, f);
        let j = join_map(rest, f, "\n"@);
        let nl = "\n"@;
        assert(!contains_text(nl, ".map_err"@));
        lemma_free_concat(j, nl);
        assert(free_of_map_err(f(lines[lines.len() - 1])) && ends_clean(f(lines[lines.len() - 1])));
        lemma_free_concat(j + nl, f(lines.last()));
        if f(lines.last()).len() == 0 {
            assert(j + nl + f(lines.last()) =~= j + nl);
        }
    }
}

/// A literal whose every `.` is followed by something other than `m`,
/// and that does not end in a character of `.map_err`, holds no
/// `.map_err` and ends clean.
proof fn lemma_clean_literal(p: Seq<char>)
    requires
        p.len() > 0,
        p.last() != '.',
        !inner_char(p.last()),
        forall|i: int| 0 <= i < p.len() && #[trigger] p[i] == '.' ==> i + 1 < p.len() && p[i + 1] != 'm',
    ensures
        free_of_map_err(p),
        ends_clean(p),
        !inner_char(p[0]) ==> starts_clean(p),
{
    reveal_strlit(".map_err");
    if contains_text(p, ".map_err"@) {
        let k = choose|k: int| 0 <= k && k + ".map_err"@.len() <= p.len() && #[trigger] p.subrange(k, k + ".map_err"@.len()) == ".map_err"@;
        assert(p.subrange(k, k + 8)[0] == p[k]);
        assert(p.subrange(k, k + 8)[1] == p[k + 1]);
    }
}

/// The literal pieces of the arms hold no `.map_err` and end clean;
/// all but one of them also start clean.
#[verifier::rlimit(40)]
proof fn lemma_arm_pieces()
    ensures
        clean_piece("let wkt = arg_text(&args, 0, \""@),
        clean_piece("\")?;"@),
        clean_piece("let g = "@),
        clean_piece("::"@),
        clean_piece("(wkt)"@),
        clean_piece(": {}\", postgis_err_string(e)))?;"@),
        clean_piece("Ok(SqlValue::Blob(g.as_wkb()))"@),
        clean_piece("let g = from_wkb(arg_blob(&args, 0, \""@),
        clean_piece("\")?, \""@),
        clean_piece("Ok(SqlValue::Text("@),
        clean_piece("(&g)))"@),
        clean_piece("let s = "@),
        clean_piece("(&g)"@),
        clean_piece("Ok(SqlValue::Text(s))"@),
        clean_piece("let r = "@),
        clean_piece("Ok(SqlValue::Real(r))"@),
        clean_piece("let a = from_wkb(arg_blob(&args, 0, \""@),
        clean_piece("let b = from_wkb(arg_blob(&args, 1, \""@),
        clean_piece("(&a, &b)"@),
        clean_piece("Ok(SqlValue::Integer("@),
        clean_piece("(&g) as i64))"@),
        clean_piece("let x = arg_f64(&args, 0, \""@),
        clean_piece("let y = arg_f64(&args, 1, \""@),
        clean_piece("Ok(SqlValue::Blob("@),
        clean_piece("(x, y).as_wkb()))"@),
        clean_piece("Ok(SqlValue::Blob(r.as_wkb()))"@),
        clean_piece("    "@),
        clean_piece("\n"@),
        free_of_map_err("map_err(|e| format!(\""@),
        ends_clean("map_err(|e| format!(\""@),
{
    reveal_strlit("let wkt = arg_text(&args, 0, \"");
    reveal_strlit("\")?;");
    reveal_strlit("let g = ");
    reveal_strlit("::");
    reveal_strlit("(wkt)");
    reveal_strlit(": {}\", postgis_err_string(e)))?;");
    reveal_strlit("Ok(SqlValue::Blob(g.as_wkb()))");
    reveal_strlit("let g = from_wkb(arg_blob(&args, 0, \"");
    reveal_strlit("\")?, \"");
    reveal_strlit("Ok(SqlValue::Text(");
    reveal_strlit("(&g)))");
    reveal_strlit("let s = ");
    reveal_strlit("(&g)");
    reveal_strlit("Ok(SqlValue::Text(s))");
    reveal_strlit("let r = ");
    reveal_strlit("Ok(SqlValue::Real(r))");
    reveal_strlit("let a = from_wkb(arg_blob(&args, 0, \"");
    reveal_strlit("let b = from_wkb(arg_blob(&args, 1, \"");
    reveal_strlit("(&a, &b)");
    reveal_strlit("Ok(SqlValue::Integer(");
    reveal_strlit("(&g) as i64))");
    reveal_strlit("let x = arg_f64(&args, 0, \"");
    reveal_strlit("let y = arg_f64(&args, 1, \"");
    reveal_strlit("Ok(SqlValue::Blob(");
    reveal_strlit("(x, y).as_wkb()))");
    reveal_strlit("Ok(SqlValue::Blob(r.as_wkb()))");
    reveal_strlit("    ");
    reveal_strlit("\n");
    reveal_strlit("map_err(|e| format!(\"");
    reveal_strlit(".");
    lemma_clean_literal("let wkt = arg_text(&args, 0, \""@);
    lemma_clean_literal("\")?;"@);
    lemma_clean_literal("let g = "@);
    lemma_clean_literal("::"@);
    lemma_clean_literal("(wkt)"@);
    lemma_clean_literal(": {}\", postgis_err_string(e)))?;"@);
    lemma_clean_literal("Ok(SqlValue::Blob(g.as_wkb()))"@);
    lemma_clean_literal("let g = from_wkb(arg_blob(&args, 0, \""@);
    lemma_clean_literal("\")?, \""@);
    lemma_clean_literal("Ok(SqlValue::Text("@);
    lemma_clean_literal("(&g)))"@);
    lemma_clean_literal("let s = "@);
    lemma_clean_literal("(&g)"@);
    lemma_clean_literal("Ok(SqlValue::Text(s))"@);
    lemma_clean_literal("let r = "@);
    lemma_clean_literal("Ok(SqlValue::Real(r))"@);
    lemma_clean_literal("let a = from_wkb(arg_blob(&args, 0, \""@);
    lemma_clean_literal("let b = from_wkb(arg_blob(&args, 1, \""@);
    lemma_clean_literal("(&a, &b)"@);
    lemma_clean_literal("Ok(SqlValue::Integer("@);
    lemma_clean_literal("(&g) as i64))"@);
    lemma_clean_literal("let x = arg_f64(&args, 0, \""@);
    lemma_clean_literal("let y = arg_f64(&args, 1, \""@);
    lemma_clean_literal("Ok(SqlValue::Blob("@);
    lemma_clean_literal("(x, y).as_wkb()))"@);
    lemma_clean_literal("Ok(SqlValue::Blob(r.as_wkb()))"@);
    lemma_clean_literal("    "@);
    lemma_clean_literal("\n"@);
    lemma_clean_literal("map_err(|e| format!(\""@);
}

/// The lines of an arm other than the one that maps the error hold no
/// `.map_err` and end clean, when the names hold none.
#[verifier::rlimit(40)]
proof fn lemma_plain_lines(shape: DispatchShape, sql_name: Seq<char>, indent: Seq<char>, skip: int)
    requires
        free_of_map_err(sql_name),
        free_of_map_err(indent),
        free_of_map_err(shape_names(shape).0),
        free_of_map_err(shape_names(shape).1),
        is_fallible(shape) ==> skip == arm_lines(shape, sql_name).len() - 2,
    ensures
        forall|k: int|
            0 <= k < arm_lines(shape, sql_name).len() && k != skip ==> free_of_map_err(
                #[trigger] indented_line_fn(indent)(arm_lines(shape, sql_name)[k]),
            ) && ends_clean(indented_line_fn(indent)(arm_lines(shape, sql_name)[k])),
{
    lemma_arm_pieces();
    assert forall|a: Seq<char>, b: Seq<char>|
        free_of_map_err(a) && free_of_map_err(b) && (ends_clean(a) || starts_clean(b)) implies
        #[trigger] free_of_map_err(a + b) && (b.len() > 0 ==> (ends_clean(a + b) <==> ends_clean(b)))
            && (a.len() > 0 ==> (starts_clean(a + b) <==> starts_clean(a))) by {
        lemma_free_concat(a, b);
    }
    let lines = arm_lines(shape, sql_name);
    assert forall|k: int| 0 <= k < lines.len() && k != skip implies free_of_map_err(
        #[trigger] indented_line_fn(indent)(lines[k]),
    ) && ends_clean(indented_line_fn(indent)(lines[k])) by {
        assert(indented_line_fn(indent)(lines[k]) == indent + lines[k]);
        assert(free_of_map_err(lines[k]) && ends_clean(lines[k]) && starts_clean(lines[k]));
    }
}

/// An arm whose imported function cannot fail maps no error: it holds
/// no `.map_err(`. This holds when none of the indent, the SQL name and
/// the names the shape imports contains `.map_err`.
#[verifier::rlimit(40)]
pub proof fn law_infallible_arm_maps_no_error(shape: DispatchShape, sql_name: Seq<char>, indent: Seq<char>)
    requires
        !is_fallible(shape),
        free_of_map_err(sql_name),
        free_of_map_err(indent),
        free_of_map_err(shape_names(shape).0),
        free_of_map_err(shape_names(shape).1),
    ensures
        !contains_text(arm_body_text(shape, sql_name, indent), ".map_err("@),
{
    let lines = arm_lines(shape, sql_name);
    let f = indented_line_fn(indent);
    let t = arm_body_text(shape, sql_name, indent);
    lemma_plain_lines(shape, sql_name, indent, -1);
    lemma_free_join(lines, f);
    reveal_strlit(".map_err(");
    reveal_strlit(".map_err");
    if contains_text(t, ".map_err("@) {
        let k = choose|k: int| 0 <= k && k + ".map_err("@.len() <= t.len() && #[trigger] t.subrange(k, k + ".map_err("@.len()) == ".map_err("@;
        assert(t.subrange(k, k + 8) =~= ".map_err"@) by {
            assert forall|i: int| 0 <= i < 8 implies t.subrange(k, k + 8)[i] == ".map_err"@[i] by {
                assert(t.subrange(k, k + 9)[i] == t[k + i]);
            }
        }
        lemma_contains_at(t, ".map_err"@, k);
    }
}

/// The error-mapping line of a fallible arm: four spaces, then the
/// statement, which is a `.` and a text without `.map_err`.
proof fn lemma_error_line(shape: DispatchShape, sql_name: Seq<char>)
    requires
        is_fallible(shape),
        free_of_map_err(sql_name),
    ensures
        arm_lines(shape, sql_name)[arm_lines(shape, sql_name).len() - 2] == "    "@ + ("."@ + (
            "map_err(|e| format!(\""@ + sql_name + ": {}\", postgis_err_string(e)))?;"@)),
        map_err_text(sql_name) == "."@ + ("map_err(|e| format!(\""@ + sql_name
            + ": {}\", postgis_err_string(e)))?;"@),
        free_of_map_err("map_err(|e| format!(\""@ + sql_name + ": {}\", postgis_err_string(e)))?;"@),
        ends_clean("map_err(|e| format!(\""@ + sql_name + ": {}\", postgis_err_string(e)))?;"@),
{
    reveal_strlit("    .map_err(|e| format!(\"");
    reveal_strlit(".map_err(|e| format!(\"");
    reveal_strlit("map_err(|e| format!(\"");
    reveal_strlit("    ");
    reveal_strlit(".");
    reveal_strlit(": {}\", postgis_err_string(e)))?;");
    let lines = arm_lines(shape, sql_name);
    let l2 = ": {}\", postgis_err_string(e)))?;"@;
    let lit = "map_err(|e| format!(\""@;
    assert(lines[lines.len() - 2] =~= "    "@ + ("."@ + (lit + sql_name + l2)));
    assert(map_err_text(sql_name) =~= "."@ + (lit + sql_name + l2));
    lemma_clean_literal(lit);
    lemma_clean_literal(l2);
    lemma_free_concat(lit, sql_name);
    lemma_free_concat(lit + sql_name, l2);
}

/// The lines of a fallible arm before its error-mapping line, joined and
/// followed by a newline, the indent and four spaces, hold no
/// `.map_err` and end clean.
#[verifier::rlimit(40)]
proof fn lemma_error_head(shape: DispatchShape, sql_name: Seq<char>, indent: Seq<char>)
    requires
        is_fallible(shape),
        free_of_map_err(sql_name),
        free_of_map_err(indent),
        free_of_map_err(shape_names(shape).0),
        free_of_map_err(shape_names(shape).1),
    ensures
        free_of_map_err(
            join_map(
                arm_lines(shape, sql_name).take(arm_lines(shape, sql_name).len() - 2),
                indented_line_fn(indent),
                "\n"@,
            ) + "\n"@ + indent + "    "@,
        ),
        ends_clean(
            join_map(
                arm_lines(shape, sql_name).take(arm_lines(shape, sql_name).len() - 2),
                indented_line_fn(indent),
                "\n"@,
            ) + "\n"@ + indent + "    "@,
        ),
        free_of_map_err("\n"@ + indented_line_fn(indent)(arm_lines(shape, sql_name).last())),
{
    let lines = arm_lines(shape, sql_name);
    let f = indented_line_fn(indent);
    let nl = "\n"@;
    let i = lines.len() - 2;
    lemma_plain_lines(shape, sql_name, indent, i);
    reveal_strlit("\n");
    reveal_strlit("    ");
    lemma_clean_literal("\n"@);
    lemma_clean_literal("    "@);
    let head = lines.take(i);
    assert forall|k: int| 0 <= k < head.len() implies free_of_map_err(#[trigger] f(head[k])) && ends_clean(f(head[k])) by {
        assert(head[k] == lines[k]);
    }
    lemma_free_join(head, f);
    let j = join_map(head, f, nl);
    lemma_free_concat(j, nl);
    lemma_free_concat(j + nl, indent);
    lemma_free_concat(j + nl + indent, "    "@);
    let last = f(lines[i + 1]);
    assert(free_of_map_err(last) && ends_clean(last));
    lemma_free_concat(nl, last);
}

/// A fallible arm splits at the `.` of its error-mapping statement into
/// a head and a tail that hold no `.map_err`.
#[verifier::rlimit(40)]
proof fn lemma_fallible_split(shape: DispatchShape, sql_name: Seq<char>, indent: Seq<char>) -> (xy: (
    Seq<char>,
    Seq<char>,
))
    requires
        is_fallible(shape),
        free_of_map_err(sql_name),
        free_of_map_err(indent),
        free_of_map_err(shape_names(shape).0),
        free_of_map_err(shape_names(shape).1),
    ensures
        free_of_map_err(xy.0),
        xy.0.len() > 0,
        xy.0.last() == '.',
        free_of_map_err(xy.1),
        arm_body_text(shape, sql_name, indent) == xy.0 + xy.1,
        occurs_at(arm_body_text(shape, sql_name, indent), map_err_text(sql_name), xy.0.len() - 1),
{
    let lines = arm_lines(shape, sql_name);
    let f = indented_line_fn(indent);
    let t = arm_body_text(shape, sql_name, indent);
    let nl = "\n"@;
    let i = lines.len() - 2;
    lemma_error_line(shape, sql_name);
    lemma_error_head(shape, sql_name, indent);
    reveal_strlit(".");
    reveal_strlit(".map_err");
    let rest = "map_err(|e| format!(\""@ + sql_name + ": {}\", postgis_err_string(e)))?;"@;
    let n = map_err_text(sql_name);
    let x = join_map(lines.take(i), f, nl) + nl + indent + "    "@;
    let tail = nl + f(lines[i + 1]);
    assert(lines[i + 1] == lines.last());
    assert(!contains_text("."@, ".map_err"@));
    lemma_free_concat(x, "."@);
    lemma_free_concat(rest, tail);
    let a = x + "."@;
    let y = rest + tail;
    lemma_join_last_two(lines, f, nl);
    assert(t =~= a + y);
    assert(t.subrange(x.len() as int, (x.len() + n.len()) as int) =~= n);
    (a, y)
}

/// An arm whose imported function can fail maps its error with exactly
/// one statement, the one that names the SQL function: that statement
/// occurs, and no other `.map_err(` does. This holds when none of the
/// indent, the SQL name and the names the shape imports contains
/// `.map_err`.
pub proof fn law_fallible_arm_maps_error_once(shape: DispatchShape, sql_name: Seq<char>, indent: Seq<char>)
    requires
        is_fallible(shape),
        free_of_map_err(sql_name),
        free_of_map_err(indent),
        free_of_map_err(shape_names(shape).0),
        free_of_map_err(shape_names(shape).1),
    ensures
        exists|k0: int| {
            &&& occurs_at(arm_body_text(shape, sql_name, indent), map_err_text(sql_name), k0)
            &&& forall|k: int| #[trigger] occurs_at(arm_body_text(shape, sql_name, indent), ".map_err("@, k) ==> k == k0
        },
{
    let t = arm_body_text(shape, sql_name, indent);
    let (a, y) = lemma_fallible_split(shape, sql_name, indent);
    reveal_strlit(".map_err(");
    reveal_strlit(".map_err");
    lemma_map_err_chars();
    assert forall|k: int| #[trigger] occurs_at(t, ".map_err("@, k) implies k == a.len() - 1 by {
        assert(t.subrange(k, k + 8) =~= ".map_err"@) by {
            assert forall|j: int| 0 <= j < 8 implies t.subrange(k, k + 8)[j] == ".map_err"@[j] by {
                assert(t.subrange(k, k + 9)[j] == t[k + j]);
            }
        }
        lemma_straddle(a, y, k);
    }
    assert(occurs_at(t, map_err_text(sql_name), a.len() - 1));
}

} // verus!
