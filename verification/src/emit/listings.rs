//! Emitters for the listing files: column types, operators, casts,
//! preprocessor patterns, system catalogs and spatial indexes. Each
//! lists what the plan records as comments around fixed text.

use vstd::prelude::*;
use vstd::string::StrSliceExecFns;

use super::generated_header;
use super::templates::{
    CASTS_HEAD, GENERATED_HEADER, OPERATORS_HEAD, PREPROCESSORS_HEAD, SPATIAL_INDEXES_HEAD,
    SPATIAL_INDEXES_TAIL, SYSTEM_CATALOG_HEAD, SYSTEM_CATALOG_TAIL, TYPES_HEAD, TYPES_TAIL,
};
use crate::plan::{
    BridgePlan, CastRewriteInfo, CatalogColumnInfo, ColumnTypeInfo, ExtensionPlan, OperatorInfo,
    PreprocessorPatternInfo, SpatialIndexInfo, SystemCatalogTableInfo,
};
use crate::text::{
    concat_map, int_decimal, join_map, lemma_concat_map_step, lemma_join_map_congruent,
    lemma_join_map_step, pad_left, pad_right, push_i64, push_spaces, str_debug, str_debug_text,
};

verus! {

/// The `{:?}` rendering of a list of strings: `[`, the quoted
/// strings separated by `, `, `]`.
pub open spec fn debug_list(v: Seq<String>) -> Seq<char> {
    "["@ + join_map(v, debug_item_fn(), ", "@) + "]"@
}

/// The `{:?}` rendering of one string of a list.
pub open spec fn debug_item_fn() -> spec_fn(String) -> Seq<char> {
    |x: String| str_debug_text(x@)
}

/// The `{:?}` rendering of an optional integer.
pub open spec fn debug_option(o: Option<i64>) -> Seq<char> {
    match o {
        Some(v) => "Some("@ + int_decimal(v as int) + ")"@,
        None => "None"@,
    }
}

/// A string taken as its text.
pub open spec fn text_of_fn() -> spec_fn(String) -> Seq<char> {
    |x: String| x@
}

/// `[`, the items separated by `, `, `]`.
pub open spec fn bracket_text(items: Seq<String>) -> Seq<char> {
    "["@ + join_map(items, text_of_fn(), ", "@) + "]"@
}

/// Encloses already rendered items in brackets: `[`, the items
/// separated by `, `, then `]`.
pub fn bracket_list(items: &Vec<String>) -> (r: String)
    ensures
        r@ == bracket_text(items@),
{
    let mut t = String::from_str("[");
    let ghost base = t@;
    let mut j: usize = 0;
    assert(base + join_map(items@.take(0), text_of_fn(), ", "@) =~= base);
    while j < items.len()
        invariant
            j <= items.len(),
            t@ == base + join_map(items@.take(j as int), text_of_fn(), ", "@),
        decreases items.len() - j,
    {
        if j > 0 {
            t.append(", ");
        }
        t.append(items[j].as_str());
        proof {
            lemma_join_map_step(items@, text_of_fn(), ", "@, j as int);
            assert(t@ =~= base + join_map(items@.take(j + 1), text_of_fn(), ", "@));
        }
        j = j + 1;
    }
    assert(items@.take(items@.len() as int) =~= items@);
    t.append("]");
    t
}

fn push_debug_list(s: &mut String, v: &Vec<String>)
    ensures
        final(s)@ == old(s)@ + debug_list(v@),
{
    let mut rendered: Vec<String> = Vec::new();
    let mut j: usize = 0;
    while j < v.len()
        invariant
            j <= v.len(),
            rendered@.len() == j,
            forall|i: int| 0 <= i < j ==> (#[trigger] rendered@[i])@ == str_debug_text(v@[i]@),
        decreases v.len() - j,
    {
        let d = str_debug(v[j].as_str());
        rendered.push(d);
        j = j + 1;
    }
    let t = bracket_list(&rendered);
    proof {
        assert forall|i: int| 0 <= i < rendered@.len() implies text_of_fn()(#[trigger] rendered@[i])
            == debug_item_fn()(v@[i]) by {}
        lemma_join_map_congruent(rendered@, text_of_fn(), v@, debug_item_fn(), ", "@);
    }
    s.append(t.as_str());
}

fn push_debug_option(s: &mut String, o: Option<i64>)
    ensures
        final(s)@ == old(s)@ + debug_option(o),
{
    match o {
        Some(v) => {
            let mut t = String::from_str("Some(");
            push_i64(&mut t, v);
            t.append(")");
            s.append(t.as_str());
        },
        None => {
            s.append("None");
        },
    }
}

/// Appends `t` right-aligned in a field of `width` characters.
fn push_pad_left(s: &mut String, t: &str, width: usize)
    ensures
        final(s)@ == old(s)@ + pad_left(t@, width as nat),
{
    let n = t.unicode_len();
    if n < width {
        let mut u = String::new();
        push_spaces(&mut u, width - n);
        u.append(t);
        assert(u@ =~= pad_left(t@, width as nat));
        s.append(u.as_str());
    } else {
        s.append(t);
    }
}

/// Appends `t` left-aligned in a field of `width` characters.
fn push_pad_right(s: &mut String, t: &str, width: usize)
    ensures
        final(s)@ == old(s)@ + pad_right(t@, width as nat),
{
    let n = t.unicode_len();
    let mut u = String::from_str(t);
    if n < width {
        push_spaces(&mut u, width - n);
    }
    s.append(u.as_str());
}

fn decimal_i64(n: i64) -> (r: String)
    ensures
        r@ == int_decimal(n as int),
{
    let mut t = String::new();
    push_i64(&mut t, n);
    assert(t@ =~= int_decimal(n as int));
    t
}

/// The listing line of one column type: id right-aligned to 5, name
/// left-aligned to 24, size right-aligned to 4, then both cast lists.
pub open spec fn column_type_line(ct: ColumnTypeInfo) -> Seq<char> {
    "// type_id="@ + pad_left(int_decimal(ct.type_id as int), 5) + " name="@
        + pad_right(ct.name@, 24) + " size="@ + pad_left(int_decimal(ct.storage_size as int), 4)
        + "  cast_from="@ + debug_list(ct.cast_from@) + "  cast_to="@ + debug_list(ct.cast_to@)
        + "\n"@
}

/// [`column_type_line`] as a function value.
pub open spec fn column_type_line_fn() -> spec_fn(ColumnTypeInfo) -> Seq<char> {
    |ct: ColumnTypeInfo| column_type_line(ct)
}

/// The column-type lines of an extension, in order.
pub open spec fn extension_column_types_fn() -> spec_fn(ExtensionPlan) -> Seq<char> {
    |e: ExtensionPlan| concat_map(e.column_types@, column_type_line_fn())
}

/// `src/types.rs` of the generated crate: the fixed opening, one
/// line per column type of every extension, the closing note.
pub open spec fn types_rs_text(plan: BridgePlan) -> Seq<char> {
    GENERATED_HEADER@ + TYPES_HEAD@ + concat_map(plan.extensions@, extension_column_types_fn())
        + TYPES_TAIL@
}

fn push_extension_column_types(s: &mut String, e: &ExtensionPlan)
    ensures
        final(s)@ == old(s)@ + concat_map(e.column_types@, column_type_line_fn()),
{
    let ghost start = s@;
    let mut j: usize = 0;
    assert(start + concat_map(e.column_types@.take(0), column_type_line_fn()) =~= start);
    while j < e.column_types.len()
        invariant
            j <= e.column_types.len(),
            s@ == start + concat_map(e.column_types@.take(j as int), column_type_line_fn()),
        decreases e.column_types.len() - j,
    {
        let x = &e.column_types[j];
        let mut u = String::from_str("// type_id=");
        let id = decimal_i64(x.type_id);
        push_pad_left(&mut u, id.as_str(), 5);
        u.append(" name=");
        push_pad_right(&mut u, x.name.as_str(), 24);
        u.append(" size=");
        let size = decimal_i64(x.storage_size);
        push_pad_left(&mut u, size.as_str(), 4);
        u.append("  cast_from=");
        push_debug_list(&mut u, &x.cast_from);
        u.append("  cast_to=");
        push_debug_list(&mut u, &x.cast_to);
        u.append("\n");
        s.append(u.as_str());
        proof {
            lemma_concat_map_step(e.column_types@, column_type_line_fn(), j as int);
            assert(s@ =~= start + concat_map(e.column_types@.take(j + 1), column_type_line_fn()));
        }
        j = j + 1;
    }
    assert(e.column_types@.take(e.column_types@.len() as int) =~= e.column_types@);
}

/// Custom column types file: one comment line per type.
pub fn types_rs(plan: &BridgePlan) -> (r: String)
    ensures
        r@ == types_rs_text(*plan),
{
    let mut s = generated_header();
    s.append(TYPES_HEAD);
    let ghost start = s@;
    let exts = &plan.extensions;
    let mut i: usize = 0;
    assert(start + concat_map(exts@.take(0), extension_column_types_fn()) =~= start);
    while i < exts.len()
        invariant
            i <= exts.len(),
            s@ == start + concat_map(exts@.take(i as int), extension_column_types_fn()),
        decreases exts.len() - i,
    {
        push_extension_column_types(&mut s, &exts[i]);
        proof {
            lemma_concat_map_step(exts@, extension_column_types_fn(), i as int);
            assert(s@ =~= start + concat_map(exts@.take(i + 1), extension_column_types_fn()));
        }
        i = i + 1;
    }
    assert(exts@.take(exts@.len() as int) =~= exts@);
    s.append(TYPES_TAIL);
    s
}

/// The listing line of one operator.
pub open spec fn operator_line(op: OperatorInfo) -> Seq<char> {
    "// `"@ + op.symbol@ + "` (lhs="@ + debug_option(op.lhs_type_id) + ", rhs="@
        + debug_option(op.rhs_type_id) + ")  →  "@ + op.function_name@ + "\n"@
}

/// [`operator_line`] as a function value.
pub open spec fn operator_line_fn() -> spec_fn(OperatorInfo) -> Seq<char> {
    |op: OperatorInfo| operator_line(op)
}

/// The heading line of an extension in the operator, cast and
/// preprocessor listings.
pub open spec fn extension_heading(e: ExtensionPlan) -> Seq<char> {
    "// === extension: "@ + e.name@ + " ===\n"@
}

/// The operator section of an extension: heading, then its lines.
pub open spec fn extension_operators_fn() -> spec_fn(ExtensionPlan) -> Seq<char> {
    |e: ExtensionPlan| extension_heading(e) + concat_map(e.operators@, operator_line_fn())
}

/// `src/operators.rs` of the generated crate: the fixed opening,
/// then per extension a heading and one line per operator.
pub open spec fn operators_rs_text(plan: BridgePlan) -> Seq<char> {
    GENERATED_HEADER@ + OPERATORS_HEAD@ + concat_map(plan.extensions@, extension_operators_fn())
}

fn push_extension_heading(s: &mut String, e: &ExtensionPlan)
    ensures
        final(s)@ == old(s)@ + extension_heading(*e),
{
    let mut u = String::from_str("// === extension: ");
    u.append(e.name.as_str());
    u.append(" ===\n");
    s.append(u.as_str());
}

fn push_operator_lines(s: &mut String, e: &ExtensionPlan)
    ensures
        final(s)@ == old(s)@ + concat_map(e.operators@, operator_line_fn()),
{
    let ghost start = s@;
    let mut j: usize = 0;
    assert(start + concat_map(e.operators@.take(0), operator_line_fn()) =~= start);
    while j < e.operators.len()
        invariant
            j <= e.operators.len(),
            s@ == start + concat_map(e.operators@.take(j as int), operator_line_fn()),
        decreases e.operators.len() - j,
    {
        let x = &e.operators[j];
        let mut u = String::from_str("// `");
        u.append(x.symbol.as_str());
        u.append("` (lhs=");
        push_debug_option(&mut u, x.lhs_type_id);
        u.append(", rhs=");
        push_debug_option(&mut u, x.rhs_type_id);
        u.append(")  →  ");
        u.append(x.function_name.as_str());
        u.append("\n");
        s.append(u.as_str());
        proof {
            lemma_concat_map_step(e.operators@, operator_line_fn(), j as int);
            assert(s@ =~= start + concat_map(e.operators@.take(j + 1), operator_line_fn()));
        }
        j = j + 1;
    }
    assert(e.operators@.take(e.operators@.len() as int) =~= e.operators@);
}

/// The operator section of an extension: heading, then its lines.
pub open spec fn extension_operators(e: ExtensionPlan) -> Seq<char> {
    extension_operators_fn()(e)
}

fn push_extension_operators(s: &mut String, e: &ExtensionPlan)
    ensures
        final(s)@ == old(s)@ + extension_operators(*e),
{
    let ghost start = s@;
    push_extension_heading(s, e);
    push_operator_lines(s, e);
    assert(s@ =~= start + extension_operators(*e));
}

/// Operator handling file: one comment line per operator.
pub fn operators_rs(plan: &BridgePlan) -> (r: String)
    ensures
        r@ == operators_rs_text(*plan),
{
    let mut s = generated_header();
    s.append(OPERATORS_HEAD);
    let ghost start = s@;
    let exts = &plan.extensions;
    let mut i: usize = 0;
    assert(start + concat_map(exts@.take(0), extension_operators_fn()) =~= start);
    while i < exts.len()
        invariant
            i <= exts.len(),
            s@ == start + concat_map(exts@.take(i as int), extension_operators_fn()),
        decreases exts.len() - i,
    {
        push_extension_operators(&mut s, &exts[i]);
        proof {
            lemma_concat_map_step(exts@, extension_operators_fn(), i as int);
            assert(s@ =~= start + concat_map(exts@.take(i + 1), extension_operators_fn()));
        }
        i = i + 1;
    }
    assert(exts@.take(exts@.len() as int) =~= exts@);
    s
}

/// The listing line of one cast rewrite.
pub open spec fn cast_line(c: CastRewriteInfo) -> Seq<char> {
    "// CAST(<"@ + c.source_kind@ + "> AS "@ + c.target_type@ + ") → "@ + c.function_name@
        + " (hint: "@ + c.source_fn_hint@ + ")\n"@
}

/// [`cast_line`] as a function value.
pub open spec fn cast_line_fn() -> spec_fn(CastRewriteInfo) -> Seq<char> {
    |c: CastRewriteInfo| cast_line(c)
}

/// The cast section of an extension: heading, then its lines.
pub open spec fn extension_casts_fn() -> spec_fn(ExtensionPlan) -> Seq<char> {
    |e: ExtensionPlan| extension_heading(e) + concat_map(e.cast_rewrites@, cast_line_fn())
}

/// The cast section of an extension: heading, then its lines.
pub open spec fn extension_casts(e: ExtensionPlan) -> Seq<char> {
    extension_casts_fn()(e)
}

/// `src/casts.rs` of the generated crate: the fixed opening, then
/// per extension a heading and one line per cast rewrite.
pub open spec fn casts_rs_text(plan: BridgePlan) -> Seq<char> {
    GENERATED_HEADER@ + CASTS_HEAD@ + concat_map(plan.extensions@, extension_casts_fn())
}

fn push_cast_lines(s: &mut String, e: &ExtensionPlan)
    ensures
        final(s)@ == old(s)@ + concat_map(e.cast_rewrites@, cast_line_fn()),
{
    let ghost start = s@;
    let mut j: usize = 0;
    assert(start + concat_map(e.cast_rewrites@.take(0), cast_line_fn()) =~= start);
    while j < e.cast_rewrites.len()
        invariant
            j <= e.cast_rewrites.len(),
            s@ == start + concat_map(e.cast_rewrites@.take(j as int), cast_line_fn()),
        decreases e.cast_rewrites.len() - j,
    {
        let x = &e.cast_rewrites[j];
        let mut u = String::from_str("// CAST(<");
        u.append(x.source_kind.as_str());
        u.append("> AS ");
        u.append(x.target_type.as_str());
        u.append(") → ");
        u.append(x.function_name.as_str());
        u.append(" (hint: ");
        u.append(x.source_fn_hint.as_str());
        u.append(")\n");
        s.append(u.as_str());
        proof {
            lemma_concat_map_step(e.cast_rewrites@, cast_line_fn(), j as int);
            assert(s@ =~= start + concat_map(e.cast_rewrites@.take(j + 1), cast_line_fn()));
        }
        j = j + 1;
    }
    assert(e.cast_rewrites@.take(e.cast_rewrites@.len() as int) =~= e.cast_rewrites@);
}

fn push_extension_casts(s: &mut String, e: &ExtensionPlan)
    ensures
        final(s)@ == old(s)@ + extension_casts(*e),
{
    let ghost start = s@;
    push_extension_heading(s, e);
    push_cast_lines(s, e);
    assert(s@ =~= start + extension_casts(*e));
}

/// CAST rewrites file: one comment line per rewrite.
pub fn casts_rs(plan: &BridgePlan) -> (r: String)
    ensures
        r@ == casts_rs_text(*plan),
{
    let mut s = generated_header();
    s.append(CASTS_HEAD);
    let ghost start = s@;
    let exts = &plan.extensions;
    let mut i: usize = 0;
    assert(start + concat_map(exts@.take(0), extension_casts_fn()) =~= start);
    while i < exts.len()
        invariant
            i <= exts.len(),
            s@ == start + concat_map(exts@.take(i as int), extension_casts_fn()),
        decreases exts.len() - i,
    {
        push_extension_casts(&mut s, &exts[i]);
        proof {
            lemma_concat_map_step(exts@, extension_casts_fn(), i as int);
            assert(s@ =~= start + concat_map(exts@.take(i + 1), extension_casts_fn()));
        }
        i = i + 1;
    }
    assert(exts@.take(exts@.len() as int) =~= exts@);
    s
}

/// The listing line of one preprocessor pattern.
pub open spec fn preprocessor_line(p: PreprocessorPatternInfo) -> Seq<char> {
    "// token `"@ + p.op_token@ + "` → "@ + p.function_name@ + "\n"@
}

/// [`preprocessor_line`] as a function value.
pub open spec fn preprocessor_line_fn() -> spec_fn(PreprocessorPatternInfo) -> Seq<char> {
    |p: PreprocessorPatternInfo| preprocessor_line(p)
}

/// The preprocessor section of an extension: heading, then its lines.
pub open spec fn extension_preprocessors_fn() -> spec_fn(ExtensionPlan) -> Seq<char> {
    |e: ExtensionPlan| extension_heading(e) + concat_map(e.preprocessor_patterns@, preprocessor_line_fn())
}

/// The preprocessor section of an extension: heading, then its lines.
pub open spec fn extension_preprocessors(e: ExtensionPlan) -> Seq<char> {
    extension_preprocessors_fn()(e)
}

/// `src/preprocessors.rs` of the generated crate: the fixed opening,
/// then per extension a heading and one line per pattern.
pub open spec fn preprocessors_rs_text(plan: BridgePlan) -> Seq<char> {
    GENERATED_HEADER@ + PREPROCESSORS_HEAD@ + concat_map(plan.extensions@, extension_preprocessors_fn())
}

fn push_preprocessor_lines(s: &mut String, e: &ExtensionPlan)
    ensures
        final(s)@ == old(s)@ + concat_map(e.preprocessor_patterns@, preprocessor_line_fn()),
{
    let ghost start = s@;
    let mut j: usize = 0;
    assert(start + concat_map(e.preprocessor_patterns@.take(0), preprocessor_line_fn()) =~= start);
    while j < e.preprocessor_patterns.len()
        invariant
            j <= e.preprocessor_patterns.len(),
            s@ == start + concat_map(e.preprocessor_patterns@.take(j as int), preprocessor_line_fn()),
        decreases e.preprocessor_patterns.len() - j,
    {
        let x = &e.preprocessor_patterns[j];
        let mut u = String::from_str("// token `");
        u.append(x.op_token.as_str());
        u.append("` → ");
        u.append(x.function_name.as_str());
        u.append("\n");
        s.append(u.as_str());
        proof {
            lemma_concat_map_step(e.preprocessor_patterns@, preprocessor_line_fn(), j as int);
            assert(s@ =~= start + concat_map(e.preprocessor_patterns@.take(j + 1), preprocessor_line_fn()));
        }
        j = j + 1;
    }
    assert(e.preprocessor_patterns@.take(e.preprocessor_patterns@.len() as int) =~= e.preprocessor_patterns@);
}

fn push_extension_preprocessors(s: &mut String, e: &ExtensionPlan)
    ensures
        final(s)@ == old(s)@ + extension_preprocessors(*e),
{
    let ghost start = s@;
    push_extension_heading(s, e);
    push_preprocessor_lines(s, e);
    assert(s@ =~= start + extension_preprocessors(*e));
}

/// Preprocessor patterns file: one comment line per pattern.
pub fn preprocessors_rs(plan: &BridgePlan) -> (r: String)
    ensures
        r@ == preprocessors_rs_text(*plan),
{
    let mut s = generated_header();
    s.append(PREPROCESSORS_HEAD);
    let ghost start = s@;
    let exts = &plan.extensions;
    let mut i: usize = 0;
    assert(start + concat_map(exts@.take(0), extension_preprocessors_fn()) =~= start);
    while i < exts.len()
        invariant
            i <= exts.len(),
            s@ == start + concat_map(exts@.take(i as int), extension_preprocessors_fn()),
        decreases exts.len() - i,
    {
        push_extension_preprocessors(&mut s, &exts[i]);
        proof {
            lemma_concat_map_step(exts@, extension_preprocessors_fn(), i as int);
            assert(s@ =~= start + concat_map(exts@.take(i + 1), extension_preprocessors_fn()));
        }
        i = i + 1;
    }
    assert(exts@.take(exts@.len() as int) =~= exts@);
    s
}

/// The listing line of one catalog column.
pub open spec fn catalog_column_line(col: CatalogColumnInfo) -> Seq<char> {
    "//   "@ + col.name@ + " "@ + col.data_type@ + " ("@
        + (if col.nullable { "nullable"@ } else { "not null"@ }) + ")\n"@
}

/// [`catalog_column_line`] as a function value.
pub open spec fn catalog_column_line_fn() -> spec_fn(CatalogColumnInfo) -> Seq<char> {
    |col: CatalogColumnInfo| catalog_column_line(col)
}

/// The listing of one catalog table: its qualified name, then one
/// line per column.
pub open spec fn catalog_table_lines(t: SystemCatalogTableInfo) -> Seq<char> {
    "// catalog `"@ + t.catalog_name@ + "."@ + t.table_name@ + "`\n"@
        + concat_map(t.columns@, catalog_column_line_fn())
}

/// [`catalog_table_lines`] as a function value.
pub open spec fn catalog_table_lines_fn() -> spec_fn(SystemCatalogTableInfo) -> Seq<char> {
    |t: SystemCatalogTableInfo| catalog_table_lines(t)
}

/// The catalog-table listings of an extension, in order.
pub open spec fn extension_catalog_fn() -> spec_fn(ExtensionPlan) -> Seq<char> {
    |e: ExtensionPlan| concat_map(e.system_catalog_tables@, catalog_table_lines_fn())
}

/// `src/system_catalog.rs` of the generated crate: the fixed
/// opening, the listing of every catalog table of every extension,
/// the closing to-do line.
pub open spec fn system_catalog_rs_text(plan: BridgePlan) -> Seq<char> {
    GENERATED_HEADER@ + SYSTEM_CATALOG_HEAD@ + concat_map(plan.extensions@, extension_catalog_fn())
        + SYSTEM_CATALOG_TAIL@
}

fn push_catalog_columns(s: &mut String, t: &SystemCatalogTableInfo)
    ensures
        final(s)@ == old(s)@ + concat_map(t.columns@, catalog_column_line_fn()),
{
    let ghost start = s@;
    let mut j: usize = 0;
    assert(start + concat_map(t.columns@.take(0), catalog_column_line_fn()) =~= start);
    while j < t.columns.len()
        invariant
            j <= t.columns.len(),
            s@ == start + concat_map(t.columns@.take(j as int), catalog_column_line_fn()),
        decreases t.columns.len() - j,
    {
        let x = &t.columns[j];
        let mut u = String::from_str("//   ");
        u.append(x.name.as_str());
        u.append(" ");
        u.append(x.data_type.as_str());
        u.append(" (");
        if x.nullable {
            u.append("nullable");
        } else {
            u.append("not null");
        }
        u.append(")\n");
        s.append(u.as_str());
        proof {
            lemma_concat_map_step(t.columns@, catalog_column_line_fn(), j as int);
            assert(s@ =~= start + concat_map(t.columns@.take(j + 1), catalog_column_line_fn()));
        }
        j = j + 1;
    }
    assert(t.columns@.take(t.columns@.len() as int) =~= t.columns@);
}

fn push_catalog_table(s: &mut String, t: &SystemCatalogTableInfo)
    ensures
        final(s)@ == old(s)@ + catalog_table_lines(*t),
{
    let ghost start = s@;
    let mut u = String::from_str("// catalog `");
    u.append(t.catalog_name.as_str());
    u.append(".");
    u.append(t.table_name.as_str());
    u.append("`\n");
    s.append(u.as_str());
    push_catalog_columns(s, t);
    assert(s@ =~= start + catalog_table_lines(*t));
}

fn push_extension_catalog(s: &mut String, e: &ExtensionPlan)
    ensures
        final(s)@ == old(s)@ + concat_map(e.system_catalog_tables@, catalog_table_lines_fn()),
{
    let ghost start = s@;
    let mut j: usize = 0;
    assert(start + concat_map(e.system_catalog_tables@.take(0), catalog_table_lines_fn()) =~= start);
    while j < e.system_catalog_tables.len()
        invariant
            j <= e.system_catalog_tables.len(),
            s@ == start + concat_map(e.system_catalog_tables@.take(j as int), catalog_table_lines_fn()),
        decreases e.system_catalog_tables.len() - j,
    {
        let x = &e.system_catalog_tables[j];
        let mut u = String::new();
        push_catalog_table(&mut u, x);
        assert(u@ =~= catalog_table_lines(*x));
        s.append(u.as_str());
        proof {
            lemma_concat_map_step(e.system_catalog_tables@, catalog_table_lines_fn(), j as int);
            assert(s@ =~= start + concat_map(e.system_catalog_tables@.take(j + 1), catalog_table_lines_fn()));
        }
        j = j + 1;
    }
    assert(e.system_catalog_tables@.take(e.system_catalog_tables@.len() as int) =~= e.system_catalog_tables@);
}

/// System-catalog file: the tables and their columns as comments.
pub fn system_catalog_rs(plan: &BridgePlan) -> (r: String)
    ensures
        r@ == system_catalog_rs_text(*plan),
{
    let mut s = generated_header();
    s.append(SYSTEM_CATALOG_HEAD);
    let ghost start = s@;
    let exts = &plan.extensions;
    let mut i: usize = 0;
    assert(start + concat_map(exts@.take(0), extension_catalog_fn()) =~= start);
    while i < exts.len()
        invariant
            i <= exts.len(),
            s@ == start + concat_map(exts@.take(i as int), extension_catalog_fn()),
        decreases exts.len() - i,
    {
        push_extension_catalog(&mut s, &exts[i]);
        proof {
            lemma_concat_map_step(exts@, extension_catalog_fn(), i as int);
            assert(s@ =~= start + concat_map(exts@.take(i + 1), extension_catalog_fn()));
        }
        i = i + 1;
    }
    assert(exts@.take(exts@.len() as int) =~= exts@);
    s.append(SYSTEM_CATALOG_TAIL);
    s
}

/// The listing line of one spatial index.
pub open spec fn spatial_index_line(ix: SpatialIndexInfo) -> Seq<char> {
    "// index `"@ + ix.name@ + "` type_id="@ + int_decimal(ix.type_id as int) + "\n"@
}

/// [`spatial_index_line`] as a function value.
pub open spec fn spatial_index_line_fn() -> spec_fn(SpatialIndexInfo) -> Seq<char> {
    |ix: SpatialIndexInfo| spatial_index_line(ix)
}

/// The spatial-index lines of an extension, in order.
pub open spec fn extension_spatial_indexes_fn() -> spec_fn(ExtensionPlan) -> Seq<char> {
    |e: ExtensionPlan| concat_map(e.spatial_indexes@, spatial_index_line_fn())
}

/// `src/spatial_indexes.rs` of the generated crate: the fixed
/// opening, one line per spatial index of every extension, the
/// closing to-do lines.
pub open spec fn spatial_indexes_rs_text(plan: BridgePlan) -> Seq<char> {
    GENERATED_HEADER@ + SPATIAL_INDEXES_HEAD@
        + concat_map(plan.extensions@, extension_spatial_indexes_fn()) + SPATIAL_INDEXES_TAIL@
}

fn push_extension_spatial_indexes(s: &mut String, e: &ExtensionPlan)
    ensures
        final(s)@ == old(s)@ + concat_map(e.spatial_indexes@, spatial_index_line_fn()),
{
    let ghost start = s@;
    let mut j: usize = 0;
    assert(start + concat_map(e.spatial_indexes@.take(0), spatial_index_line_fn()) =~= start);
    while j < e.spatial_indexes.len()
        invariant
            j <= e.spatial_indexes.len(),
            s@ == start + concat_map(e.spatial_indexes@.take(j as int), spatial_index_line_fn()),
        decreases e.spatial_indexes.len() - j,
    {
        let x = &e.spatial_indexes[j];
        let mut u = String::from_str("// index `");
        u.append(x.name.as_str());
        u.append("` type_id=");
        push_i64(&mut u, x.type_id);
        u.append("\n");
        s.append(u.as_str());
        proof {
            lemma_concat_map_step(e.spatial_indexes@, spatial_index_line_fn(), j as int);
            assert(s@ =~= start + concat_map(e.spatial_indexes@.take(j + 1), spatial_index_line_fn()));
        }
        j = j + 1;
    }
    assert(e.spatial_indexes@.take(e.spatial_indexes@.len() as int) =~= e.spatial_indexes@);
}

/// Spatial-index file: one comment line per index.
pub fn spatial_indexes_rs(plan: &BridgePlan) -> (r: String)
    ensures
        r@ == spatial_indexes_rs_text(*plan),
{
    let mut s = generated_header();
    s.append(SPATIAL_INDEXES_HEAD);
    let ghost start = s@;
    let exts = &plan.extensions;
    let mut i: usize = 0;
    assert(start + concat_map(exts@.take(0), extension_spatial_indexes_fn()) =~= start);
    while i < exts.len()
        invariant
            i <= exts.len(),
            s@ == start + concat_map(exts@.take(i as int), extension_spatial_indexes_fn()),
        decreases exts.len() - i,
    {
        push_extension_spatial_indexes(&mut s, &exts[i]);
        proof {
            lemma_concat_map_step(exts@, extension_spatial_indexes_fn(), i as int);
            assert(s@ =~= start + concat_map(exts@.take(i + 1), extension_spatial_indexes_fn()));
        }
        i = i + 1;
    }
    assert(exts@.take(exts@.len() as int) =~= exts@);
    s.append(SPATIAL_INDEXES_TAIL);
    s
}

} // verus!
