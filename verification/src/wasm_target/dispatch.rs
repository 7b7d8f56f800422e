//! Phase 2 scalar-dispatch registry.
//!
//! Each `DispatchEntry` says: "when the host calls the scalar
//! named `sql_name`, marshal the SQL value args per `shape`,
//! invoke `wit_module::wit_func`, and marshal the result back to
//! a SQL value." The emitter walks this registry and emits one
//! `match` arm per entry in the scalar-function dispatcher; SQL
//! names not present in the registry still fall through to the
//! Phase 1 stub-error path so the surface stays loadable.
//!
//! The registry is hand-curated for Phase 2 — small enough to
//! prove dispatch works end-to-end across the major
//! type-marshaling shapes (text → geometry, geometry → text,
//! geometry → f64, geometry+geometry → f64, f64+f64 → geometry).
//! Phase 3 grows it to the full ~317-function surface, ideally
//! derived from the WIT files at codegen time rather than
//! hand-listed here.
//!
//! Type-mapping table (interface-DB type → WIT type → SqlValue):
//!
//!   text     → string         → SqlValue::Text(String)
//!   float64  → f64            → SqlValue::Real(f64)
//!   int64    → s64            → SqlValue::Integer(i64)
//!   uint32   → u32            → SqlValue::Integer(i64)
//!   int32    → s32            → SqlValue::Integer(i64)
//!   boolean  → bool           → SqlValue::Integer(0|1)
//!   binary   → list<u8>       → SqlValue::Blob(Vec<u8>)
//!     ↑ for the postgis-wasm WIT, "binary" at the interface-DB
//!       layer is the WKB-encoded form of a `geometry` resource.
//!       Crossing the WIT boundary requires reconstituting the
//!       resource via `Geometry::from_wkb(&bytes)?` and
//!       serializing the result back via `g.as_wkb()`.


use vstd::prelude::*;

use crate::text::{join_map, lemma_join_map_step};

verus! {

/// A single function the codegen emits real dispatch for.
pub struct DispatchEntry {
    /// Matches the `scalars.name` column of the interface DB.
    /// Used to look up the runtime func-id assigned by the
    /// metadata emitter.
    pub sql_name: &'static str,
    /// The shape determines argument unpacking + result wrapping.
    pub shape: DispatchShape,
}

/// What the emitted match arm does. Each variant names the
/// imported function the dispatcher calls; the param/return
/// marshaling is fixed by the shape.
#[allow(dead_code)]
pub enum DispatchShape {
    /// `f(wkt: text) -> result<geometry, postgis-error>` →
    /// returns SqlValue::Blob(WKB).
    TextToGeomResult { wit_module: &'static str, wit_func: &'static str },
    /// `f(geom: borrow<geometry>) -> string` → returns
    /// SqlValue::Text.
    GeomToString { wit_module: &'static str, wit_func: &'static str },
    /// `f(geom: borrow<geometry>) -> result<string, postgis-error>` → returns
    /// SqlValue::Text.
    GeomToStringResult { wit_module: &'static str, wit_func: &'static str },
    /// `f(geom: borrow<geometry>) -> result<f64, postgis-error>` → returns
    /// SqlValue::Real.
    GeomToF64Result { wit_module: &'static str, wit_func: &'static str },
    /// `f(geom1: borrow<geometry>, geom2: borrow<geometry>) -> result<f64, postgis-error>` →
    /// returns SqlValue::Real.
    GeomGeomToF64Result { wit_module: &'static str, wit_func: &'static str },
    /// `f(geom: borrow<geometry>) -> u32` → returns
    /// SqlValue::Integer.
    GeomToU32 { wit_module: &'static str, wit_func: &'static str },
    /// `f(geom: borrow<geometry>) -> bool` → returns
    /// SqlValue::Integer(0|1).
    GeomToBool { wit_module: &'static str, wit_func: &'static str },
    /// `f(x: f64, y: f64) -> geometry` → returns SqlValue::Blob(WKB).
    F64F64ToGeom { wit_module: &'static str, wit_func: &'static str },
    /// `f(geom: borrow<geometry>) -> result<geometry, postgis-error>` →
    /// returns SqlValue::Blob(WKB).
    GeomToGeomResult { wit_module: &'static str, wit_func: &'static str },
}

/// The curated dispatch table, entry by entry.
pub open spec fn registry_table() -> Seq<DispatchEntry> {
    seq![
            DispatchEntry {
                sql_name: "st_geomfromtext",
                shape: DispatchShape::TextToGeomResult {
                    wit_module: "pg_ctor",
                    wit_func: "st_geom_from_text",
                },
            },
            DispatchEntry {
                sql_name: "st_astext",
                shape: DispatchShape::GeomToString {
                    wit_module: "pg_out",
                    wit_func: "st_as_text",
                },
            },
            DispatchEntry {
                sql_name: "st_asewkt",
                shape: DispatchShape::GeomToString {
                    wit_module: "pg_out",
                    wit_func: "st_as_ewkt",
                },
            },
            DispatchEntry {
                sql_name: "st_asgeojson",
                shape: DispatchShape::GeomToString {
                    wit_module: "pg_out",
                    wit_func: "st_as_geojson",
                },
            },
            DispatchEntry {
                sql_name: "st_distance",
                shape: DispatchShape::GeomGeomToF64Result {
                    wit_module: "pg_meas",
                    wit_func: "st_distance",
                },
            },
            DispatchEntry {
                sql_name: "st_x",
                shape: DispatchShape::GeomToF64Result {
                    wit_module: "pg_acc",
                    wit_func: "st_x",
                },
            },
            DispatchEntry {
                sql_name: "st_y",
                shape: DispatchShape::GeomToF64Result {
                    wit_module: "pg_acc",
                    wit_func: "st_y",
                },
            },
            DispatchEntry {
                sql_name: "st_xmin",
                shape: DispatchShape::GeomToF64Result {
                    wit_module: "pg_acc",
                    wit_func: "st_xmin",
                },
            },
            DispatchEntry {
                sql_name: "st_xmax",
                shape: DispatchShape::GeomToF64Result {
                    wit_module: "pg_acc",
                    wit_func: "st_xmax",
                },
            },
            DispatchEntry {
                sql_name: "st_ymin",
                shape: DispatchShape::GeomToF64Result {
                    wit_module: "pg_acc",
                    wit_func: "st_ymin",
                },
            },
            DispatchEntry {
                sql_name: "st_ymax",
                shape: DispatchShape::GeomToF64Result {
                    wit_module: "pg_acc",
                    wit_func: "st_ymax",
                },
            },
            DispatchEntry {
                sql_name: "st_area",
                shape: DispatchShape::GeomToF64Result {
                    wit_module: "pg_meas",
                    wit_func: "st_area",
                },
            },
            DispatchEntry {
                sql_name: "st_length",
                shape: DispatchShape::GeomToF64Result {
                    wit_module: "pg_meas",
                    wit_func: "st_length",
                },
            },
            DispatchEntry {
                sql_name: "st_perimeter",
                shape: DispatchShape::GeomToF64Result {
                    wit_module: "pg_meas",
                    wit_func: "st_perimeter",
                },
            },
            DispatchEntry {
                sql_name: "st_makepoint",
                shape: DispatchShape::F64F64ToGeom {
                    wit_module: "pg_ctor",
                    wit_func: "st_make_point",
                },
            },
            DispatchEntry {
                sql_name: "st_geomfromewkt",
                shape: DispatchShape::TextToGeomResult {
                    wit_module: "pg_ctor",
                    wit_func: "st_geom_from_ewkt",
                },
            },
            DispatchEntry {
                sql_name: "st_npoints",
                shape: DispatchShape::GeomToU32 {
                    wit_module: "pg_acc",
                    wit_func: "st_npoints",
                },
            },
            DispatchEntry {
                sql_name: "st_numgeometries",
                shape: DispatchShape::GeomToU32 {
                    wit_module: "pg_acc",
                    wit_func: "st_num_geometries",
                },
            },
            DispatchEntry {
                sql_name: "st_isempty",
                shape: DispatchShape::GeomToBool {
                    wit_module: "pg_pred",
                    wit_func: "st_is_empty",
                },
            },
            DispatchEntry {
                sql_name: "st_centroid",
                shape: DispatchShape::GeomToGeomResult {
                    wit_module: "pg_proc",
                    wit_func: "st_centroid",
                },
            },
    ]
}

/// Phase 2 registry. Returns the list of scalars the emitter
/// should generate real dispatch for; everything else stays
/// stubbed.
///
/// Picked to cover every type-marshaling shape Phase 2 needs to
/// prove:
///   - `st_geomfromtext`: text → geometry (the "ingress" half of
///     the round-trip);
///   - `st_astext`: geometry → text (the "egress" half);
///   - `st_distance`: geometry+geometry → f64 (binary-pair input,
///     numeric output);
///   - `st_x`: geometry → f64 (single-binary input, numeric output);
///   - `st_area`: geometry → f64 (different importing WIT module —
///     postgis-measurements — proves the dispatch table can route
///     to multiple WIT interfaces);
///   - `st_makepoint`: f64+f64 → geometry (numeric input, binary
///     output; symmetric to `st_x`).
///   - `st_geomfromewkt`: text → geometry (second Result-text shape).
///   - `st_isempty`: geometry → bool (bool result).
///   - `st_npoints`: geometry → u32 (uint result).
///   - `st_centroid`: geometry → geometry (round-trips a resource).
pub fn registry() -> (r: &'static [DispatchEntry])
    ensures
        r@ == registry_table(),
{
    let table: &'static [DispatchEntry] = &[
        DispatchEntry {
            sql_name: "st_geomfromtext",
            shape: DispatchShape::TextToGeomResult {
                wit_module: "pg_ctor",
                wit_func: "st_geom_from_text",
            },
        },
        DispatchEntry {
            sql_name: "st_astext",
            shape: DispatchShape::GeomToString {
                wit_module: "pg_out",
                wit_func: "st_as_text",
            },
        },
        DispatchEntry {
            sql_name: "st_asewkt",
            shape: DispatchShape::GeomToString {
                wit_module: "pg_out",
                wit_func: "st_as_ewkt",
            },
        },
        DispatchEntry {
            sql_name: "st_asgeojson",
            shape: DispatchShape::GeomToString {
                wit_module: "pg_out",
                wit_func: "st_as_geojson",
            },
        },
        DispatchEntry {
            sql_name: "st_distance",
            shape: DispatchShape::GeomGeomToF64Result {
                wit_module: "pg_meas",
                wit_func: "st_distance",
            },
        },
        DispatchEntry {
            sql_name: "st_x",
            shape: DispatchShape::GeomToF64Result {
                wit_module: "pg_acc",
                wit_func: "st_x",
            },
        },
        DispatchEntry {
            sql_name: "st_y",
            shape: DispatchShape::GeomToF64Result {
                wit_module: "pg_acc",
                wit_func: "st_y",
            },
        },
        DispatchEntry {
            sql_name: "st_xmin",
            shape: DispatchShape::GeomToF64Result {
                wit_module: "pg_acc",
                wit_func: "st_xmin",
            },
        },
        DispatchEntry {
            sql_name: "st_xmax",
            shape: DispatchShape::GeomToF64Result {
                wit_module: "pg_acc",
                wit_func: "st_xmax",
            },
        },
        DispatchEntry {
            sql_name: "st_ymin",
            shape: DispatchShape::GeomToF64Result {
                wit_module: "pg_acc",
                wit_func: "st_ymin",
            },
        },
        DispatchEntry {
            sql_name: "st_ymax",
            shape: DispatchShape::GeomToF64Result {
                wit_module: "pg_acc",
                wit_func: "st_ymax",
            },
        },
        DispatchEntry {
            sql_name: "st_area",
            shape: DispatchShape::GeomToF64Result {
                wit_module: "pg_meas",
                wit_func: "st_area",
            },
        },
        DispatchEntry {
            sql_name: "st_length",
            shape: DispatchShape::GeomToF64Result {
                wit_module: "pg_meas",
                wit_func: "st_length",
            },
        },
        DispatchEntry {
            sql_name: "st_perimeter",
            shape: DispatchShape::GeomToF64Result {
                wit_module: "pg_meas",
                wit_func: "st_perimeter",
            },
        },
        DispatchEntry {
            sql_name: "st_makepoint",
            shape: DispatchShape::F64F64ToGeom {
                wit_module: "pg_ctor",
                wit_func: "st_make_point",
            },
        },
        DispatchEntry {
            sql_name: "st_geomfromewkt",
            shape: DispatchShape::TextToGeomResult {
                wit_module: "pg_ctor",
                wit_func: "st_geom_from_ewkt",
            },
        },
        DispatchEntry {
            sql_name: "st_npoints",
            shape: DispatchShape::GeomToU32 {
                wit_module: "pg_acc",
                wit_func: "st_npoints",
            },
        },
        DispatchEntry {
            sql_name: "st_numgeometries",
            shape: DispatchShape::GeomToU32 {
                wit_module: "pg_acc",
                wit_func: "st_num_geometries",
            },
        },
        DispatchEntry {
            sql_name: "st_isempty",
            shape: DispatchShape::GeomToBool {
                wit_module: "pg_pred",
                wit_func: "st_is_empty",
            },
        },
        DispatchEntry {
            sql_name: "st_centroid",
            shape: DispatchShape::GeomToGeomResult {
                wit_module: "pg_proc",
                wit_func: "st_centroid",
            },
        },
    ];
    table
}

/// The lines of the match arm for `shape`, without their indent.
pub open spec fn arm_lines(shape: DispatchShape, sql_name: Seq<char>) -> Seq<Seq<char>> {
    match shape {
        DispatchShape::TextToGeomResult { wit_module, wit_func } => seq![
            "let wkt = arg_text(&args, 0, \""@ + sql_name + "\")?;"@,
            "let g = "@ + wit_module@ + "::"@ + wit_func@ + "(wkt)"@,
            "    .map_err(|e| format!(\""@ + sql_name + ": {}\", postgis_err_string(e)))?;"@,
            "Ok(SqlValue::Blob(g.as_wkb()))"@,
        ],
        DispatchShape::GeomToString { wit_module, wit_func } => seq![
            "let g = from_wkb(arg_blob(&args, 0, \""@ + sql_name + "\")?, \""@ + sql_name + "\")?;"@,
            "Ok(SqlValue::Text("@ + wit_module@ + "::"@ + wit_func@ + "(&g)))"@,
        ],
        DispatchShape::GeomToStringResult { wit_module, wit_func } => seq![
            "let g = from_wkb(arg_blob(&args, 0, \""@ + sql_name + "\")?, \""@ + sql_name + "\")?;"@,
            "let s = "@ + wit_module@ + "::"@ + wit_func@ + "(&g)"@,
            "    .map_err(|e| format!(\""@ + sql_name + ": {}\", postgis_err_string(e)))?;"@,
            "Ok(SqlValue::Text(s))"@,
        ],
        DispatchShape::GeomToF64Result { wit_module, wit_func } => seq![
            "let g = from_wkb(arg_blob(&args, 0, \""@ + sql_name + "\")?, \""@ + sql_name + "\")?;"@,
            "let r = "@ + wit_module@ + "::"@ + wit_func@ + "(&g)"@,
            "    .map_err(|e| format!(\""@ + sql_name + ": {}\", postgis_err_string(e)))?;"@,
            "Ok(SqlValue::Real(r))"@,
        ],
        DispatchShape::GeomGeomToF64Result { wit_module, wit_func } => seq![
            "let a = from_wkb(arg_blob(&args, 0, \""@ + sql_name + "\")?, \""@ + sql_name + "\")?;"@,
            "let b = from_wkb(arg_blob(&args, 1, \""@ + sql_name + "\")?, \""@ + sql_name + "\")?;"@,
            "let r = "@ + wit_module@ + "::"@ + wit_func@ + "(&a, &b)"@,
            "    .map_err(|e| format!(\""@ + sql_name + ": {}\", postgis_err_string(e)))?;"@,
            "Ok(SqlValue::Real(r))"@,
        ],
        DispatchShape::GeomToU32 { wit_module, wit_func } => seq![
            "let g = from_wkb(arg_blob(&args, 0, \""@ + sql_name + "\")?, \""@ + sql_name + "\")?;"@,
            "Ok(SqlValue::Integer("@ + wit_module@ + "::"@ + wit_func@ + "(&g) as i64))"@,
        ],
        DispatchShape::GeomToBool { wit_module, wit_func } => seq![
            "let g = from_wkb(arg_blob(&args, 0, \""@ + sql_name + "\")?, \""@ + sql_name + "\")?;"@,
            "Ok(SqlValue::Integer("@ + wit_module@ + "::"@ + wit_func@ + "(&g) as i64))"@,
        ],
        DispatchShape::F64F64ToGeom { wit_module, wit_func } => seq![
            "let x = arg_f64(&args, 0, \""@ + sql_name + "\")?;"@,
            "let y = arg_f64(&args, 1, \""@ + sql_name + "\")?;"@,
            "Ok(SqlValue::Blob("@ + wit_module@ + "::"@ + wit_func@ + "(x, y).as_wkb()))"@,
        ],
        DispatchShape::GeomToGeomResult { wit_module, wit_func } => seq![
            "let g = from_wkb(arg_blob(&args, 0, \""@ + sql_name + "\")?, \""@ + sql_name + "\")?;"@,
            "let r = "@ + wit_module@ + "::"@ + wit_func@ + "(&g)"@,
            "    .map_err(|e| format!(\""@ + sql_name + ": {}\", postgis_err_string(e)))?;"@,
            "Ok(SqlValue::Blob(r.as_wkb()))"@,
        ],
    }
}

/// A line preceded by the indent.
pub open spec fn indented_line_fn(indent: Seq<char>) -> spec_fn(Seq<char>) -> Seq<char> {
    |line: Seq<char>| indent + line
}

/// The source text of one match arm for `shape`: each of its lines
/// preceded by the indent, the lines separated by newlines (none
/// after the last).
pub open spec fn arm_body_text(shape: DispatchShape, sql_name: Seq<char>, indent: Seq<char>) -> Seq<char> {
    join_map(arm_lines(shape, sql_name), indented_line_fn(indent), "\n"@)
}

/// Appends one arm line: a newline first unless it is the first
/// line, then the indent and the line.
fn push_line(s: &mut String, indent: &str, line: &str, after_newline: bool)
    ensures
        after_newline ==> final(s)@ == old(s)@ + "\n"@ + (indent@ + line@),
        !after_newline ==> final(s)@ == old(s)@ + (indent@ + line@),
{
    let mut t = String::from_str(indent);
    t.append(line);
    if after_newline {
        s.append("\n");
    }
    s.append(t.as_str());
}

/// Emit the body of one match arm — the code that runs inside
/// `match func_id { N => { ... } }`. `arm_indent` is the
/// whitespace prefix for each line so the emitted source stays
/// rustfmt-clean.
pub fn emit_arm_body(shape: &DispatchShape, sql_name: &str, arm_indent: &str) -> (r: String)
    ensures
        r@ == arm_body_text(*shape, sql_name@, arm_indent@),
{
    let ghost lines = arm_lines(*shape, sql_name@);
    let mut s = String::new();
    match shape {
        DispatchShape::TextToGeomResult { wit_module, wit_func } => {
            {
                let mut l = String::from_str("let wkt = arg_text(&args, 0, \"");
                l.append(sql_name);
                l.append("\")?;");
                push_line(&mut s, arm_indent, l.as_str(), false);
                proof {
                    lemma_join_map_step(lines, indented_line_fn(arm_indent@), "\n"@, 0);
                    assert(s@ =~= join_map(lines.take(1), indented_line_fn(arm_indent@), "\n"@));
                }
            }
            {
                let mut l = String::from_str("let g = ");
                l.append(wit_module);
                l.append("::");
                l.append(wit_func);
                l.append("(wkt)");
                push_line(&mut s, arm_indent, l.as_str(), true);
                proof {
                    lemma_join_map_step(lines, indented_line_fn(arm_indent@), "\n"@, 1);
                    assert(s@ =~= join_map(lines.take(2), indented_line_fn(arm_indent@), "\n"@));
                }
            }
            {
                let mut l = String::from_str("    .map_err(|e| format!(\"");
                l.append(sql_name);
                l.append(": {}\", postgis_err_string(e)))?;");
                push_line(&mut s, arm_indent, l.as_str(), true);
                proof {
                    lemma_join_map_step(lines, indented_line_fn(arm_indent@), "\n"@, 2);
                    assert(s@ =~= join_map(lines.take(3), indented_line_fn(arm_indent@), "\n"@));
                }
            }
            {
                let mut l = String::from_str("Ok(SqlValue::Blob(g.as_wkb()))");
                push_line(&mut s, arm_indent, l.as_str(), true);
                proof {
                    lemma_join_map_step(lines, indented_line_fn(arm_indent@), "\n"@, 3);
                    assert(s@ =~= join_map(lines.take(4), indented_line_fn(arm_indent@), "\n"@));
                }
            }
        },
        DispatchShape::GeomToString { wit_module, wit_func } => {
            {
                let mut l = String::from_str("let g = from_wkb(arg_blob(&args, 0, \"");
                l.append(sql_name);
                l.append("\")?, \"");
                l.append(sql_name);
                l.append("\")?;");
                push_line(&mut s, arm_indent, l.as_str(), false);
                proof {
                    lemma_join_map_step(lines, indented_line_fn(arm_indent@), "\n"@, 0);
                    assert(s@ =~= join_map(lines.take(1), indented_line_fn(arm_indent@), "\n"@));
                }
            }
            {
                let mut l = String::from_str("Ok(SqlValue::Text(");
                l.append(wit_module);
                l.append("::");
                l.append(wit_func);
                l.append("(&g)))");
                push_line(&mut s, arm_indent, l.as_str(), true);
                proof {
                    lemma_join_map_step(lines, indented_line_fn(arm_indent@), "\n"@, 1);
                    assert(s@ =~= join_map(lines.take(2), indented_line_fn(arm_indent@), "\n"@));
                }
            }
        },
        DispatchShape::GeomToStringResult { wit_module, wit_func } => {
            {
                let mut l = String::from_str("let g = from_wkb(arg_blob(&args, 0, \"");
                l.append(sql_name);
                l.append("\")?, \"");
                l.append(sql_name);
                l.append("\")?;");
                push_line(&mut s, arm_indent, l.as_str(), false);
                proof {
                    lemma_join_map_step(lines, indented_line_fn(arm_indent@), "\n"@, 0);
                    assert(s@ =~= join_map(lines.take(1), indented_line_fn(arm_indent@), "\n"@));
                }
            }
            {
                let mut l = String::from_str("let s = ");
                l.append(wit_module);
                l.append("::");
                l.append(wit_func);
                l.append("(&g)");
                push_line(&mut s, arm_indent, l.as_str(), true);
                proof {
                    lemma_join_map_step(lines, indented_line_fn(arm_indent@), "\n"@, 1);
                    assert(s@ =~= join_map(lines.take(2), indented_line_fn(arm_indent@), "\n"@));
                }
            }
            {
                let mut l = String::from_str("    .map_err(|e| format!(\"");
                l.append(sql_name);
                l.append(": {}\", postgis_err_string(e)))?;");
                push_line(&mut s, arm_indent, l.as_str(), true);
                proof {
                    lemma_join_map_step(lines, indented_line_fn(arm_indent@), "\n"@, 2);
                    assert(s@ =~= join_map(lines.take(3), indented_line_fn(arm_indent@), "\n"@));
                }
            }
            {
                let mut l = String::from_str("Ok(SqlValue::Text(s))");
                push_line(&mut s, arm_indent, l.as_str(), true);
                proof {
                    lemma_join_map_step(lines, indented_line_fn(arm_indent@), "\n"@, 3);
                    assert(s@ =~= join_map(lines.take(4), indented_line_fn(arm_indent@), "\n"@));
                }
            }
        },
        DispatchShape::GeomToF64Result { wit_module, wit_func } => {
            {
                let mut l = String::from_str("let g = from_wkb(arg_blob(&args, 0, \"");
                l.append(sql_name);
                l.append("\")?, \"");
                l.append(sql_name);
                l.append("\")?;");
                push_line(&mut s, arm_indent, l.as_str(), false);
                proof {
                    lemma_join_map_step(lines, indented_line_fn(arm_indent@), "\n"@, 0);
                    assert(s@ =~= join_map(lines.take(1), indented_line_fn(arm_indent@), "\n"@));
                }
            }
            {
                let mut l = String::from_str("let r = ");
                l.append(wit_module);
                l.append("::");
                l.append(wit_func);
                l.append("(&g)");
                push_line(&mut s, arm_indent, l.as_str(), true);
                proof {
                    lemma_join_map_step(lines, indented_line_fn(arm_indent@), "\n"@, 1);
                    assert(s@ =~= join_map(lines.take(2), indented_line_fn(arm_indent@), "\n"@));
                }
            }
            {
                let mut l = String::from_str("    .map_err(|e| format!(\"");
                l.append(sql_name);
                l.append(": {}\", postgis_err_string(e)))?;");
                push_line(&mut s, arm_indent, l.as_str(), true);
                proof {
                    lemma_join_map_step(lines, indented_line_fn(arm_indent@), "\n"@, 2);
                    assert(s@ =~= join_map(lines.take(3), indented_line_fn(arm_indent@), "\n"@));
                }
            }
            {
                let mut l = String::from_str("Ok(SqlValue::Real(r))");
                push_line(&mut s, arm_indent, l.as_str(), true);
                proof {
                    lemma_join_map_step(lines, indented_line_fn(arm_indent@), "\n"@, 3);
                    assert(s@ =~= join_map(lines.take(4), indented_line_fn(arm_indent@), "\n"@));
                }
            }
        },
        DispatchShape::GeomGeomToF64Result { wit_module, wit_func } => {
            {
                let mut l = String::from_str("let a = from_wkb(arg_blob(&args, 0, \"");
                l.append(sql_name);
                l.append("\")?, \"");
                l.append(sql_name);
                l.append("\")?;");
                push_line(&mut s, arm_indent, l.as_str(), false);
                proof {
                    lemma_join_map_step(lines, indented_line_fn(arm_indent@), "\n"@, 0);
                    assert(s@ =~= join_map(lines.take(1), indented_line_fn(arm_indent@), "\n"@));
                }
            }
            {
                let mut l = String::from_str("let b = from_wkb(arg_blob(&args, 1, \"");
                l.append(sql_name);
                l.append("\")?, \"");
                l.append(sql_name);
                l.append("\")?;");
                push_line(&mut s, arm_indent, l.as_str(), true);
                proof {
                    lemma_join_map_step(lines, indented_line_fn(arm_indent@), "\n"@, 1);
                    assert(s@ =~= join_map(lines.take(2), indented_line_fn(arm_indent@), "\n"@));
                }
            }
            {
                let mut l = String::from_str("let r = ");
                l.append(wit_module);
                l.append("::");
                l.append(wit_func);
                l.append("(&a, &b)");
                push_line(&mut s, arm_indent, l.as_str(), true);
                proof {
                    lemma_join_map_step(lines, indented_line_fn(arm_indent@), "\n"@, 2);
                    assert(s@ =~= join_map(lines.take(3), indented_line_fn(arm_indent@), "\n"@));
                }
            }
            {
                let mut l = String::from_str("    .map_err(|e| format!(\"");
                l.append(sql_name);
                l.append(": {}\", postgis_err_string(e)))?;");
                push_line(&mut s, arm_indent, l.as_str(), true);
                proof {
                    lemma_join_map_step(lines, indented_line_fn(arm_indent@), "\n"@, 3);
                    assert(s@ =~= join_map(lines.take(4), indented_line_fn(arm_indent@), "\n"@));
                }
            }
            {
                let mut l = String::from_str("Ok(SqlValue::Real(r))");
                push_line(&mut s, arm_indent, l.as_str(), true);
                proof {
                    lemma_join_map_step(lines, indented_line_fn(arm_indent@), "\n"@, 4);
                    assert(s@ =~= join_map(lines.take(5), indented_line_fn(arm_indent@), "\n"@));
                }
            }
        },
        DispatchShape::GeomToU32 { wit_module, wit_func } => {
            {
                let mut l = String::from_str("let g = from_wkb(arg_blob(&args, 0, \"");
                l.append(sql_name);
                l.append("\")?, \"");
                l.append(sql_name);
                l.append("\")?;");
                push_line(&mut s, arm_indent, l.as_str(), false);
                proof {
                    lemma_join_map_step(lines, indented_line_fn(arm_indent@), "\n"@, 0);
                    assert(s@ =~= join_map(lines.take(1), indented_line_fn(arm_indent@), "\n"@));
                }
            }
            {
                let mut l = String::from_str("Ok(SqlValue::Integer(");
                l.append(wit_module);
                l.append("::");
                l.append(wit_func);
                l.append("(&g) as i64))");
                push_line(&mut s, arm_indent, l.as_str(), true);
                proof {
                    lemma_join_map_step(lines, indented_line_fn(arm_indent@), "\n"@, 1);
                    assert(s@ =~= join_map(lines.take(2), indented_line_fn(arm_indent@), "\n"@));
                }
            }
        },
        DispatchShape::GeomToBool { wit_module, wit_func } => {
            {
                let mut l = String::from_str("let g = from_wkb(arg_blob(&args, 0, \"");
                l.append(sql_name);
                l.append("\")?, \"");
                l.append(sql_name);
                l.append("\")?;");
                push_line(&mut s, arm_indent, l.as_str(), false);
                proof {
                    lemma_join_map_step(lines, indented_line_fn(arm_indent@), "\n"@, 0);
                    assert(s@ =~= join_map(lines.take(1), indented_line_fn(arm_indent@), "\n"@));
                }
            }
            {
                let mut l = String::from_str("Ok(SqlValue::Integer(");
                l.append(wit_module);
                l.append("::");
                l.append(wit_func);
                l.append("(&g) as i64))");
                push_line(&mut s, arm_indent, l.as_str(), true);
                proof {
                    lemma_join_map_step(lines, indented_line_fn(arm_indent@), "\n"@, 1);
                    assert(s@ =~= join_map(lines.take(2), indented_line_fn(arm_indent@), "\n"@));
                }
            }
        },
        DispatchShape::F64F64ToGeom { wit_module, wit_func } => {
            {
                let mut l = String::from_str("let x = arg_f64(&args, 0, \"");
                l.append(sql_name);
                l.append("\")?;");
                push_line(&mut s, arm_indent, l.as_str(), false);
                proof {
                    lemma_join_map_step(lines, indented_line_fn(arm_indent@), "\n"@, 0);
                    assert(s@ =~= join_map(lines.take(1), indented_line_fn(arm_indent@), "\n"@));
                }
            }
            {
                let mut l = String::from_str("let y = arg_f64(&args, 1, \"");
                l.append(sql_name);
                l.append("\")?;");
                push_line(&mut s, arm_indent, l.as_str(), true);
                proof {
                    lemma_join_map_step(lines, indented_line_fn(arm_indent@), "\n"@, 1);
                    assert(s@ =~= join_map(lines.take(2), indented_line_fn(arm_indent@), "\n"@));
                }
            }
            {
                let mut l = String::from_str("Ok(SqlValue::Blob(");
                l.append(wit_module);
                l.append("::");
                l.append(wit_func);
                l.append("(x, y).as_wkb()))");
                push_line(&mut s, arm_indent, l.as_str(), true);
                proof {
                    lemma_join_map_step(lines, indented_line_fn(arm_indent@), "\n"@, 2);
                    assert(s@ =~= join_map(lines.take(3), indented_line_fn(arm_indent@), "\n"@));
                }
            }
        },
        DispatchShape::GeomToGeomResult { wit_module, wit_func } => {
            {
                let mut l = String::from_str("let g = from_wkb(arg_blob(&args, 0, \"");
                l.append(sql_name);
                l.append("\")?, \"");
                l.append(sql_name);
                l.append("\")?;");
                push_line(&mut s, arm_indent, l.as_str(), false);
                proof {
                    lemma_join_map_step(lines, indented_line_fn(arm_indent@), "\n"@, 0);
                    assert(s@ =~= join_map(lines.take(1), indented_line_fn(arm_indent@), "\n"@));
                }
            }
            {
                let mut l = String::from_str("let r = ");
                l.append(wit_module);
                l.append("::");
                l.append(wit_func);
                l.append("(&g)");
                push_line(&mut s, arm_indent, l.as_str(), true);
                proof {
                    lemma_join_map_step(lines, indented_line_fn(arm_indent@), "\n"@, 1);
                    assert(s@ =~= join_map(lines.take(2), indented_line_fn(arm_indent@), "\n"@));
                }
            }
            {
                let mut l = String::from_str("    .map_err(|e| format!(\"");
                l.append(sql_name);
                l.append(": {}\", postgis_err_string(e)))?;");
                push_line(&mut s, arm_indent, l.as_str(), true);
                proof {
                    lemma_join_map_step(lines, indented_line_fn(arm_indent@), "\n"@, 2);
                    assert(s@ =~= join_map(lines.take(3), indented_line_fn(arm_indent@), "\n"@));
                }
            }
            {
                let mut l = String::from_str("Ok(SqlValue::Blob(r.as_wkb()))");
                push_line(&mut s, arm_indent, l.as_str(), true);
                proof {
                    lemma_join_map_step(lines, indented_line_fn(arm_indent@), "\n"@, 3);
                    assert(s@ =~= join_map(lines.take(4), indented_line_fn(arm_indent@), "\n"@));
                }
            }
        },
    }
    assert(lines.take(lines.len() as int) =~= lines);
    s
}

} // verus!
