//! Laws on the values the generated files carry: the arity each
//! function is registered with, the count each table cell and summary
//! entry shows, and which WIT directory the lookup picks.

use vstd::prelude::*;

use super::{contains_text, law_every_aggregate_registered, law_every_scalar_registered};
use crate::emit::crate_files::{extension_summary, surface_row};
use crate::emit::functions::{
    aggregate_alias_line, aggregates_rs_text, arity_of, scalar_alias_line, scalar_flags,
    scalars_rs_text,
};
use crate::emit::templates::README_TABLE_HEAD;
use crate::plan::{BridgePlan, ExtensionPlan};
use crate::text::{
    concat_map, int_decimal, join_map, lemma_concat_map_step, lemma_join_map_step, nat_decimal,
};
use crate::wasm_target::emit_wit::{pick_result, WitDirPick, WitSource};

verus! {

/// Every overload has the parameter count of the first one.
pub open spec fn same_count(sigs: Seq<Vec<String>>) -> bool {
    forall|a: int| 0 <= a < sigs.len() ==> #[trigger] sigs[a]@.len() == sigs[0]@.len()
}

/// The arity of a function is the parameter count its overloads share;
/// when two overloads, wherever they stand, differ in parameter count,
/// or there is none, it is `-1`.
pub proof fn law_arity(sigs: Seq<Vec<String>>)
    ensures
        sigs.len() == 0 ==> arity_of(sigs) == -1,
        forall|a: int, b: int|
            0 <= a < sigs.len() && 0 <= b < sigs.len() && #[trigger] sigs[a]@.len()
                != #[trigger] sigs[b]@.len() ==> arity_of(sigs) == -1,
        sigs.len() > 0 && (forall|a: int| 0 <= a < sigs.len() ==> #[trigger] sigs[a]@.len() == sigs[0]@.len())
            && sigs[0]@.len() <= i32::MAX ==> arity_of(sigs) == sigs[0]@.len(),
{
    assert forall|a: int, b: int|
        0 <= a < sigs.len() && 0 <= b < sigs.len() && #[trigger] sigs[a]@.len()
            != #[trigger] sigs[b]@.len() implies arity_of(sigs) == -1 by {
        if same_count(sigs) {
            assert(sigs[a]@.len() == sigs[0]@.len());
            assert(sigs[b]@.len() == sigs[0]@.len());
        }
    }
}

/// The text of the arity a function with these overloads is registered
/// with: the shared parameter count, or `-1`.
pub open spec fn arity_text(sigs: Seq<Vec<String>>) -> Seq<char> {
    if sigs.len() > 0 && same_count(sigs) {
        nat_decimal(sigs[0]@.len())
    } else {
        "-1"@
    }
}

proof fn lemma_arity_text(sigs: Seq<Vec<String>>)
    requires
        !(sigs.len() > 0 && same_count(sigs)) || sigs[0]@.len() <= i32::MAX,
    ensures
        int_decimal(arity_of(sigs)) == arity_text(sigs),
{
    reveal_strlit("-1");
    if !(sigs.len() > 0 && same_count(sigs)) {
        assert(arity_of(sigs) == -1);
        assert(int_decimal(-1) =~= "-1"@);
    }
}

/// `src/scalars.rs` registers each scalar, and each of its aliases, with
/// the arity its overloads share (`-1` when they differ or there is
/// none), deterministic ones with the deterministic flag. The shared
/// count is taken to fit an `i32`.
pub proof fn law_scalars_registered_with_arity(plan: BridgePlan, i: int, j: int)
    requires
        0 <= i < plan.extensions@.len(),
        0 <= j < plan.extensions@[i].scalars@.len(),
    ensures
        ({
            let sc = plan.extensions@[i].scalars@[j];
            let sigs = sc.param_signatures@;
            let flags = if sc.is_deterministic {
                "FunctionFlags::SQLITE_DETERMINISTIC | FunctionFlags::SQLITE_UTF8"@
            } else {
                "FunctionFlags::SQLITE_UTF8"@
            };
            (sigs.len() > 0 && same_count(sigs) ==> sigs[0]@.len() <= i32::MAX) ==> {
                &&& contains_text(
                    scalars_rs_text(plan),
                    "    register_scalar(conn, \""@ + sc.canonical_name@ + "\", "@ + arity_text(sigs)
                        + ", "@ + flags + ")?;\n"@,
                )
                &&& forall|k: int|
                    0 <= k < sc.aliases@.len() ==> contains_text(
                        scalars_rs_text(plan),
                        "    register_scalar(conn, \""@ + (#[trigger] sc.aliases@[k])@ + "\", "@
                            + arity_text(sigs) + ", "@ + flags + ")?; // alias of "@
                            + sc.canonical_name@ + "\n"@,
                    )
            }
        }),
{
    let sc = plan.extensions@[i].scalars@[j];
    let sigs = sc.param_signatures@;
    if sigs.len() > 0 && same_count(sigs) ==> sigs[0]@.len() <= i32::MAX {
        law_every_scalar_registered(plan, i, j);
        lemma_arity_text(sigs);
        assert forall|k: int| 0 <= k < sc.aliases@.len() implies contains_text(
            scalars_rs_text(plan),
            "    register_scalar(conn, \""@ + (#[trigger] sc.aliases@[k])@ + "\", "@ + arity_text(sigs)
                + ", "@ + scalar_flags(sc) + ")?; // alias of "@ + sc.canonical_name@ + "\n"@,
        ) by {
            assert(scalar_alias_line(sc.aliases@[k], sc) == "    register_scalar(conn, \""@
                + sc.aliases@[k]@ + "\", "@ + arity_text(sigs) + ", "@ + scalar_flags(sc)
                + ")?; // alias of "@ + sc.canonical_name@ + "\n"@);
        }
    }
}

/// `src/aggregates.rs` registers each aggregate, and each of its
/// aliases with the same arity, namely the one its overloads share
/// (`-1` when they differ or there is none). The shared count is taken
/// to fit an `i32`.
pub proof fn law_aggregates_registered_with_arity(plan: BridgePlan, i: int, j: int)
    requires
        0 <= i < plan.extensions@.len(),
        0 <= j < plan.extensions@[i].aggregates@.len(),
    ensures
        ({
            let agg = plan.extensions@[i].aggregates@[j];
            let sigs = agg.param_signatures@;
            (sigs.len() > 0 && same_count(sigs) ==> sigs[0]@.len() <= i32::MAX) ==> {
                &&& contains_text(
                    aggregates_rs_text(plan),
                    "    register_aggregate(conn, \""@ + agg.canonical_name@ + "\", "@ + arity_text(
                        sigs,
                    ) + ")?;\n"@,
                )
                &&& forall|k: int|
                    0 <= k < agg.aliases@.len() ==> contains_text(
                        aggregates_rs_text(plan),
                        "    register_aggregate(conn, \""@ + (#[trigger] agg.aliases@[k])@ + "\", "@
                            + arity_text(sigs) + ")?; // alias of "@ + agg.canonical_name@
                            + "\n"@,
                    )
            }
        }),
{
    let agg = plan.extensions@[i].aggregates@[j];
    let sigs = agg.param_signatures@;
    if sigs.len() > 0 && same_count(sigs) ==> sigs[0]@.len() <= i32::MAX {
        law_every_aggregate_registered(plan, i, j);
        lemma_arity_text(sigs);
        assert forall|k: int| 0 <= k < agg.aliases@.len() implies contains_text(
            aggregates_rs_text(plan),
            "    register_aggregate(conn, \""@ + (#[trigger] agg.aliases@[k])@ + "\", "@
                + arity_text(sigs) + ")?; // alias of "@ + agg.canonical_name@ + "\n"@,
        ) by {
            assert(aggregate_alias_line(agg.aliases@[k], agg) == "    register_aggregate(conn, \""@
                + agg.aliases@[k]@ + "\", "@ + arity_text(sigs) + ")?; // alias of "@
                + agg.canonical_name@ + "\n"@);
        }
    }
}

/// A kind of item an extension publishes.
pub enum SurfaceKind {
    Scalars,
    Aggregates,
    TableFunctions,
    WindowFunctions,
    ColumnTypes,
    Operators,
    CastRewrites,
    PreprocessorPatterns,
    SystemCatalogTables,
    SpatialIndexes,
}

/// How many items of a kind an extension publishes.
pub open spec fn count_of(e: ExtensionPlan, k: SurfaceKind) -> nat {
    match k {
        SurfaceKind::Scalars => e.scalars@.len(),
        SurfaceKind::Aggregates => e.aggregates@.len(),
        SurfaceKind::TableFunctions => e.table_functions@.len(),
        SurfaceKind::WindowFunctions => e.window_functions@.len(),
        SurfaceKind::ColumnTypes => e.column_types@.len(),
        SurfaceKind::Operators => e.operators@.len(),
        SurfaceKind::CastRewrites => e.cast_rewrites@.len(),
        SurfaceKind::PreprocessorPatterns => e.preprocessor_patterns@.len(),
        SurfaceKind::SystemCatalogTables => e.system_catalog_tables@.len(),
        SurfaceKind::SpatialIndexes => e.spatial_indexes@.len(),
    }
}

/// The count columns of the README's surface table: each heading with
/// the kind it counts.
pub open spec fn surface_columns() -> Seq<(Seq<char>, SurfaceKind)> {
    seq![
        ("Scalars"@, SurfaceKind::Scalars),
        ("Aggregates"@, SurfaceKind::Aggregates),
        ("UDTFs"@, SurfaceKind::TableFunctions),
        ("Windows"@, SurfaceKind::WindowFunctions),
        ("Types"@, SurfaceKind::ColumnTypes),
        ("Operators"@, SurfaceKind::Operators),
        ("Casts"@, SurfaceKind::CastRewrites),
        ("Preprocessors"@, SurfaceKind::PreprocessorPatterns),
        ("Catalog"@, SurfaceKind::SystemCatalogTables),
        ("Indexes"@, SurfaceKind::SpatialIndexes),
    ]
}

/// A column's heading cell.
pub open spec fn heading_cell_fn() -> spec_fn((Seq<char>, SurfaceKind)) -> Seq<char> {
    |c: (Seq<char>, SurfaceKind)| " | "@ + c.0
}

/// A column's cell in the row of `e`: the count of the kind it heads.
pub open spec fn count_cell_fn(e: ExtensionPlan) -> spec_fn((Seq<char>, SurfaceKind)) -> Seq<char> {
    |c: (Seq<char>, SurfaceKind)| " | "@ + nat_decimal(count_of(e, c.1))
}

proof fn lemma_heading_row()
    ensures
        README_TABLE_HEAD@ == "| Extension | Version"@ + concat_map(surface_columns(), heading_cell_fn())
            + " |\n"@,
{
    reveal_strlit("| Extension | Version | Scalars | Aggregates | UDTFs | Windows | Types | Operators | Casts | Preprocessors | Catalog | Indexes |\n");
    reveal_strlit("| Extension | Version");
    reveal_strlit(" |\n");
    reveal_strlit(" | ");
    reveal_strlit("Scalars");
    reveal_strlit("Aggregates");
    reveal_strlit("UDTFs");
    reveal_strlit("Windows");
    reveal_strlit("Types");
    reveal_strlit("Operators");
    reveal_strlit("Casts");
    reveal_strlit("Preprocessors");
    reveal_strlit("Catalog");
    reveal_strlit("Indexes");
    let cs = surface_columns();
    let f = heading_cell_fn();
    let x = "| Extension | Version"@;
    assert(x + concat_map(cs.take(0), f) =~= x);
    let h0 = x;
    lemma_concat_map_step(cs, f, 0);
    let h1 = h0 + " | "@ + "Scalars"@;
    assert(x + concat_map(cs.take(1), f) =~= h1);
    lemma_concat_map_step(cs, f, 1);
    let h2 = h1 + " | "@ + "Aggregates"@;
    assert(x + concat_map(cs.take(2), f) =~= h2);
    lemma_concat_map_step(cs, f, 2);
    let h3 = h2 + " | "@ + "UDTFs"@;
    assert(x + concat_map(cs.take(3), f) =~= h3);
    lemma_concat_map_step(cs, f, 3);
    let h4 = h3 + " | "@ + "Windows"@;
    assert(x + concat_map(cs.take(4), f) =~= h4);
    lemma_concat_map_step(cs, f, 4);
    let h5 = h4 + " | "@ + "Types"@;
    assert(x + concat_map(cs.take(5), f) =~= h5);
    lemma_concat_map_step(cs, f, 5);
    let h6 = h5 + " | "@ + "Operators"@;
    assert(x + concat_map(cs.take(6), f) =~= h6);
    lemma_concat_map_step(cs, f, 6);
    let h7 = h6 + " | "@ + "Casts"@;
    assert(x + concat_map(cs.take(7), f) =~= h7);
    lemma_concat_map_step(cs, f, 7);
    let h8 = h7 + " | "@ + "Preprocessors"@;
    assert(x + concat_map(cs.take(8), f) =~= h8);
    lemma_concat_map_step(cs, f, 8);
    let h9 = h8 + " | "@ + "Catalog"@;
    assert(x + concat_map(cs.take(9), f) =~= h9);
    lemma_concat_map_step(cs, f, 9);
    let h10 = h9 + " | "@ + "Indexes"@;
    assert(x + concat_map(cs.take(10), f) =~= h10);
    assert(cs.take(10) =~= cs);
    assert(README_TABLE_HEAD@ =~= h10 + " |\n"@);
}

proof fn lemma_count_row(e: ExtensionPlan)
    ensures
        surface_row(e) == "| "@ + e.name@ + " | "@ + e.version@ + concat_map(surface_columns(), count_cell_fn(e))
            + " |\n"@,
{
    let cs = surface_columns();
    let f = count_cell_fn(e);
    let x = "| "@ + e.name@ + " | "@ + e.version@;
    assert(x + concat_map(cs.take(0), f) =~= x);
    let r0 = x;
    let r1 = r0 + " | "@ + nat_decimal(e.scalars@.len());
    assert(x + concat_map(cs.take(1), f) == r1) by {
        lemma_concat_map_step(cs, f, 0);
        assert(f(cs[0]) == " | "@ + nat_decimal(e.scalars@.len()));
        lemma_assoc(x, concat_map(cs.take(0), f), f(cs[0]));
        lemma_assoc(r0, " | "@, nat_decimal(e.scalars@.len()));
    }
    let r2 = r1 + " | "@ + nat_decimal(e.aggregates@.len());
    assert(x + concat_map(cs.take(2), f) == r2) by {
        lemma_concat_map_step(cs, f, 1);
        assert(f(cs[1]) == " | "@ + nat_decimal(e.aggregates@.len()));
        lemma_assoc(x, concat_map(cs.take(1), f), f(cs[1]));
        lemma_assoc(r1, " | "@, nat_decimal(e.aggregates@.len()));
    }
    let r3 = r2 + " | "@ + nat_decimal(e.table_functions@.len());
    assert(x + concat_map(cs.take(3), f) == r3) by {
        lemma_concat_map_step(cs, f, 2);
        assert(f(cs[2]) == " | "@ + nat_decimal(e.table_functions@.len()));
        lemma_assoc(x, concat_map(cs.take(2), f), f(cs[2]));
        lemma_assoc(r2, " | "@, nat_decimal(e.table_functions@.len()));
    }
    let r4 = r3 + " | "@ + nat_decimal(e.window_functions@.len());
    assert(x + concat_map(cs.take(4), f) == r4) by {
        lemma_concat_map_step(cs, f, 3);
        assert(f(cs[3]) == " | "@ + nat_decimal(e.window_functions@.len()));
        lemma_assoc(x, concat_map(cs.take(3), f), f(cs[3]));
        lemma_assoc(r3, " | "@, nat_decimal(e.window_functions@.len()));
    }
    let r5 = r4 + " | "@ + nat_decimal(e.column_types@.len());
    assert(x + concat_map(cs.take(5), f) == r5) by {
        lemma_concat_map_step(cs, f, 4);
        assert(f(cs[4]) == " | "@ + nat_decimal(e.column_types@.len()));
        lemma_assoc(x, concat_map(cs.take(4), f), f(cs[4]));
        lemma_assoc(r4, " | "@, nat_decimal(e.column_types@.len()));
    }
    let r6 = r5 + " | "@ + nat_decimal(e.operators@.len());
    assert(x + concat_map(cs.take(6), f) == r6) by {
        lemma_concat_map_step(cs, f, 5);
        assert(f(cs[5]) == " | "@ + nat_decimal(e.operators@.len()));
        lemma_assoc(x, concat_map(cs.take(5), f), f(cs[5]));
        lemma_assoc(r5, " | "@, nat_decimal(e.operators@.len()));
    }
    let r7 = r6 + " | "@ + nat_decimal(e.cast_rewrites@.len());
    assert(x + concat_map(cs.take(7), f) == r7) by {
        lemma_concat_map_step(cs, f, 6);
        assert(f(cs[6]) == " | "@ + nat_decimal(e.cast_rewrites@.len()));
        lemma_assoc(x, concat_map(cs.take(6), f), f(cs[6]));
        lemma_assoc(r6, " | "@, nat_decimal(e.cast_rewrites@.len()));
    }
    let r8 = r7 + " | "@ + nat_decimal(e.preprocessor_patterns@.len());
    assert(x + concat_map(cs.take(8), f) == r8) by {
        lemma_concat_map_step(cs, f, 7);
        assert(f(cs[7]) == " | "@ + nat_decimal(e.preprocessor_patterns@.len()));
        lemma_assoc(x, concat_map(cs.take(7), f), f(cs[7]));
        lemma_assoc(r7, " | "@, nat_decimal(e.preprocessor_patterns@.len()));
    }
    let r9 = r8 + " | "@ + nat_decimal(e.system_catalog_tables@.len());
    assert(x + concat_map(cs.take(9), f) == r9) by {
        lemma_concat_map_step(cs, f, 8);
        assert(f(cs[8]) == " | "@ + nat_decimal(e.system_catalog_tables@.len()));
        lemma_assoc(x, concat_map(cs.take(8), f), f(cs[8]));
        lemma_assoc(r8, " | "@, nat_decimal(e.system_catalog_tables@.len()));
    }
    let r10 = r9 + " | "@ + nat_decimal(e.spatial_indexes@.len());
    assert(x + concat_map(cs.take(10), f) == r10) by {
        lemma_concat_map_step(cs, f, 9);
        assert(f(cs[9]) == " | "@ + nat_decimal(e.spatial_indexes@.len()));
        lemma_assoc(x, concat_map(cs.take(9), f), f(cs[9]));
        lemma_assoc(r9, " | "@, nat_decimal(e.spatial_indexes@.len()));
    }
    assert(cs.take(10) =~= cs);
    assert(surface_row(e) == r10 + " |\n"@);
}

proof fn lemma_entry_step(t: Seq<char>, u: Seq<char>, lab: Seq<char>, endp: Seq<char>, lit: Seq<char>)
    requires
        " "@ + lab + endp == lit,
    ensures
        t + (u + " "@ + lab) + endp == t + u + lit,
{
    assert(t + (u + " "@ + lab) + endp =~= t + u + (" "@ + lab + endp));
}

proof fn lemma_assoc(a: Seq<char>, b: Seq<char>, c: Seq<char>)
    ensures
        a + (b + c) == a + b + c,
{
    assert(a + (b + c) =~= a + b + c);
}

/// Each cell of an extension's row in the README's surface table holds
/// the count of the kind its column heading names: the table heading is
/// `Extension`, `Version` and the headings of [`surface_columns`], and
/// the row is the name, the version and, column by column, the count
/// of that column's kind.
pub proof fn law_surface_cells_match_headings(e: ExtensionPlan)
    ensures
        README_TABLE_HEAD@ == "| Extension | Version"@ + concat_map(surface_columns(), heading_cell_fn())
            + " |\n"@,
        surface_row(e) == "| "@ + e.name@ + " | "@ + e.version@ + concat_map(
            surface_columns(),
            count_cell_fn(e),
        ) + " |\n"@,
{
    lemma_heading_row();
    lemma_count_row(e);
}

/// The entries of an extension's summary line in `src/lib.rs`: each
/// label with the kind it counts.
pub open spec fn summary_entries() -> Seq<(Seq<char>, SurfaceKind)> {
    seq![
        ("scalars"@, SurfaceKind::Scalars),
        ("agg"@, SurfaceKind::Aggregates),
        ("udtf"@, SurfaceKind::TableFunctions),
        ("window"@, SurfaceKind::WindowFunctions),
        ("types"@, SurfaceKind::ColumnTypes),
        ("ops"@, SurfaceKind::Operators),
        ("casts"@, SurfaceKind::CastRewrites),
        ("preps"@, SurfaceKind::PreprocessorPatterns),
        ("catalog"@, SurfaceKind::SystemCatalogTables),
        ("indexes"@, SurfaceKind::SpatialIndexes),
    ]
}

/// An entry of the summary of `e`: the count of the entry's kind, a
/// space and the entry's label.
pub open spec fn summary_entry_fn(e: ExtensionPlan) -> spec_fn((Seq<char>, SurfaceKind)) -> Seq<char> {
    |c: (Seq<char>, SurfaceKind)| nat_decimal(count_of(e, c.1)) + " "@ + c.0
}

/// In each extension's summary line, the number before each label is
/// the count of the kind the label names: the line is the name, the
/// version, and in brackets the entries of [`summary_entries`], each
/// the count of its kind followed by its label.
pub proof fn law_summary_counts_match_labels(e: ExtensionPlan)
    ensures
        extension_summary(e) == "//   - "@ + e.name@ + " v"@ + e.version@ + "  ("@ + join_map(
            summary_entries(),
            summary_entry_fn(e),
            ", "@,
        ) + ")"@,
{
    reveal_strlit(")");
    reveal_strlit(", ");
    reveal_strlit(" ");
    reveal_strlit("scalars");
    reveal_strlit("agg");
    reveal_strlit("udtf");
    reveal_strlit("window");
    reveal_strlit("types");
    reveal_strlit("ops");
    reveal_strlit("casts");
    reveal_strlit("preps");
    reveal_strlit("catalog");
    reveal_strlit("indexes");
    reveal_strlit(" scalars, ");
    reveal_strlit(" agg, ");
    reveal_strlit(" udtf, ");
    reveal_strlit(" window, ");
    reveal_strlit(" types, ");
    reveal_strlit(" ops, ");
    reveal_strlit(" casts, ");
    reveal_strlit(" preps, ");
    reveal_strlit(" catalog, ");
    reveal_strlit(" indexes)");
    let es = summary_entries();
    let f = summary_entry_fn(e);
    let sep = ", "@;
    let y = "//   - "@ + e.name@ + " v"@ + e.version@ + "  ("@;
    let t0 = y;
    let t1 = t0 + nat_decimal(e.scalars@.len()) + " scalars, "@;
    let t2 = t1 + nat_decimal(e.aggregates@.len()) + " agg, "@;
    let t3 = t2 + nat_decimal(e.table_functions@.len()) + " udtf, "@;
    let t4 = t3 + nat_decimal(e.window_functions@.len()) + " window, "@;
    let t5 = t4 + nat_decimal(e.column_types@.len()) + " types, "@;
    let t6 = t5 + nat_decimal(e.operators@.len()) + " ops, "@;
    let t7 = t6 + nat_decimal(e.cast_rewrites@.len()) + " casts, "@;
    let t8 = t7 + nat_decimal(e.preprocessor_patterns@.len()) + " preps, "@;
    let t9 = t8 + nat_decimal(e.system_catalog_tables@.len()) + " catalog, "@;
    let t10 = t9 + nat_decimal(e.spatial_indexes@.len()) + " indexes)"@;
    assert(extension_summary(e) == t10);
    assert(y + join_map(es.take(1), f, sep) + sep == t1) by {
        lemma_join_map_step(es, f, sep, 0);
        assert(f(es[0]) == nat_decimal(e.scalars@.len()) + " "@ + "scalars"@);
        assert(" "@ + "scalars"@ + sep =~= " scalars, "@);
        lemma_entry_step(y, nat_decimal(e.scalars@.len()), "scalars"@, sep, " scalars, "@);
    }
    assert(y + join_map(es.take(2), f, sep) + sep == t2) by {
        lemma_join_map_step(es, f, sep, 1);
        assert(f(es[1]) == nat_decimal(e.aggregates@.len()) + " "@ + "agg"@);
        assert(" "@ + "agg"@ + sep =~= " agg, "@);
        lemma_assoc(y, join_map(es.take(1), f, sep) + sep, f(es[1]));
        assert(y + (join_map(es.take(1), f, sep) + sep) =~= y + join_map(es.take(1), f, sep) + sep);
        lemma_entry_step(t1, nat_decimal(e.aggregates@.len()), "agg"@, sep, " agg, "@);
    }
    assert(y + join_map(es.take(3), f, sep) + sep == t3) by {
        lemma_join_map_step(es, f, sep, 2);
        assert(f(es[2]) == nat_decimal(e.table_functions@.len()) + " "@ + "udtf"@);
        assert(" "@ + "udtf"@ + sep =~= " udtf, "@);
        lemma_assoc(y, join_map(es.take(2), f, sep) + sep, f(es[2]));
        assert(y + (join_map(es.take(2), f, sep) + sep) =~= y + join_map(es.take(2), f, sep) + sep);
        lemma_entry_step(t2, nat_decimal(e.table_functions@.len()), "udtf"@, sep, " udtf, "@);
    }
    assert(y + join_map(es.take(4), f, sep) + sep == t4) by {
        lemma_join_map_step(es, f, sep, 3);
        assert(f(es[3]) == nat_decimal(e.window_functions@.len()) + " "@ + "window"@);
        assert(" "@ + "window"@ + sep =~= " window, "@);
        lemma_assoc(y, join_map(es.take(3), f, sep) + sep, f(es[3]));
        assert(y + (join_map(es.take(3), f, sep) + sep) =~= y + join_map(es.take(3), f, sep) + sep);
        lemma_entry_step(t3, nat_decimal(e.window_functions@.len()), "window"@, sep, " window, "@);
    }
    assert(y + join_map(es.take(5), f, sep) + sep == t5) by {
        lemma_join_map_step(es, f, sep, 4);
        assert(f(es[4]) == nat_decimal(e.column_types@.len()) + " "@ + "types"@);
        assert(" "@ + "types"@ + sep =~= " types, "@);
        lemma_assoc(y, join_map(es.take(4), f, sep) + sep, f(es[4]));
        assert(y + (join_map(es.take(4), f, sep) + sep) =~= y + join_map(es.take(4), f, sep) + sep);
        lemma_entry_step(t4, nat_decimal(e.column_types@.len()), "types"@, sep, " types, "@);
    }
    assert(y + join_map(es.take(6), f, sep) + sep == t6) by {
        lemma_join_map_step(es, f, sep, 5);
        assert(f(es[5]) == nat_decimal(e.operators@.len()) + " "@ + "ops"@);
        assert(" "@ + "ops"@ + sep =~= " ops, "@);
        lemma_assoc(y, join_map(es.take(5), f, sep) + sep, f(es[5]));
        assert(y + (join_map(es.take(5), f, sep) + sep) =~= y + join_map(es.take(5), f, sep) + sep);
        lemma_entry_step(t5, nat_decimal(e.operators@.len()), "ops"@, sep, " ops, "@);
    }
    assert(y + join_map(es.take(7), f, sep) + sep == t7) by {
        lemma_join_map_step(es, f, sep, 6);
        assert(f(es[6]) == nat_decimal(e.cast_rewrites@.len()) + " "@ + "casts"@);
        assert(" "@ + "casts"@ + sep =~= " casts, "@);
        lemma_assoc(y, join_map(es.take(6), f, sep) + sep, f(es[6]));
        assert(y + (join_map(es.take(6), f, sep) + sep) =~= y + join_map(es.take(6), f, sep) + sep);
        lemma_entry_step(t6, nat_decimal(e.cast_rewrites@.len()), "casts"@, sep, " casts, "@);
    }
    assert(y + join_map(es.take(8), f, sep) + sep == t8) by {
        lemma_join_map_step(es, f, sep, 7);
        assert(f(es[7]) == nat_decimal(e.preprocessor_patterns@.len()) + " "@ + "preps"@);
        assert(" "@ + "preps"@ + sep =~= " preps, "@);
        lemma_assoc(y, join_map(es.take(7), f, sep) + sep, f(es[7]));
        assert(y + (join_map(es.take(7), f, sep) + sep) =~= y + join_map(es.take(7), f, sep) + sep);
        lemma_entry_step(t7, nat_decimal(e.preprocessor_patterns@.len()), "preps"@, sep, " preps, "@);
    }
    assert(y + join_map(es.take(9), f, sep) + sep == t9) by {
        lemma_join_map_step(es, f, sep, 8);
        assert(f(es[8]) == nat_decimal(e.system_catalog_tables@.len()) + " "@ + "catalog"@);
        assert(" "@ + "catalog"@ + sep =~= " catalog, "@);
        lemma_assoc(y, join_map(es.take(8), f, sep) + sep, f(es[8]));
        assert(y + (join_map(es.take(8), f, sep) + sep) =~= y + join_map(es.take(8), f, sep) + sep);
        lemma_entry_step(t8, nat_decimal(e.system_catalog_tables@.len()), "catalog"@, sep, " catalog, "@);
    }
    assert(y + join_map(es.take(10), f, sep) + ")"@ == t10) by {
        lemma_join_map_step(es, f, sep, 9);
        assert(f(es[9]) == nat_decimal(e.spatial_indexes@.len()) + " "@ + "indexes"@);
        assert(" "@ + "indexes"@ + ")"@ =~= " indexes)"@);
        lemma_assoc(y, join_map(es.take(9), f, sep) + sep, f(es[9]));
        assert(y + (join_map(es.take(9), f, sep) + sep) =~= y + join_map(es.take(9), f, sep) + sep);
        lemma_entry_step(t9, nat_decimal(e.spatial_indexes@.len()), "indexes"@, ")"@, " indexes)"@);
    }
    assert(es.take(10) =~= es);
}

/// A set override variable that names a directory is used, for every
/// WIT source, whatever the other candidates are; one that names no
/// directory is an error that names the variable and its value.
pub proof fn law_existing_override_is_used(
    source: WitSource,
    value: Seq<char>,
    home: Option<bool>,
    relative: bool,
)
    ensures
        pick_result(source, Some(value), true, home, relative) == Ok::<WitDirPick, Seq<char>>(
            WitDirPick::Override,
        ),
        pick_result(source, Some(value), false, home, relative) is Err,
{
}

} // verus!
