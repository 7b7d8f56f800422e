//! Laws of the library: properties that span several emitters or
//! several calls, proved over the specifications the emitters'
//! contracts use.

pub mod arms;
pub mod flatten;
pub mod map_err;
pub mod calls;
pub mod modules;
pub mod values;

use vstd::prelude::*;

use crate::emit::crate_files::{
    bridge_modules, cargo_toml_text, env_var_call, extension_summary_fn, lib_name_line,
    lib_rs_text, load_hint, module_decl_fn, package_name_line, readme_text, registry_rs_text,
    shim_env_name,
};
use crate::emit::functions::{
    aggregate_alias_line, aggregate_alias_line_fn, aggregate_registration,
    aggregate_registration_fn, aggregates_rs_text, arity_of, extension_aggregate_registrations_fn,
    extension_scalar_registrations_fn, extension_table_function_registrations_fn,
    scalar_alias_line, scalar_alias_line_fn, scalar_flags, scalar_registration,
    scalar_registration_fn, scalars_rs_text, table_function_alias_line,
    table_function_alias_line_fn, table_function_registration, table_function_registration_fn,
    table_functions_rs_text, window_functions_rs_text, extension_window_lines_fn, window_line_fn,
};
use crate::emit::listings::{
    cast_line, cast_line_fn, casts_rs_text, catalog_column_line, catalog_column_line_fn,
    catalog_table_lines, catalog_table_lines_fn, column_type_line, column_type_line_fn,
    extension_casts_fn, extension_catalog_fn, extension_column_types_fn, extension_heading,
    extension_operators_fn, extension_preprocessors_fn, extension_spatial_indexes_fn,
    operator_line, operator_line_fn, operators_rs_text, preprocessor_line, preprocessor_line_fn,
    preprocessors_rs_text, spatial_index_line, spatial_index_line_fn, spatial_indexes_rs_text,
    system_catalog_rs_text, types_rs_text,
};
use crate::emit::templates::{
    AGGREGATES_HEAD, CARGO_TOML_0, CARGO_TOML_1, CARGO_TOML_2, CARGO_TOML_3, CASTS_HEAD, CRATE_TYPE_LINE,
    GENERATED_HEADER, OPERATORS_HEAD, PREPROCESSORS_HEAD, SCALARS_HEAD, SPATIAL_INDEXES_HEAD,
    SPATIAL_INDEXES_TAIL, SYSTEM_CATALOG_HEAD, SYSTEM_CATALOG_TAIL, TABLE_FUNCTIONS_HEAD,
    TYPES_HEAD, TYPES_TAIL, WINDOW_FUNCTIONS_HEAD, WINDOW_FUNCTIONS_TAIL, LIB_RS_BODY, LIB_RS_DOC,
};
use crate::emit::{crate_stem, primary_name};
use crate::plan::{BridgePlan, ExtensionPlan};
use crate::bridge_paths;
use crate::text::{concat_map, dashed, int_decimal, is_ascii_alnum, join_map};
use crate::wasm_target::dispatch::{
    arm_body_text, arm_lines, indented_line_fn, registry_table, DispatchShape,
};
use crate::wasm_target::emit_wit::{pick_result, world_wit_result, WitDirPick, WitSource};
use crate::wasm_target::wasm_crate_name;

verus! {

/// `p` is a prefix of `s`.
pub open spec fn starts_with(s: Seq<char>, p: Seq<char>) -> bool {
    p.len() <= s.len() && s.take(p.len() as int) == p
}

/// `needle` occurs somewhere in `hay`.
pub open spec fn contains_text(hay: Seq<char>, needle: Seq<char>) -> bool {
    exists|k: int| 0 <= k && k + needle.len() <= hay.len() && #[trigger] hay.subrange(k, k + needle.len()) == needle
}

proof fn lemma_starts_with_extend(s: Seq<char>, p: Seq<char>, t: Seq<char>)
    requires
        starts_with(s, p),
    ensures
        starts_with(s + t, p),
{
    assert((s + t).take(p.len() as int) =~= s.take(p.len() as int));
}

/// Every generated Rust source file of the native bridge crate
/// begins with the do-not-edit header line.
pub proof fn law_rust_files_start_with_header(plan: BridgePlan)
    ensures
        starts_with(lib_rs_text(plan), GENERATED_HEADER@),
        starts_with(registry_rs_text(plan), GENERATED_HEADER@),
        starts_with(scalars_rs_text(plan), GENERATED_HEADER@),
        starts_with(aggregates_rs_text(plan), GENERATED_HEADER@),
        starts_with(table_functions_rs_text(plan), GENERATED_HEADER@),
        starts_with(window_functions_rs_text(plan), GENERATED_HEADER@),
        starts_with(types_rs_text(plan), GENERATED_HEADER@),
        starts_with(operators_rs_text(plan), GENERATED_HEADER@),
        starts_with(casts_rs_text(plan), GENERATED_HEADER@),
        starts_with(preprocessors_rs_text(plan), GENERATED_HEADER@),
        starts_with(system_catalog_rs_text(plan), GENERATED_HEADER@),
        starts_with(spatial_indexes_rs_text(plan), GENERATED_HEADER@),
{
    let h = GENERATED_HEADER@;
    assert(starts_with(h, h)) by {
        assert(h.take(h.len() as int) =~= h);
    }
    assert forall|t: Seq<char>| #[trigger] starts_with(h + t, h) by {
        lemma_starts_with_extend(h, h, t);
    }
    assert forall|a: Seq<char>, t: Seq<char>| starts_with(a, h) implies #[trigger] starts_with(a + t, h) by {
        lemma_starts_with_extend(a, h, t);
    }
}


proof fn lemma_contains_at(hay: Seq<char>, needle: Seq<char>, k: int)
    requires
        0 <= k,
        k + needle.len() <= hay.len(),
        hay.subrange(k, k + needle.len()) == needle,
    ensures
        contains_text(hay, needle),
{
}

proof fn lemma_contains_extend_right(a: Seq<char>, b: Seq<char>, n: Seq<char>)
    requires
        contains_text(a, n),
    ensures
        contains_text(a + b, n),
{
    let k = choose|k: int| 0 <= k && k + n.len() <= a.len() && #[trigger] a.subrange(k, k + n.len()) == n;
    assert((a + b).subrange(k, k + n.len()) =~= a.subrange(k, k + n.len()));
    lemma_contains_at(a + b, n, k);
}

proof fn lemma_contains_extend_left(a: Seq<char>, b: Seq<char>, n: Seq<char>)
    requires
        contains_text(b, n),
    ensures
        contains_text(a + b, n),
{
    let k = choose|k: int| 0 <= k && k + n.len() <= b.len() && #[trigger] b.subrange(k, k + n.len()) == n;
    assert((a + b).subrange(a.len() + k, a.len() + k + n.len()) =~= b.subrange(k, k + n.len()));
    lemma_contains_at(a + b, n, a.len() + k);
}

proof fn lemma_contains_self(n: Seq<char>)
    ensures
        contains_text(n, n),
{
    assert(n.subrange(0, n.len() as int) =~= n);
    lemma_contains_at(n, n, 0);
}

proof fn lemma_contains_trans(h: Seq<char>, m: Seq<char>, n: Seq<char>)
    requires
        contains_text(h, m),
        contains_text(m, n),
    ensures
        contains_text(h, n),
{
    let k = choose|k: int| 0 <= k && k + m.len() <= h.len() && #[trigger] h.subrange(k, k + m.len()) == m;
    let j = choose|j: int| 0 <= j && j + n.len() <= m.len() && #[trigger] m.subrange(j, j + n.len()) == n;
    assert(h.subrange(k + j, k + j + n.len()) =~= m.subrange(j, j + n.len()));
    lemma_contains_at(h, n, k + j);
}

/// The Rust files the native crate writes besides `src/lib.rs` are
/// exactly `src/<m>.rs` for the modules `m` of [`bridge_modules`], and
/// `src/lib.rs` declares each of them with a `pub mod` line.
pub proof fn law_lib_rs_declares_written_modules(plan: BridgePlan)
    ensures
        bridge_paths() == seq!["Cargo.toml"@, "src/lib.rs"@]
            + bridge_modules().map_values(|m: Seq<char>| "src/"@ + m + ".rs"@) + seq!["README.md"@],
        forall|k: int|
            0 <= k < bridge_modules().len() ==> contains_text(
                lib_rs_text(plan),
                "pub mod "@ + #[trigger] bridge_modules()[k] + ";\n"@,
            ),
{
    reveal_strlit("src/");
    reveal_strlit(".rs");
    reveal_strlit("registry");
    reveal_strlit("scalars");
    reveal_strlit("aggregates");
    reveal_strlit("table_functions");
    reveal_strlit("window_functions");
    reveal_strlit("types");
    reveal_strlit("operators");
    reveal_strlit("casts");
    reveal_strlit("preprocessors");
    reveal_strlit("system_catalog");
    reveal_strlit("spatial_indexes");
    reveal_strlit("src/registry.rs");
    reveal_strlit("src/scalars.rs");
    reveal_strlit("src/aggregates.rs");
    reveal_strlit("src/table_functions.rs");
    reveal_strlit("src/window_functions.rs");
    reveal_strlit("src/types.rs");
    reveal_strlit("src/operators.rs");
    reveal_strlit("src/casts.rs");
    reveal_strlit("src/preprocessors.rs");
    reveal_strlit("src/system_catalog.rs");
    reveal_strlit("src/spatial_indexes.rs");
    assert("src/registry.rs"@ =~= "src/"@ + "registry"@ + ".rs"@);
    assert("src/scalars.rs"@ =~= "src/"@ + "scalars"@ + ".rs"@);
    assert("src/aggregates.rs"@ =~= "src/"@ + "aggregates"@ + ".rs"@);
    assert("src/table_functions.rs"@ =~= "src/"@ + "table_functions"@ + ".rs"@);
    assert("src/window_functions.rs"@ =~= "src/"@ + "window_functions"@ + ".rs"@);
    assert("src/types.rs"@ =~= "src/"@ + "types"@ + ".rs"@);
    assert("src/operators.rs"@ =~= "src/"@ + "operators"@ + ".rs"@);
    assert("src/casts.rs"@ =~= "src/"@ + "casts"@ + ".rs"@);
    assert("src/preprocessors.rs"@ =~= "src/"@ + "preprocessors"@ + ".rs"@);
    assert("src/system_catalog.rs"@ =~= "src/"@ + "system_catalog"@ + ".rs"@);
    assert("src/spatial_indexes.rs"@ =~= "src/"@ + "spatial_indexes"@ + ".rs"@);
    assert(bridge_paths() =~= seq!["Cargo.toml"@, "src/lib.rs"@]
        + bridge_modules().map_values(|m: Seq<char>| "src/"@ + m + ".rs"@) + seq!["README.md"@]);
    let decls = concat_map(bridge_modules(), module_decl_fn());
    let head = GENERATED_HEADER@ + LIB_RS_DOC@;
    let tail = LIB_RS_BODY@ + "// Extensions loaded by this bridge:\n//\n"@
        + join_map(plan.extensions@, extension_summary_fn(), seq!['\n']) + seq!['\n'];
    assert(lib_rs_text(plan) =~= head + decls + tail);
    assert forall|k: int| 0 <= k < bridge_modules().len() implies contains_text(
        lib_rs_text(plan),
        "pub mod "@ + #[trigger] bridge_modules()[k] + ";\n"@,
    ) by {
        lemma_concat_map_contains(bridge_modules(), module_decl_fn(), k);
        lemma_contains_in_middle(head, decls, tail, module_decl_fn()(bridge_modules()[k]));
    }
}

/// The generated registry module reads the shim-path variable with
/// `std::env::var`, and the generated README tells the user to set
/// that same variable before `.load`.
pub proof fn law_shim_env_var_agrees(plan: BridgePlan)
    ensures
        contains_text(registry_rs_text(plan), "std::env::var(\""@ + shim_env_name(plan) + "\")"@),
        contains_text(readme_text(plan), "`"@ + shim_env_name(plan) + "` before `.load`:"@),
{
    let env = shim_env_name(plan);
    let call = env_var_call(env);
    let hint = load_hint(env);
    assert forall|a: Seq<char>, b: Seq<char>, n: Seq<char>| contains_text(a, n) implies #[trigger] contains_text(a + b, n) by {
        lemma_contains_extend_right(a, b, n);
    }
    lemma_contains_self(call);
    let r0 = GENERATED_HEADER@ + crate::emit::templates::REGISTRY_RS_0@ + env
        + crate::emit::templates::REGISTRY_RS_1@;
    lemma_contains_extend_left(r0, call, call);
    assert(registry_rs_text(plan) == r0 + call + crate::emit::templates::REGISTRY_RS_2@ + env
        + crate::emit::templates::REGISTRY_RS_3@);
    lemma_contains_self(hint);
    let primary = primary_name(plan);
    let m0 = "# "@ + primary + "-sqlite-bridge\n\n"@
        + "Generated SQLite loadable extension that bridges the **"@ + primary
        + crate::emit::templates::README_LEAD@ + crate::emit::templates::README_INTRO@
        + "## Surface\n\n"@ + crate::emit::templates::README_TABLE_HEAD@
        + crate::emit::templates::README_TABLE_RULE@
        + concat_map(plan.extensions@, crate::emit::crate_files::surface_row_fn())
        + crate::emit::templates::README_TAIL_0@;
    lemma_contains_extend_left(m0, hint, hint);
}


proof fn lemma_concat_map_contains<T>(s: Seq<T>, f: spec_fn(T) -> Seq<char>, i: int)
    requires
        0 <= i < s.len(),
    ensures
        contains_text(concat_map(s, f), f(s[i])),
    decreases s.len(),
{
    if i == s.len() - 1 {
        lemma_contains_self(f(s[i]));
        lemma_contains_extend_left(concat_map(s.drop_last(), f), f(s.last()), f(s[i]));
    } else {
        lemma_concat_map_contains(s.drop_last(), f, i);
        assert(s.drop_last()[i] == s[i]);
        lemma_contains_extend_right(concat_map(s.drop_last(), f), f(s.last()), f(s[i]));
    }
}

/// The scalar registration block of `plan` contains the block of
/// scalar `j` of extension `i`.
proof fn lemma_scalar_block_in_file(plan: BridgePlan, i: int, j: int)
    requires
        0 <= i < plan.extensions@.len(),
        0 <= j < plan.extensions@[i].scalars@.len(),
    ensures
        contains_text(
            scalars_rs_text(plan),
            scalar_registration(plan.extensions@[i].scalars@[j]),
        ),
{
    let e = plan.extensions@[i];
    let all = concat_map(plan.extensions@, extension_scalar_registrations_fn());
    lemma_concat_map_contains(e.scalars@, scalar_registration_fn(), j);
    lemma_concat_map_contains(plan.extensions@, extension_scalar_registrations_fn(), i);
    lemma_contains_trans(all, concat_map(e.scalars@, scalar_registration_fn()), scalar_registration(e.scalars@[j]));
    let head = GENERATED_HEADER@ + SCALARS_HEAD@;
    lemma_contains_extend_left(head, all, scalar_registration(e.scalars@[j]));
    assert forall|a: Seq<char>, b: Seq<char>| contains_text(a, scalar_registration(e.scalars@[j])) implies #[trigger] contains_text(a + b, scalar_registration(e.scalars@[j])) by {
        lemma_contains_extend_right(a, b, scalar_registration(e.scalars@[j]));
    }
}

/// Every scalar the shim publishes is registered, under its
/// canonical name and under each of its aliases, with the arity and
/// flags of that scalar.
pub proof fn law_every_scalar_registered(plan: BridgePlan, i: int, j: int)
    requires
        0 <= i < plan.extensions@.len(),
        0 <= j < plan.extensions@[i].scalars@.len(),
    ensures
        ({
            let sc = plan.extensions@[i].scalars@[j];
            &&& contains_text(
                scalars_rs_text(plan),
                "    register_scalar(conn, \""@ + sc.canonical_name@ + "\", "@
                    + int_decimal(arity_of(sc.param_signatures@)) + ", "@ + scalar_flags(sc)
                    + ")?;\n"@,
            )
            &&& forall|k: int| 0 <= k < sc.aliases@.len() ==> contains_text(
                scalars_rs_text(plan),
                #[trigger] scalar_alias_line(sc.aliases@[k], sc),
            )
        }),
{
    let sc = plan.extensions@[i].scalars@[j];
    let block = scalar_registration(sc);
    let first = "    register_scalar(conn, \""@ + sc.canonical_name@ + "\", "@
        + int_decimal(arity_of(sc.param_signatures@)) + ", "@ + scalar_flags(sc) + ")?;\n"@;
    lemma_scalar_block_in_file(plan, i, j);
    lemma_contains_self(first);
    lemma_contains_extend_right(first, concat_map(sc.aliases@, scalar_alias_line_fn(sc)), first);
    lemma_contains_trans(scalars_rs_text(plan), block, first);
    assert forall|k: int| 0 <= k < sc.aliases@.len() implies contains_text(
        scalars_rs_text(plan),
        #[trigger] scalar_alias_line(sc.aliases@[k], sc),
    ) by {
        lemma_concat_map_contains(sc.aliases@, scalar_alias_line_fn(sc), k);
        lemma_contains_extend_left(first, concat_map(sc.aliases@, scalar_alias_line_fn(sc)), scalar_alias_line(sc.aliases@[k], sc));
        lemma_contains_trans(scalars_rs_text(plan), block, scalar_alias_line(sc.aliases@[k], sc));
    }
}

/// The aggregate registration block of `plan` contains the block of
/// aggregate `j` of extension `i`.
proof fn lemma_aggregate_block_in_file(plan: BridgePlan, i: int, j: int)
    requires
        0 <= i < plan.extensions@.len(),
        0 <= j < plan.extensions@[i].aggregates@.len(),
    ensures
        contains_text(
            aggregates_rs_text(plan),
            aggregate_registration(plan.extensions@[i].aggregates@[j]),
        ),
{
    let e = plan.extensions@[i];
    let all = concat_map(plan.extensions@, extension_aggregate_registrations_fn());
    lemma_concat_map_contains(e.aggregates@, aggregate_registration_fn(), j);
    lemma_concat_map_contains(plan.extensions@, extension_aggregate_registrations_fn(), i);
    lemma_contains_trans(all, concat_map(e.aggregates@, aggregate_registration_fn()), aggregate_registration(e.aggregates@[j]));
    let head = GENERATED_HEADER@ + AGGREGATES_HEAD@;
    lemma_contains_extend_left(head, all, aggregate_registration(e.aggregates@[j]));
    assert forall|a: Seq<char>, b: Seq<char>| contains_text(a, aggregate_registration(e.aggregates@[j])) implies #[trigger] contains_text(a + b, aggregate_registration(e.aggregates@[j])) by {
        lemma_contains_extend_right(a, b, aggregate_registration(e.aggregates@[j]));
    }
}

/// Every aggregate the shim publishes is registered, under its
/// canonical name and under each of its aliases, with the arity of
/// that aggregate.
pub proof fn law_every_aggregate_registered(plan: BridgePlan, i: int, j: int)
    requires
        0 <= i < plan.extensions@.len(),
        0 <= j < plan.extensions@[i].aggregates@.len(),
    ensures
        ({
            let agg = plan.extensions@[i].aggregates@[j];
            &&& contains_text(
                aggregates_rs_text(plan),
                "    register_aggregate(conn, \""@ + agg.canonical_name@ + "\", "@
                    + int_decimal(arity_of(agg.param_signatures@)) + ")?;\n"@,
            )
            &&& forall|k: int| 0 <= k < agg.aliases@.len() ==> contains_text(
                aggregates_rs_text(plan),
                #[trigger] aggregate_alias_line(agg.aliases@[k], agg),
            )
        }),
{
    let agg = plan.extensions@[i].aggregates@[j];
    let block = aggregate_registration(agg);
    let first = "    register_aggregate(conn, \""@ + agg.canonical_name@ + "\", "@
        + int_decimal(arity_of(agg.param_signatures@)) + ")?;\n"@;
    lemma_aggregate_block_in_file(plan, i, j);
    lemma_contains_self(first);
    lemma_contains_extend_right(first, concat_map(agg.aliases@, aggregate_alias_line_fn(agg)), first);
    lemma_contains_trans(aggregates_rs_text(plan), block, first);
    assert forall|k: int| 0 <= k < agg.aliases@.len() implies contains_text(
        aggregates_rs_text(plan),
        #[trigger] aggregate_alias_line(agg.aliases@[k], agg),
    ) by {
        lemma_concat_map_contains(agg.aliases@, aggregate_alias_line_fn(agg), k);
        lemma_contains_extend_left(first, concat_map(agg.aliases@, aggregate_alias_line_fn(agg)), aggregate_alias_line(agg.aliases@[k], agg));
        lemma_contains_trans(aggregates_rs_text(plan), block, aggregate_alias_line(agg.aliases@[k], agg));
    }
}

/// The table-function registration block of `plan` contains the block of
/// table function `j` of extension `i`.
proof fn lemma_table_function_block_in_file(plan: BridgePlan, i: int, j: int)
    requires
        0 <= i < plan.extensions@.len(),
        0 <= j < plan.extensions@[i].table_functions@.len(),
    ensures
        contains_text(
            table_functions_rs_text(plan),
            table_function_registration(plan.extensions@[i].table_functions@[j]),
        ),
{
    let e = plan.extensions@[i];
    let all = concat_map(plan.extensions@, extension_table_function_registrations_fn());
    lemma_concat_map_contains(e.table_functions@, table_function_registration_fn(), j);
    lemma_concat_map_contains(plan.extensions@, extension_table_function_registrations_fn(), i);
    lemma_contains_trans(all, concat_map(e.table_functions@, table_function_registration_fn()), table_function_registration(e.table_functions@[j]));
    let head = GENERATED_HEADER@ + TABLE_FUNCTIONS_HEAD@;
    lemma_contains_extend_left(head, all, table_function_registration(e.table_functions@[j]));
    assert forall|a: Seq<char>, b: Seq<char>| contains_text(a, table_function_registration(e.table_functions@[j])) implies #[trigger] contains_text(a + b, table_function_registration(e.table_functions@[j])) by {
        lemma_contains_extend_right(a, b, table_function_registration(e.table_functions@[j]));
    }
}

/// Every table function the shim publishes is registered, under its
/// canonical name and under each of its aliases.
pub proof fn law_every_table_function_registered(plan: BridgePlan, i: int, j: int)
    requires
        0 <= i < plan.extensions@.len(),
        0 <= j < plan.extensions@[i].table_functions@.len(),
    ensures
        ({
            let tf = plan.extensions@[i].table_functions@[j];
            &&& contains_text(
                table_functions_rs_text(plan),
                "    register_udtf(conn, \""@ + tf.canonical_name@ + "\")?;\n"@,
            )
            &&& forall|k: int| 0 <= k < tf.aliases@.len() ==> contains_text(
                table_functions_rs_text(plan),
                #[trigger] table_function_alias_line(tf.aliases@[k], tf),
            )
        }),
{
    let tf = plan.extensions@[i].table_functions@[j];
    let block = table_function_registration(tf);
    let first = "    register_udtf(conn, \""@ + tf.canonical_name@ + "\")?;\n"@;
    lemma_table_function_block_in_file(plan, i, j);
    lemma_contains_self(first);
    lemma_contains_extend_right(first, concat_map(tf.aliases@, table_function_alias_line_fn(tf)), first);
    lemma_contains_trans(table_functions_rs_text(plan), block, first);
    assert forall|k: int| 0 <= k < tf.aliases@.len() implies contains_text(
        table_functions_rs_text(plan),
        #[trigger] table_function_alias_line(tf.aliases@[k], tf),
    ) by {
        lemma_concat_map_contains(tf.aliases@, table_function_alias_line_fn(tf), k);
        lemma_contains_extend_left(first, concat_map(tf.aliases@, table_function_alias_line_fn(tf)), table_function_alias_line(tf.aliases@[k], tf));
        lemma_contains_trans(table_functions_rs_text(plan), block, table_function_alias_line(tf.aliases@[k], tf));
    }
}


/// Sanitising yields a name of the same length made only of ASCII
/// letters, digits and `-`, and sanitising it again changes nothing.
pub proof fn law_sanitize_shape(s: Seq<char>)
    ensures
        dashed(s).len() == s.len(),
        forall|k: int| 0 <= k < s.len() ==> is_ascii_alnum(#[trigger] dashed(s)[k]) || dashed(s)[k] == '-',
        forall|k: int| 0 <= k < s.len() ==> is_ascii_alnum(#[trigger] s[k]) ==> dashed(s)[k] == s[k],
        dashed(dashed(s)) == dashed(s),
{
    assert(dashed(dashed(s)) =~= dashed(s));
}

/// A set override variable decides the WIT directory lookup alone:
/// what the `$HOME` and relative candidates are does not matter.
pub proof fn law_override_decides_alone(
    source: WitSource,
    value: Seq<char>,
    override_is_dir: bool,
    home1: Option<bool>,
    relative1: bool,
    home2: Option<bool>,
    relative2: bool,
)
    ensures
        pick_result(source, Some(value), override_is_dir, home1, relative1) == pick_result(
            source,
            Some(value),
            override_is_dir,
            home2,
            relative2,
        ),
{
}

/// Without an override, an existing `$HOME` candidate wins over the
/// relative one, and the lookup fails only when neither exists.
pub proof fn law_lookup_order(source: WitSource, home: Option<bool>, relative: bool)
    ensures
        home == Some(true) ==> pick_result(source, None, false, home, relative) == Ok::<
            WitDirPick,
            Seq<char>,
        >(WitDirPick::Home),
        pick_result(source, None, false, home, relative) is Err <==> (home != Some(true)
            && !relative),
{
}

/// The crate-level files depend on the plan only through the name of
/// its primary extension: two plans whose first extensions share a
/// name (or that both have none) give the same `Cargo.toml`,
/// `src/registry.rs`, world choice and wasm crate name.
pub proof fn law_primary_name_decides_crate_files(p1: BridgePlan, p2: BridgePlan)
    requires
        primary_name(p1) == primary_name(p2),
    ensures
        cargo_toml_text(p1) == cargo_toml_text(p2),
        registry_rs_text(p1) == registry_rs_text(p2),
        world_wit_result(p1) == world_wit_result(p2),
        wasm_crate_name(p1) == wasm_crate_name(p2),
{
}

/// The generated `Cargo.toml` names the package `<stem>-sqlite-bridge`
/// and the library `<stem>_sqlite_bridge`, and builds the library as a
/// `cdylib` and an `rlib`.
pub proof fn law_cargo_toml_names(plan: BridgePlan)
    ensures
        contains_text(cargo_toml_text(plan), "name = \""@ + crate_stem(plan) + "-sqlite-bridge\"\n"@),
        contains_text(cargo_toml_text(plan), "name = \""@ + crate_stem(plan) + "_sqlite_bridge\"\n"@),
        contains_text(cargo_toml_text(plan), CRATE_TYPE_LINE@),
{
    let c = crate_stem(plan);
    let p = package_name_line(c);
    let l = lib_name_line(c);
    let ct = CRATE_TYPE_LINE@;
    assert forall|a: Seq<char>, b: Seq<char>, n: Seq<char>| contains_text(a, n) implies #[trigger] contains_text(a + b, n) by {
        lemma_contains_extend_right(a, b, n);
    }
    let before_l = CARGO_TOML_0@ + p + CARGO_TOML_1@ + c + CARGO_TOML_2@;
    lemma_contains_self(p);
    lemma_contains_extend_left(CARGO_TOML_0@, p, p);
    lemma_contains_self(l);
    lemma_contains_extend_left(before_l, l, l);
    lemma_contains_self(ct);
    lemma_contains_extend_left(before_l + l, ct, ct);
    assert(cargo_toml_text(plan) == before_l + l + ct + CARGO_TOML_3@);
}

/// The native and the wasm-component crates are named from the same
/// stem: `<stem>-sqlite-bridge` in the native `Cargo.toml`,
/// `<stem>-sqlink-bridge` for the wasm component.
pub proof fn law_crate_names_share_stem(plan: BridgePlan)
    ensures
        contains_text(cargo_toml_text(plan), "name = \""@ + crate_stem(plan) + "-sqlite-bridge\"\n"@),
        wasm_crate_name(plan) == crate_stem(plan) + "-sqlink-bridge"@,
{
    law_cargo_toml_names(plan);
}


/// Position of a SQL name in the dispatch table, `-1` when absent.
spec fn registry_position(n: Seq<char>) -> int {
    if n == "st_geomfromtext"@ {
        0
    } else if n == "st_astext"@ {
        1
    } else if n == "st_asewkt"@ {
        2
    } else if n == "st_asgeojson"@ {
        3
    } else if n == "st_distance"@ {
        4
    } else if n == "st_x"@ {
        5
    } else if n == "st_y"@ {
        6
    } else if n == "st_xmin"@ {
        7
    } else if n == "st_xmax"@ {
        8
    } else if n == "st_ymin"@ {
        9
    } else if n == "st_ymax"@ {
        10
    } else if n == "st_area"@ {
        11
    } else if n == "st_length"@ {
        12
    } else if n == "st_perimeter"@ {
        13
    } else if n == "st_makepoint"@ {
        14
    } else if n == "st_geomfromewkt"@ {
        15
    } else if n == "st_npoints"@ {
        16
    } else if n == "st_numgeometries"@ {
        17
    } else if n == "st_isempty"@ {
        18
    } else if n == "st_centroid"@ {
        19
    } else {
        -1
    }
}

/// The SQL names of the dispatch table are pairwise distinct, so no
/// emitted match arm shadows another.
pub proof fn law_registry_names_distinct()
    ensures
        forall|a: int, b: int|
            0 <= a < b < registry_table().len() ==> #[trigger] registry_table()[a].sql_name@
                != #[trigger] registry_table()[b].sql_name@,
{
    let t = registry_table();
    assert forall|k: int| 0 <= k < t.len() implies registry_position(#[trigger] t[k].sql_name@) == k by {
        reveal_strlit("st_geomfromtext");
        reveal_strlit("st_astext");
        reveal_strlit("st_asewkt");
        reveal_strlit("st_asgeojson");
        reveal_strlit("st_distance");
        reveal_strlit("st_x");
        reveal_strlit("st_y");
        reveal_strlit("st_xmin");
        reveal_strlit("st_xmax");
        reveal_strlit("st_ymin");
        reveal_strlit("st_ymax");
        reveal_strlit("st_area");
        reveal_strlit("st_length");
        reveal_strlit("st_perimeter");
        reveal_strlit("st_makepoint");
        reveal_strlit("st_geomfromewkt");
        reveal_strlit("st_npoints");
        reveal_strlit("st_numgeometries");
        reveal_strlit("st_isempty");
        reveal_strlit("st_centroid");
        if k == 0 {
            assert(t[0].sql_name@ == "st_geomfromtext"@);
            assert(registry_position("st_geomfromtext"@) == 0);
        } else if k == 1 {
            assert(t[1].sql_name@ == "st_astext"@);
            assert("st_astext"@.len() != "st_geomfromtext"@.len());
            assert(registry_position("st_astext"@) == 1);
        } else if k == 2 {
            assert(t[2].sql_name@ == "st_asewkt"@);
            assert("st_asewkt"@.len() != "st_geomfromtext"@.len());
            assert("st_asewkt"@[5] != "st_astext"@[5]);
            assert(registry_position("st_asewkt"@) == 2);
        } else if k == 3 {
            assert(t[3].sql_name@ == "st_asgeojson"@);
            assert("st_asgeojson"@.len() != "st_geomfromtext"@.len());
            assert("st_asgeojson"@.len() != "st_astext"@.len());
            assert("st_asgeojson"@.len() != "st_asewkt"@.len());
            assert(registry_position("st_asgeojson"@) == 3);
        } else if k == 4 {
            assert(t[4].sql_name@ == "st_distance"@);
            assert("st_distance"@.len() != "st_geomfromtext"@.len());
            assert("st_distance"@.len() != "st_astext"@.len());
            assert("st_distance"@.len() != "st_asewkt"@.len());
            assert("st_distance"@.len() != "st_asgeojson"@.len());
            assert(registry_position("st_distance"@) == 4);
        } else if k == 5 {
            assert(t[5].sql_name@ == "st_x"@);
            assert("st_x"@.len() != "st_geomfromtext"@.len());
            assert("st_x"@.len() != "st_astext"@.len());
            assert("st_x"@.len() != "st_asewkt"@.len());
            assert("st_x"@.len() != "st_asgeojson"@.len());
            assert("st_x"@.len() != "st_distance"@.len());
            assert(registry_position("st_x"@) == 5);
        } else if k == 6 {
            assert(t[6].sql_name@ == "st_y"@);
            assert("st_y"@.len() != "st_geomfromtext"@.len());
            assert("st_y"@.len() != "st_astext"@.len());
            assert("st_y"@.len() != "st_asewkt"@.len());
            assert("st_y"@.len() != "st_asgeojson"@.len());
            assert("st_y"@.len() != "st_distance"@.len());
            assert("st_y"@[3] != "st_x"@[3]);
            assert(registry_position("st_y"@) == 6);
        } else if k == 7 {
            assert(t[7].sql_name@ == "st_xmin"@);
            assert("st_xmin"@.len() != "st_geomfromtext"@.len());
            assert("st_xmin"@.len() != "st_astext"@.len());
            assert("st_xmin"@.len() != "st_asewkt"@.len());
            assert("st_xmin"@.len() != "st_asgeojson"@.len());
            assert("st_xmin"@.len() != "st_distance"@.len());
            assert("st_xmin"@.len() != "st_x"@.len());
            assert("st_xmin"@.len() != "st_y"@.len());
            assert(registry_position("st_xmin"@) == 7);
        } else if k == 8 {
            assert(t[8].sql_name@ == "st_xmax"@);
            assert("st_xmax"@.len() != "st_geomfromtext"@.len());
            assert("st_xmax"@.len() != "st_astext"@.len());
            assert("st_xmax"@.len() != "st_asewkt"@.len());
            assert("st_xmax"@.len() != "st_asgeojson"@.len());
            assert("st_xmax"@.len() != "st_distance"@.len());
            assert("st_xmax"@.len() != "st_x"@.len());
            assert("st_xmax"@.len() != "st_y"@.len());
            assert("st_xmax"@[5] != "st_xmin"@[5]);
            assert(registry_position("st_xmax"@) == 8);
        } else if k == 9 {
            assert(t[9].sql_name@ == "st_ymin"@);
            assert("st_ymin"@.len() != "st_geomfromtext"@.len());
            assert("st_ymin"@.len() != "st_astext"@.len());
            assert("st_ymin"@.len() != "st_asewkt"@.len());
            assert("st_ymin"@.len() != "st_asgeojson"@.len());
            assert("st_ymin"@.len() != "st_distance"@.len());
            assert("st_ymin"@.len() != "st_x"@.len());
            assert("st_ymin"@.len() != "st_y"@.len());
            assert("st_ymin"@[3] != "st_xmin"@[3]);
            assert("st_ymin"@[3] != "st_xmax"@[3]);
            assert(registry_position("st_ymin"@) == 9);
        } else if k == 10 {
            assert(t[10].sql_name@ == "st_ymax"@);
            assert("st_ymax"@.len() != "st_geomfromtext"@.len());
            assert("st_ymax"@.len() != "st_astext"@.len());
            assert("st_ymax"@.len() != "st_asewkt"@.len());
            assert("st_ymax"@.len() != "st_asgeojson"@.len());
            assert("st_ymax"@.len() != "st_distance"@.len());
            assert("st_ymax"@.len() != "st_x"@.len());
            assert("st_ymax"@.len() != "st_y"@.len());
            assert("st_ymax"@[3] != "st_xmin"@[3]);
            assert("st_ymax"@[3] != "st_xmax"@[3]);
            assert("st_ymax"@[5] != "st_ymin"@[5]);
            assert(registry_position("st_ymax"@) == 10);
        } else if k == 11 {
            assert(t[11].sql_name@ == "st_area"@);
            assert("st_area"@.len() != "st_geomfromtext"@.len());
            assert("st_area"@.len() != "st_astext"@.len());
            assert("st_area"@.len() != "st_asewkt"@.len());
            assert("st_area"@.len() != "st_asgeojson"@.len());
            assert("st_area"@.len() != "st_distance"@.len());
            assert("st_area"@.len() != "st_x"@.len());
            assert("st_area"@.len() != "st_y"@.len());
            assert("st_area"@[3] != "st_xmin"@[3]);
            assert("st_area"@[3] != "st_xmax"@[3]);
            assert("st_area"@[3] != "st_ymin"@[3]);
            assert("st_area"@[3] != "st_ymax"@[3]);
            assert(registry_position("st_area"@) == 11);
        } else if k == 12 {
            assert(t[12].sql_name@ == "st_length"@);
            assert("st_length"@.len() != "st_geomfromtext"@.len());
            assert("st_length"@[3] != "st_astext"@[3]);
            assert("st_length"@[3] != "st_asewkt"@[3]);
            assert("st_length"@.len() != "st_asgeojson"@.len());
            assert("st_length"@.len() != "st_distance"@.len());
            assert("st_length"@.len() != "st_x"@.len());
            assert("st_length"@.len() != "st_y"@.len());
            assert("st_length"@.len() != "st_xmin"@.len());
            assert("st_length"@.len() != "st_xmax"@.len());
            assert("st_length"@.len() != "st_ymin"@.len());
            assert("st_length"@.len() != "st_ymax"@.len());
            assert("st_length"@.len() != "st_area"@.len());
            assert(registry_position("st_length"@) == 12);
        } else if k == 13 {
            assert(t[13].sql_name@ == "st_perimeter"@);
            assert("st_perimeter"@.len() != "st_geomfromtext"@.len());
            assert("st_perimeter"@.len() != "st_astext"@.len());
            assert("st_perimeter"@.len() != "st_asewkt"@.len());
            assert("st_perimeter"@[3] != "st_asgeojson"@[3]);
            assert("st_perimeter"@.len() != "st_distance"@.len());
            assert("st_perimeter"@.len() != "st_x"@.len());
            assert("st_perimeter"@.len() != "st_y"@.len());
            assert("st_perimeter"@.len() != "st_xmin"@.len());
            assert("st_perimeter"@.len() != "st_xmax"@.len());
            assert("st_perimeter"@.len() != "st_ymin"@.len());
            assert("st_perimeter"@.len() != "st_ymax"@.len());
            assert("st_perimeter"@.len() != "st_area"@.len());
            assert("st_perimeter"@.len() != "st_length"@.len());
            assert(registry_position("st_perimeter"@) == 13);
        } else if k == 14 {
            assert(t[14].sql_name@ == "st_makepoint"@);
            assert("st_makepoint"@.len() != "st_geomfromtext"@.len());
            assert("st_makepoint"@.len() != "st_astext"@.len());
            assert("st_makepoint"@.len() != "st_asewkt"@.len());
            assert("st_makepoint"@[3] != "st_asgeojson"@[3]);
            assert("st_makepoint"@.len() != "st_distance"@.len());
            assert("st_makepoint"@.len() != "st_x"@.len());
            assert("st_makepoint"@.len() != "st_y"@.len());
            assert("st_makepoint"@.len() != "st_xmin"@.len());
            assert("st_makepoint"@.len() != "st_xmax"@.len());
            assert("st_makepoint"@.len() != "st_ymin"@.len());
            assert("st_makepoint"@.len() != "st_ymax"@.len());
            assert("st_makepoint"@.len() != "st_area"@.len());
            assert("st_makepoint"@.len() != "st_length"@.len());
            assert("st_makepoint"@[3] != "st_perimeter"@[3]);
            assert(registry_position("st_makepoint"@) == 14);
        } else if k == 15 {
            assert(t[15].sql_name@ == "st_geomfromewkt"@);
            assert("st_geomfromewkt"@[11] != "st_geomfromtext"@[11]);
            assert("st_geomfromewkt"@.len() != "st_astext"@.len());
            assert("st_geomfromewkt"@.len() != "st_asewkt"@.len());
            assert("st_geomfromewkt"@.len() != "st_asgeojson"@.len());
            assert("st_geomfromewkt"@.len() != "st_distance"@.len());
            assert("st_geomfromewkt"@.len() != "st_x"@.len());
            assert("st_geomfromewkt"@.len() != "st_y"@.len());
            assert("st_geomfromewkt"@.len() != "st_xmin"@.len());
            assert("st_geomfromewkt"@.len() != "st_xmax"@.len());
            assert("st_geomfromewkt"@.len() != "st_ymin"@.len());
            assert("st_geomfromewkt"@.len() != "st_ymax"@.len());
            assert("st_geomfromewkt"@.len() != "st_area"@.len());
            assert("st_geomfromewkt"@.len() != "st_length"@.len());
            assert("st_geomfromewkt"@.len() != "st_perimeter"@.len());
            assert("st_geomfromewkt"@.len() != "st_makepoint"@.len());
            assert(registry_position("st_geomfromewkt"@) == 15);
        } else if k == 16 {
            assert(t[16].sql_name@ == "st_npoints"@);
            assert("st_npoints"@.len() != "st_geomfromtext"@.len());
            assert("st_npoints"@.len() != "st_astext"@.len());
            assert("st_npoints"@.len() != "st_asewkt"@.len());
            assert("st_npoints"@.len() != "st_asgeojson"@.len());
            assert("st_npoints"@.len() != "st_distance"@.len());
            assert("st_npoints"@.len() != "st_x"@.len());
            assert("st_npoints"@.len() != "st_y"@.len());
            assert("st_npoints"@.len() != "st_xmin"@.len());
            assert("st_npoints"@.len() != "st_xmax"@.len());
            assert("st_npoints"@.len() != "st_ymin"@.len());
            assert("st_npoints"@.len() != "st_ymax"@.len());
            assert("st_npoints"@.len() != "st_area"@.len());
            assert("st_npoints"@.len() != "st_length"@.len());
            assert("st_npoints"@.len() != "st_perimeter"@.len());
            assert("st_npoints"@.len() != "st_makepoint"@.len());
            assert("st_npoints"@.len() != "st_geomfromewkt"@.len());
            assert(registry_position("st_npoints"@) == 16);
        } else if k == 17 {
            assert(t[17].sql_name@ == "st_numgeometries"@);
            assert("st_numgeometries"@.len() != "st_geomfromtext"@.len());
            assert("st_numgeometries"@.len() != "st_astext"@.len());
            assert("st_numgeometries"@.len() != "st_asewkt"@.len());
            assert("st_numgeometries"@.len() != "st_asgeojson"@.len());
            assert("st_numgeometries"@.len() != "st_distance"@.len());
            assert("st_numgeometries"@.len() != "st_x"@.len());
            assert("st_numgeometries"@.len() != "st_y"@.len());
            assert("st_numgeometries"@.len() != "st_xmin"@.len());
            assert("st_numgeometries"@.len() != "st_xmax"@.len());
            assert("st_numgeometries"@.len() != "st_ymin"@.len());
            assert("st_numgeometries"@.len() != "st_ymax"@.len());
            assert("st_numgeometries"@.len() != "st_area"@.len());
            assert("st_numgeometries"@.len() != "st_length"@.len());
            assert("st_numgeometries"@.len() != "st_perimeter"@.len());
            assert("st_numgeometries"@.len() != "st_makepoint"@.len());
            assert("st_numgeometries"@.len() != "st_geomfromewkt"@.len());
            assert("st_numgeometries"@.len() != "st_npoints"@.len());
            assert(registry_position("st_numgeometries"@) == 17);
        } else if k == 18 {
            assert(t[18].sql_name@ == "st_isempty"@);
            assert("st_isempty"@.len() != "st_geomfromtext"@.len());
            assert("st_isempty"@.len() != "st_astext"@.len());
            assert("st_isempty"@.len() != "st_asewkt"@.len());
            assert("st_isempty"@.len() != "st_asgeojson"@.len());
            assert("st_isempty"@.len() != "st_distance"@.len());
            assert("st_isempty"@.len() != "st_x"@.len());
            assert("st_isempty"@.len() != "st_y"@.len());
            assert("st_isempty"@.len() != "st_xmin"@.len());
            assert("st_isempty"@.len() != "st_xmax"@.len());
            assert("st_isempty"@.len() != "st_ymin"@.len());
            assert("st_isempty"@.len() != "st_ymax"@.len());
            assert("st_isempty"@.len() != "st_area"@.len());
            assert("st_isempty"@.len() != "st_length"@.len());
            assert("st_isempty"@.len() != "st_perimeter"@.len());
            assert("st_isempty"@.len() != "st_makepoint"@.len());
            assert("st_isempty"@.len() != "st_geomfromewkt"@.len());
            assert("st_isempty"@[3] != "st_npoints"@[3]);
            assert("st_isempty"@.len() != "st_numgeometries"@.len());
            assert(registry_position("st_isempty"@) == 18);
        } else if k == 19 {
            assert(t[19].sql_name@ == "st_centroid"@);
            assert("st_centroid"@.len() != "st_geomfromtext"@.len());
            assert("st_centroid"@.len() != "st_astext"@.len());
            assert("st_centroid"@.len() != "st_asewkt"@.len());
            assert("st_centroid"@.len() != "st_asgeojson"@.len());
            assert("st_centroid"@[3] != "st_distance"@[3]);
            assert("st_centroid"@.len() != "st_x"@.len());
            assert("st_centroid"@.len() != "st_y"@.len());
            assert("st_centroid"@.len() != "st_xmin"@.len());
            assert("st_centroid"@.len() != "st_xmax"@.len());
            assert("st_centroid"@.len() != "st_ymin"@.len());
            assert("st_centroid"@.len() != "st_ymax"@.len());
            assert("st_centroid"@.len() != "st_area"@.len());
            assert("st_centroid"@.len() != "st_length"@.len());
            assert("st_centroid"@.len() != "st_perimeter"@.len());
            assert("st_centroid"@.len() != "st_makepoint"@.len());
            assert("st_centroid"@.len() != "st_geomfromewkt"@.len());
            assert("st_centroid"@.len() != "st_npoints"@.len());
            assert("st_centroid"@.len() != "st_numgeometries"@.len());
            assert("st_centroid"@.len() != "st_isempty"@.len());
            assert(registry_position("st_centroid"@) == 19);
        }
    }
}


proof fn lemma_contains_in_middle(a: Seq<char>, b: Seq<char>, c: Seq<char>, n: Seq<char>)
    requires
        contains_text(b, n),
    ensures
        contains_text(a + b + c, n),
{
    lemma_contains_extend_left(a, b, n);
    lemma_contains_extend_right(a + b, c, n);
}

/// A line of item `j` of extension `i` occurs in the concatenation
/// over all extensions, when each extension's text is `head(e)`
/// followed by the concatenation of its items' lines.
proof fn lemma_item_in_all<T>(
    exts: Seq<ExtensionPlan>,
    ext_fn: spec_fn(ExtensionPlan) -> Seq<char>,
    i: int,
    head: Seq<char>,
    items: Seq<T>,
    line_fn: spec_fn(T) -> Seq<char>,
    j: int,
)
    requires
        0 <= i < exts.len(),
        0 <= j < items.len(),
        ext_fn(exts[i]) == head + concat_map(items, line_fn),
    ensures
        contains_text(concat_map(exts, ext_fn), line_fn(items[j])),
{
    lemma_concat_map_contains(items, line_fn, j);
    lemma_contains_extend_left(head, concat_map(items, line_fn), line_fn(items[j]));
    lemma_concat_map_contains(exts, ext_fn, i);
    lemma_contains_trans(concat_map(exts, ext_fn), ext_fn(exts[i]), line_fn(items[j]));
}

/// Every window function the plan records appears in the generated listing as
/// its comment line.
pub proof fn law_every_window_function_listed(plan: BridgePlan, i: int, j: int)
    requires
        0 <= i < plan.extensions@.len(),
        0 <= j < plan.extensions@[i].window_functions@.len(),
    ensures
        ({
            let x = plan.extensions@[i].window_functions@[j];
            contains_text(window_functions_rs_text(plan), "// window `"@ + x.canonical_name@ + "`\n"@)
        }),
{
    let x = plan.extensions@[i].window_functions@[j];
    let line = window_line_fn()(x);
    assert(extension_window_lines_fn()(plan.extensions@[i]) =~= seq![] + concat_map(plan.extensions@[i].window_functions@, window_line_fn()));
    lemma_item_in_all(plan.extensions@, extension_window_lines_fn(), i, seq![], plan.extensions@[i].window_functions@, window_line_fn(), j);
    lemma_contains_in_middle(GENERATED_HEADER@ + WINDOW_FUNCTIONS_HEAD@, concat_map(plan.extensions@, extension_window_lines_fn()), WINDOW_FUNCTIONS_TAIL@, line);
}

/// Every column type the plan records appears in the generated listing as
/// its listing line.
pub proof fn law_every_column_type_listed(plan: BridgePlan, i: int, j: int)
    requires
        0 <= i < plan.extensions@.len(),
        0 <= j < plan.extensions@[i].column_types@.len(),
    ensures
        ({
            let x = plan.extensions@[i].column_types@[j];
            contains_text(types_rs_text(plan), column_type_line(x))
        }),
{
    let x = plan.extensions@[i].column_types@[j];
    let line = column_type_line_fn()(x);
    assert(extension_column_types_fn()(plan.extensions@[i]) =~= seq![] + concat_map(plan.extensions@[i].column_types@, column_type_line_fn()));
    lemma_item_in_all(plan.extensions@, extension_column_types_fn(), i, seq![], plan.extensions@[i].column_types@, column_type_line_fn(), j);
    lemma_contains_in_middle(GENERATED_HEADER@ + TYPES_HEAD@, concat_map(plan.extensions@, extension_column_types_fn()), TYPES_TAIL@, line);
}

/// Every operator the plan records appears in the generated listing as
/// its listing line.
pub proof fn law_every_operator_listed(plan: BridgePlan, i: int, j: int)
    requires
        0 <= i < plan.extensions@.len(),
        0 <= j < plan.extensions@[i].operators@.len(),
    ensures
        ({
            let x = plan.extensions@[i].operators@[j];
            contains_text(operators_rs_text(plan), operator_line(x))
        }),
{
    let x = plan.extensions@[i].operators@[j];
    let line = operator_line_fn()(x);
    lemma_item_in_all(plan.extensions@, extension_operators_fn(), i, extension_heading(plan.extensions@[i]), plan.extensions@[i].operators@, operator_line_fn(), j);
    lemma_contains_extend_left(GENERATED_HEADER@ + OPERATORS_HEAD@, concat_map(plan.extensions@, extension_operators_fn()), line);
}

/// Every cast rewrite the plan records appears in the generated listing as
/// its listing line.
pub proof fn law_every_cast_listed(plan: BridgePlan, i: int, j: int)
    requires
        0 <= i < plan.extensions@.len(),
        0 <= j < plan.extensions@[i].cast_rewrites@.len(),
    ensures
        ({
            let x = plan.extensions@[i].cast_rewrites@[j];
            contains_text(casts_rs_text(plan), cast_line(x))
        }),
{
    let x = plan.extensions@[i].cast_rewrites@[j];
    let line = cast_line_fn()(x);
    lemma_item_in_all(plan.extensions@, extension_casts_fn(), i, extension_heading(plan.extensions@[i]), plan.extensions@[i].cast_rewrites@, cast_line_fn(), j);
    lemma_contains_extend_left(GENERATED_HEADER@ + CASTS_HEAD@, concat_map(plan.extensions@, extension_casts_fn()), line);
}

/// Every preprocessor pattern the plan records appears in the generated listing as
/// its listing line.
pub proof fn law_every_preprocessor_listed(plan: BridgePlan, i: int, j: int)
    requires
        0 <= i < plan.extensions@.len(),
        0 <= j < plan.extensions@[i].preprocessor_patterns@.len(),
    ensures
        ({
            let x = plan.extensions@[i].preprocessor_patterns@[j];
            contains_text(preprocessors_rs_text(plan), preprocessor_line(x))
        }),
{
    let x = plan.extensions@[i].preprocessor_patterns@[j];
    let line = preprocessor_line_fn()(x);
    lemma_item_in_all(plan.extensions@, extension_preprocessors_fn(), i, extension_heading(plan.extensions@[i]), plan.extensions@[i].preprocessor_patterns@, preprocessor_line_fn(), j);
    lemma_contains_extend_left(GENERATED_HEADER@ + PREPROCESSORS_HEAD@, concat_map(plan.extensions@, extension_preprocessors_fn()), line);
}

/// Every spatial index the plan records appears in the generated listing as
/// its listing line.
pub proof fn law_every_spatial_index_listed(plan: BridgePlan, i: int, j: int)
    requires
        0 <= i < plan.extensions@.len(),
        0 <= j < plan.extensions@[i].spatial_indexes@.len(),
    ensures
        ({
            let x = plan.extensions@[i].spatial_indexes@[j];
            contains_text(spatial_indexes_rs_text(plan), spatial_index_line(x))
        }),
{
    let x = plan.extensions@[i].spatial_indexes@[j];
    let line = spatial_index_line_fn()(x);
    assert(extension_spatial_indexes_fn()(plan.extensions@[i]) =~= seq![] + concat_map(plan.extensions@[i].spatial_indexes@, spatial_index_line_fn()));
    lemma_item_in_all(plan.extensions@, extension_spatial_indexes_fn(), i, seq![], plan.extensions@[i].spatial_indexes@, spatial_index_line_fn(), j);
    lemma_contains_in_middle(GENERATED_HEADER@ + SPATIAL_INDEXES_HEAD@, concat_map(plan.extensions@, extension_spatial_indexes_fn()), SPATIAL_INDEXES_TAIL@, line);
}

/// Every column of every system-catalog table the plan records
/// appears in the generated listing as its column line, and every
/// table as its heading line.
pub proof fn law_every_catalog_column_listed(plan: BridgePlan, i: int, j: int, k: int)
    requires
        0 <= i < plan.extensions@.len(),
        0 <= j < plan.extensions@[i].system_catalog_tables@.len(),
        0 <= k < plan.extensions@[i].system_catalog_tables@[j].columns@.len(),
    ensures
        ({
            let t = plan.extensions@[i].system_catalog_tables@[j];
            &&& contains_text(
                system_catalog_rs_text(plan),
                "// catalog `"@ + t.catalog_name@ + "."@ + t.table_name@ + "`\n"@,
            )
            &&& contains_text(system_catalog_rs_text(plan), catalog_column_line(t.columns@[k]))
        }),
{
    let e = plan.extensions@[i];
    let t = e.system_catalog_tables@[j];
    let heading = "// catalog `"@ + t.catalog_name@ + "."@ + t.table_name@ + "`\n"@;
    let col = catalog_column_line(t.columns@[k]);
    assert(extension_catalog_fn()(e) =~= seq![] + concat_map(e.system_catalog_tables@, catalog_table_lines_fn()));
    let all = concat_map(plan.extensions@, extension_catalog_fn());
    // The table's block occurs in the file.
    lemma_item_in_all(plan.extensions@, extension_catalog_fn(), i, seq![], e.system_catalog_tables@, catalog_table_lines_fn(), j);
    let block = catalog_table_lines(t);
    lemma_contains_in_middle(GENERATED_HEADER@ + SYSTEM_CATALOG_HEAD@, all, SYSTEM_CATALOG_TAIL@, block);
    let file = system_catalog_rs_text(plan);
    // The heading and the column line occur in the block.
    lemma_contains_self(heading);
    lemma_contains_extend_right(heading, concat_map(t.columns@, catalog_column_line_fn()), heading);
    lemma_contains_trans(file, block, heading);
    lemma_concat_map_contains(t.columns@, catalog_column_line_fn(), k);
    lemma_contains_extend_left(heading, concat_map(t.columns@, catalog_column_line_fn()), col);
    lemma_contains_trans(file, block, col);
}


/// `s` holds no newline character.
pub open spec fn no_newline(s: Seq<char>) -> bool {
    forall|k: int| 0 <= k < s.len() ==> s[k] != '\n'
}

/// `t` starts with `p`, and so does the text after each newline of `t`.
pub open spec fn lines_start_with(t: Seq<char>, p: Seq<char>) -> bool {
    &&& starts_with(t, p)
    &&& forall|k: int| 0 <= k < t.len() && t[k] == '\n' ==> starts_with(#[trigger] t.skip(k + 1), p)
}

/// The imported module and function a shape names.
pub open spec fn shape_names(shape: DispatchShape) -> (Seq<char>, Seq<char>) {
    match shape {
        DispatchShape::TextToGeomResult { wit_module, wit_func } => (wit_module@, wit_func@),
        DispatchShape::GeomToString { wit_module, wit_func } => (wit_module@, wit_func@),
        DispatchShape::GeomToStringResult { wit_module, wit_func } => (wit_module@, wit_func@),
        DispatchShape::GeomToF64Result { wit_module, wit_func } => (wit_module@, wit_func@),
        DispatchShape::GeomGeomToF64Result { wit_module, wit_func } => (wit_module@, wit_func@),
        DispatchShape::GeomToU32 { wit_module, wit_func } => (wit_module@, wit_func@),
        DispatchShape::GeomToBool { wit_module, wit_func } => (wit_module@, wit_func@),
        DispatchShape::F64F64ToGeom { wit_module, wit_func } => (wit_module@, wit_func@),
        DispatchShape::GeomToGeomResult { wit_module, wit_func } => (wit_module@, wit_func@),
    }
}

proof fn lemma_no_newline_concat(a: Seq<char>, b: Seq<char>)
    requires
        no_newline(a),
        no_newline(b),
    ensures
        no_newline(a + b),
{
    assert forall|k: int| 0 <= k < (a + b).len() implies (a + b)[k] != '\n' by {
        if k < a.len() {
            assert((a + b)[k] == a[k]);
        } else {
            assert((a + b)[k] == b[k - a.len()]);
        }
    }
}

proof fn lemma_join_lines(lines: Seq<Seq<char>>, p: Seq<char>)
    requires
        lines.len() > 0,
        no_newline(p),
        forall|k: int| 0 <= k < lines.len() ==> no_newline(#[trigger] lines[k]),
    ensures
        lines_start_with(join_map(lines, indented_line_fn(p), "\n"@), p),
    decreases lines.len(),
{
    reveal_strlit("\n");
    let f = indented_line_fn(p);
    let nl = "\n"@;
    let last = p + lines.last();
    lemma_no_newline_concat(p, lines.last());
    assert(last.take(p.len() as int) =~= p);
    if lines.len() == 1 {
        assert(join_map(lines, f, nl) == last);
    } else {
        let rest = lines.drop_last();
        assert forall|k: int| 0 <= k < rest.len() implies no_newline(#[trigger] rest[k]) by {
            assert(rest[k] == lines[k]);
        }
        lemma_join_lines(rest, p);
        let t = join_map(rest, f, nl);
        let whole = t + nl + last;
        assert(join_map(lines, f, nl) == whole);
        assert(whole.take(p.len() as int) =~= t.take(p.len() as int));
        assert forall|k: int| 0 <= k < whole.len() && whole[k] == '\n' implies starts_with(#[trigger] whole.skip(k + 1), p) by {
            if k < t.len() {
                assert(whole[k] == t[k]);
                assert(starts_with(t.skip(k + 1), p));
                assert(whole.skip(k + 1).take(p.len() as int) =~= t.skip(k + 1).take(p.len() as int));
            } else if k == t.len() {
                assert(whole.skip(k + 1) =~= last);
            } else {
                assert(whole[k] == last[k - t.len() - 1]);
            }
        }
    }
}

/// No line of an arm holds a newline when the SQL name and the names
/// the shape imports hold none.
proof fn lemma_arm_lines_single(shape: DispatchShape, sql_name: Seq<char>)
    requires
        no_newline(sql_name),
        no_newline(shape_names(shape).0),
        no_newline(shape_names(shape).1),
    ensures
        forall|k: int| 0 <= k < arm_lines(shape, sql_name).len() ==> no_newline(#[trigger] arm_lines(shape, sql_name)[k]),
{
    reveal_strlit("    .map_err(|e| format!(\"");
    assert(no_newline("    .map_err(|e| format!(\""@));
    reveal_strlit("\")?, \"");
    assert(no_newline("\")?, \""@));
    reveal_strlit("\")?;");
    assert(no_newline("\")?;"@));
    reveal_strlit("(&a, &b)");
    assert(no_newline("(&a, &b)"@));
    reveal_strlit("(&g)");
    assert(no_newline("(&g)"@));
    reveal_strlit("(&g) as i64))");
    assert(no_newline("(&g) as i64))"@));
    reveal_strlit("(&g)))");
    assert(no_newline("(&g)))"@));
    reveal_strlit("(wkt)");
    assert(no_newline("(wkt)"@));
    reveal_strlit("(x, y).as_wkb()))");
    assert(no_newline("(x, y).as_wkb()))"@));
    reveal_strlit(": {}\", postgis_err_string(e)))?;");
    assert(no_newline(": {}\", postgis_err_string(e)))?;"@));
    reveal_strlit("::");
    assert(no_newline("::"@));
    reveal_strlit("Ok(SqlValue::Blob(");
    assert(no_newline("Ok(SqlValue::Blob("@));
    reveal_strlit("Ok(SqlValue::Blob(g.as_wkb()))");
    assert(no_newline("Ok(SqlValue::Blob(g.as_wkb()))"@));
    reveal_strlit("Ok(SqlValue::Blob(r.as_wkb()))");
    assert(no_newline("Ok(SqlValue::Blob(r.as_wkb()))"@));
    reveal_strlit("Ok(SqlValue::Integer(");
    assert(no_newline("Ok(SqlValue::Integer("@));
    reveal_strlit("Ok(SqlValue::Real(r))");
    assert(no_newline("Ok(SqlValue::Real(r))"@));
    reveal_strlit("Ok(SqlValue::Text(");
    assert(no_newline("Ok(SqlValue::Text("@));
    reveal_strlit("Ok(SqlValue::Text(s))");
    assert(no_newline("Ok(SqlValue::Text(s))"@));
    reveal_strlit("let a = from_wkb(arg_blob(&args, 0, \"");
    assert(no_newline("let a = from_wkb(arg_blob(&args, 0, \""@));
    reveal_strlit("let b = from_wkb(arg_blob(&args, 1, \"");
    assert(no_newline("let b = from_wkb(arg_blob(&args, 1, \""@));
    reveal_strlit("let g = ");
    assert(no_newline("let g = "@));
    reveal_strlit("let g = from_wkb(arg_blob(&args, 0, \"");
    assert(no_newline("let g = from_wkb(arg_blob(&args, 0, \""@));
    reveal_strlit("let r = ");
    assert(no_newline("let r = "@));
    reveal_strlit("let s = ");
    assert(no_newline("let s = "@));
    reveal_strlit("let wkt = arg_text(&args, 0, \"");
    assert(no_newline("let wkt = arg_text(&args, 0, \""@));
    reveal_strlit("let x = arg_f64(&args, 0, \"");
    assert(no_newline("let x = arg_f64(&args, 0, \""@));
    reveal_strlit("let y = arg_f64(&args, 1, \"");
    assert(no_newline("let y = arg_f64(&args, 1, \""@));
    assert forall|a: Seq<char>, b: Seq<char>| no_newline(a) && no_newline(b) implies #[trigger] no_newline(a + b) by {
        lemma_no_newline_concat(a, b);
    }
    let lines = arm_lines(shape, sql_name);
    assert forall|k: int| 0 <= k < lines.len() implies no_newline(#[trigger] lines[k]) by {
    }
}

/// Every line of an emitted match arm starts with the arm indent,
/// provided the indent, the SQL name and the names the shape imports
/// hold no newline.
pub proof fn law_arm_lines_indented(shape: DispatchShape, sql_name: Seq<char>, indent: Seq<char>)
    requires
        no_newline(sql_name),
        no_newline(indent),
        no_newline(shape_names(shape).0),
        no_newline(shape_names(shape).1),
    ensures
        lines_start_with(arm_body_text(shape, sql_name, indent), indent),
{
    lemma_arm_lines_single(shape, sql_name);
    lemma_join_lines(arm_lines(shape, sql_name), indent);
}

} // verus!
