//! Emitters for the crate-level files: `Cargo.toml`, `src/lib.rs`,
//! `src/registry.rs` and `README.md`.

use vstd::prelude::*;

use super::templates::{
    CARGO_TOML_0, CARGO_TOML_1, CARGO_TOML_2, CARGO_TOML_3, CRATE_TYPE_LINE, GENERATED_HEADER, LIB_RS_BODY,
    LIB_RS_DOC, LIB_RS_MODULES,
    README_INTRO, README_LEAD, README_TABLE_HEAD, README_TABLE_RULE, README_TAIL_0, README_TAIL_1,
    README_TAIL_2, README_TAIL_3, README_TAIL_4, README_TAIL_5, README_TAIL_6, README_TAIL_7,
    REGISTRY_RS_0, REGISTRY_RS_1, REGISTRY_RS_2, REGISTRY_RS_3,
};
use super::{crate_stem, generated_header, primary_extension_name, primary_name, sanitize_crate_name};
use crate::plan::{BridgePlan, ExtensionPlan};
use crate::text::{
    join_map, lemma_concat_map_step, lemma_join_map_step, map_char, nat_decimal, push_u64,
    replace_char, to_uppercase, uppercase_text, concat_map,
};

verus! {

/// The package name line of the generated `Cargo.toml`.
pub open spec fn package_name_line(c: Seq<char>) -> Seq<char> {
    "name = \""@ + c + "-sqlite-bridge\"\n"@
}

/// The library name line of the generated `Cargo.toml`.
pub open spec fn lib_name_line(c: Seq<char>) -> Seq<char> {
    "name = \""@ + c + "_sqlite_bridge\"\n"@
}

/// `Cargo.toml` of the generated crate: the fixed manifest with the
/// crate stem spliced into the package name (`<stem>-sqlite-bridge`),
/// the description and the library name.
pub open spec fn cargo_toml_text(plan: BridgePlan) -> Seq<char> {
    let c = crate_stem(plan);
    CARGO_TOML_0@ + package_name_line(c) + CARGO_TOML_1@ + c + CARGO_TOML_2@ + lib_name_line(c)
        + CRATE_TYPE_LINE@ + CARGO_TOML_3@
}

/// The generated crate's `Cargo.toml`.
pub fn cargo_toml(plan: &BridgePlan) -> (r: String)
    ensures
        r@ == cargo_toml_text(*plan),
{
    let crate_name = sanitize_crate_name(primary_extension_name(plan).as_str());
    let mut s = String::from_str(CARGO_TOML_0);
    s.append("name = \"");
    s.append(crate_name.as_str());
    s.append("-sqlite-bridge\"\n");
    s.append(CARGO_TOML_1);
    s.append(crate_name.as_str());
    s.append(CARGO_TOML_2);
    s.append("name = \"");
    s.append(crate_name.as_str());
    s.append("_sqlite_bridge\"\n");
    s.append(CRATE_TYPE_LINE);
    s.append(CARGO_TOML_3);
    s
}

/// One summary line of an extension: its name, version and the size
/// of each of its ten surfaces.
pub open spec fn extension_summary(e: ExtensionPlan) -> Seq<char> {
    "//   - "@ + e.name@ + " v"@ + e.version@ + "  ("@
        + nat_decimal(e.scalars@.len()) + " scalars, "@
        + nat_decimal(e.aggregates@.len()) + " agg, "@
        + nat_decimal(e.table_functions@.len()) + " udtf, "@
        + nat_decimal(e.window_functions@.len()) + " window, "@
        + nat_decimal(e.column_types@.len()) + " types, "@
        + nat_decimal(e.operators@.len()) + " ops, "@
        + nat_decimal(e.cast_rewrites@.len()) + " casts, "@
        + nat_decimal(e.preprocessor_patterns@.len()) + " preps, "@
        + nat_decimal(e.system_catalog_tables@.len()) + " catalog, "@
        + nat_decimal(e.spatial_indexes@.len()) + " indexes)"@
}

/// [`extension_summary`] as a function value.
pub open spec fn extension_summary_fn() -> spec_fn(ExtensionPlan) -> Seq<char> {
    |e: ExtensionPlan| extension_summary(e)
}

/// The modules of the generated crate besides its root, in the order
/// `src/lib.rs` declares them and their files are written.
pub open spec fn bridge_modules() -> Seq<Seq<char>> {
    seq![
        "registry"@,
        "scalars"@,
        "aggregates"@,
        "table_functions"@,
        "window_functions"@,
        "types"@,
        "operators"@,
        "casts"@,
        "preprocessors"@,
        "system_catalog"@,
        "spatial_indexes"@,
    ]
}

/// The declaration of a module in `src/lib.rs`.
pub open spec fn module_decl_fn() -> spec_fn(Seq<char>) -> Seq<char> {
    |m: Seq<char>| "pub mod "@ + m + ";\n"@
}

/// The module declarations of the generated `src/lib.rs`, one line per
/// module of [`bridge_modules`].
pub proof fn lemma_module_block()
    ensures
        LIB_RS_MODULES@ == concat_map(bridge_modules(), module_decl_fn()),
{
    reveal_strlit("pub mod registry;\npub mod scalars;\npub mod aggregates;\npub mod table_functions;\npub mod window_functions;\npub mod types;\npub mod operators;\npub mod casts;\npub mod preprocessors;\npub mod system_catalog;\npub mod spatial_indexes;\n");
    reveal_strlit("pub mod ");
    reveal_strlit(";\n");
    reveal_strlit("registry");
    reveal_strlit("scalars");
    reveal_strlit("aggregates");
    reveal_strlit("table_functions");
    reveal_strlit("window_functions");
    reveal_strlit("types");
    reveal_strlit("operators");
    reveal_strlit("casts");
    reveal_strlit("preprocessors");
    reveal_strlit("system_catalog");
    reveal_strlit("spatial_indexes");
    reveal_with_fuel(concat_map, 12);
    assert(LIB_RS_MODULES@ =~= concat_map(bridge_modules(), module_decl_fn()));
}

/// `src/lib.rs` of the generated crate: header, crate documentation,
/// a `pub mod` line for each of [`bridge_modules`], the entry point,
/// then one summary comment line per extension.
pub open spec fn lib_rs_text(plan: BridgePlan) -> Seq<char> {
    GENERATED_HEADER@ + LIB_RS_DOC@ + concat_map(bridge_modules(), module_decl_fn()) + LIB_RS_BODY@
        + "// Extensions loaded by this bridge:\n//\n"@
        + join_map(plan.extensions@, extension_summary_fn(), seq!['\n']) + seq!['\n']
}

fn push_extension_summary(s: &mut String, e: &ExtensionPlan)
    ensures
        final(s)@ == old(s)@ + extension_summary(*e),
{
    let mut t = String::from_str("//   - ");
    t.append(e.name.as_str());
    t.append(" v");
    t.append(e.version.as_str());
    t.append("  (");
    push_u64(&mut t, e.scalars.len() as u64);
    t.append(" scalars, ");
    push_u64(&mut t, e.aggregates.len() as u64);
    t.append(" agg, ");
    push_u64(&mut t, e.table_functions.len() as u64);
    t.append(" udtf, ");
    push_u64(&mut t, e.window_functions.len() as u64);
    t.append(" window, ");
    push_u64(&mut t, e.column_types.len() as u64);
    t.append(" types, ");
    push_u64(&mut t, e.operators.len() as u64);
    t.append(" ops, ");
    push_u64(&mut t, e.cast_rewrites.len() as u64);
    t.append(" casts, ");
    push_u64(&mut t, e.preprocessor_patterns.len() as u64);
    t.append(" preps, ");
    push_u64(&mut t, e.system_catalog_tables.len() as u64);
    t.append(" catalog, ");
    push_u64(&mut t, e.spatial_indexes.len() as u64);
    t.append(" indexes)");
    s.append(t.as_str());
}

/// The generated crate's `src/lib.rs`: entry point and module wiring.
pub fn lib_rs(plan: &BridgePlan) -> (r: String)
    ensures
        r@ == lib_rs_text(*plan),
{
    let mut s = generated_header();
    s.append(LIB_RS_DOC);
    s.append(LIB_RS_MODULES);
    proof {
        lemma_module_block();
    }
    s.append(LIB_RS_BODY);
    s.append("// Extensions loaded by this bridge:\n//\n");
    let ghost start = s@;
    let exts = &plan.extensions;
    let mut i: usize = 0;
    assert(start + join_map(exts@.take(0), extension_summary_fn(), seq!['\n']) =~= start);
    while i < exts.len()
        invariant
            i <= exts.len(),
            s@ == start + join_map(exts@.take(i as int), extension_summary_fn(), seq!['\n']),
        decreases exts.len() - i,
    {
        if i > 0 {
            crate::text::push_char(&mut s, '\n');
        }
        push_extension_summary(&mut s, &exts[i]);
        proof {
            lemma_join_map_step(exts@, extension_summary_fn(), seq!['\n'], i as int);
            assert(s@ =~= start + join_map(exts@.take(i + 1), extension_summary_fn(), seq!['\n']));
        }
        i = i + 1;
    }
    assert(exts@.take(exts@.len() as int) =~= exts@);
    crate::text::push_char(&mut s, '\n');
    s
}

/// Name of the environment variable that points the generated crate
/// at the composed shim: the primary name in upper case with `-`
/// turned into `_`, then `_SHIM_WASM`.
pub open spec fn shim_env_name(plan: BridgePlan) -> Seq<char> {
    map_char(uppercase_text(primary_name(plan)), '-', '_') + "_SHIM_WASM"@
}

fn shim_env_var(plan: &BridgePlan) -> (r: String)
    ensures
        r@ == shim_env_name(*plan),
{
    let upper = to_uppercase(primary_extension_name(plan).as_str());
    let mut s = replace_char(upper.as_str(), '-', '_');
    s.append("_SHIM_WASM");
    s
}

/// The generated call that reads the shim-path variable `env`.
pub open spec fn env_var_call(env: Seq<char>) -> Seq<char> {
    "std::env::var(\""@ + env + "\")"@
}

/// `src/registry.rs` of the generated crate: the fixed shim-loading
/// module with the shim-path variable name spliced in three times.
pub open spec fn registry_rs_text(plan: BridgePlan) -> Seq<char> {
    let env = shim_env_name(plan);
    GENERATED_HEADER@ + REGISTRY_RS_0@ + env + REGISTRY_RS_1@ + env_var_call(env) + REGISTRY_RS_2@
        + env + REGISTRY_RS_3@
}

/// The generated crate's `src/registry.rs`: loads the shim once and
/// looks functions up by name.
pub fn registry_rs(plan: &BridgePlan) -> (r: String)
    ensures
        r@ == registry_rs_text(*plan),
{
    let mut s = generated_header();
    let env_var = shim_env_var(plan);
    s.append(REGISTRY_RS_0);
    s.append(env_var.as_str());
    s.append(REGISTRY_RS_1);
    s.append("std::env::var(\"");
    s.append(env_var.as_str());
    s.append("\")");
    s.append(REGISTRY_RS_2);
    s.append(env_var.as_str());
    s.append(REGISTRY_RS_3);
    s
}

/// One row of the README surface table.
pub open spec fn surface_row(e: ExtensionPlan) -> Seq<char> {
    "| "@ + e.name@ + " | "@ + e.version@
        + " | "@ + nat_decimal(e.scalars@.len())
        + " | "@ + nat_decimal(e.aggregates@.len())
        + " | "@ + nat_decimal(e.table_functions@.len())
        + " | "@ + nat_decimal(e.window_functions@.len())
        + " | "@ + nat_decimal(e.column_types@.len())
        + " | "@ + nat_decimal(e.operators@.len())
        + " | "@ + nat_decimal(e.cast_rewrites@.len())
        + " | "@ + nat_decimal(e.preprocessor_patterns@.len())
        + " | "@ + nat_decimal(e.system_catalog_tables@.len())
        + " | "@ + nat_decimal(e.spatial_indexes@.len()) + " |\n"@
}

/// [`surface_row`] as a function value.
pub open spec fn surface_row_fn() -> spec_fn(ExtensionPlan) -> Seq<char> {
    |e: ExtensionPlan| surface_row(e)
}

/// File name of the built library: `lib`, the crate stem with `-`
/// turned into `_`, then `_sqlite_bridge.dylib`.
pub open spec fn library_file_name(plan: BridgePlan) -> Seq<char> {
    "lib"@ + map_char(crate_stem(plan), '-', '_') + "_sqlite_bridge.dylib"@
}

/// The README line that tells the user to set the shim-path variable
/// `env` before loading.
pub open spec fn load_hint(env: Seq<char>) -> Seq<char> {
    "`"@ + env + "` before `.load`:"@
}

/// `README.md` of the generated crate: title, introduction, the
/// surface table (one row per extension) and the build, load and
/// regeneration sections.
pub open spec fn readme_text(plan: BridgePlan) -> Seq<char> {
    let primary = primary_name(plan);
    let env = shim_env_name(plan);
    "# "@ + primary + "-sqlite-bridge\n\n"@
        + "Generated SQLite loadable extension that bridges the **"@ + primary
        + README_LEAD@ + README_INTRO@ + "## Surface\n\n"@ + README_TABLE_HEAD@
        + README_TABLE_RULE@ + concat_map(plan.extensions@, surface_row_fn())
        + README_TAIL_0@ + load_hint(env) + README_TAIL_1@ + env + README_TAIL_2@ + primary
        + README_TAIL_3@ + library_file_name(plan) + README_TAIL_4@ + primary
        + README_TAIL_5@ + primary + README_TAIL_6@ + crate_stem(plan) + README_TAIL_7@
}

fn push_surface_row(s: &mut String, e: &ExtensionPlan)
    ensures
        final(s)@ == old(s)@ + surface_row(*e),
{
    let mut t = String::from_str("| ");
    t.append(e.name.as_str());
    t.append(" | ");
    t.append(e.version.as_str());
    t.append(" | ");
    push_u64(&mut t, e.scalars.len() as u64);
    t.append(" | ");
    push_u64(&mut t, e.aggregates.len() as u64);
    t.append(" | ");
    push_u64(&mut t, e.table_functions.len() as u64);
    t.append(" | ");
    push_u64(&mut t, e.window_functions.len() as u64);
    t.append(" | ");
    push_u64(&mut t, e.column_types.len() as u64);
    t.append(" | ");
    push_u64(&mut t, e.operators.len() as u64);
    t.append(" | ");
    push_u64(&mut t, e.cast_rewrites.len() as u64);
    t.append(" | ");
    push_u64(&mut t, e.preprocessor_patterns.len() as u64);
    t.append(" | ");
    push_u64(&mut t, e.system_catalog_tables.len() as u64);
    t.append(" | ");
    push_u64(&mut t, e.spatial_indexes.len() as u64);
    t.append(" |\n");
    s.append(t.as_str());
}

/// The generated crate's `README.md`.
pub fn readme(plan: &BridgePlan) -> (r: String)
    ensures
        r@ == readme_text(*plan),
{
    let primary = primary_extension_name(plan);
    let crate_name = sanitize_crate_name(primary.as_str());
    let shim_env = shim_env_var(plan);
    let mut lib_name = String::from_str("lib");
    let underscored = replace_char(crate_name.as_str(), '-', '_');
    lib_name.append(underscored.as_str());
    lib_name.append("_sqlite_bridge.dylib");

    let mut s = String::from_str("# ");
    s.append(primary.as_str());
    s.append("-sqlite-bridge\n\n");
    s.append("Generated SQLite loadable extension that bridges the **");
    s.append(primary.as_str());
    s.append(README_LEAD);
    s.append(README_INTRO);
    s.append("## Surface\n\n");
    s.append(README_TABLE_HEAD);
    s.append(README_TABLE_RULE);
    let ghost start = s@;
    let exts = &plan.extensions;
    let mut i: usize = 0;
    assert(start + concat_map(exts@.take(0), surface_row_fn()) =~= start);
    while i < exts.len()
        invariant
            i <= exts.len(),
            s@ == start + concat_map(exts@.take(i as int), surface_row_fn()),
        decreases exts.len() - i,
    {
        push_surface_row(&mut s, &exts[i]);
        proof {
            lemma_concat_map_step(exts@, surface_row_fn(), i as int);
            assert(s@ =~= start + concat_map(exts@.take(i + 1), surface_row_fn()));
        }
        i = i + 1;
    }
    assert(exts@.take(exts@.len() as int) =~= exts@);
    assert(s@ == start + concat_map(exts@, surface_row_fn()));
    s.append(README_TAIL_0);
    s.append("`");
    s.append(shim_env.as_str());
    s.append("` before `.load`:");
    s.append(README_TAIL_1);
    s.append(shim_env.as_str());
    s.append(README_TAIL_2);
    s.append(primary.as_str());
    s.append(README_TAIL_3);
    s.append(lib_name.as_str());
    s.append(README_TAIL_4);
    s.append(primary.as_str());
    s.append(README_TAIL_5);
    s.append(primary.as_str());
    s.append(README_TAIL_6);
    s.append(crate_name.as_str());
    s.append(README_TAIL_7);
    s
}

} // verus!
