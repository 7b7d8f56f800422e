//! Generate a SQLite extension that bridges a DataFission shim
//! into SQLite as native functions / aggregates / types /
//! operators.
//!
//! The library computes every generated file from a [`plan::BridgePlan`]
//! and states each text exactly; reading the interface database,
//! writing files and running `rustfmt` is the caller's part.

mod counts;
pub mod emit;
pub mod laws;
pub mod plan;
pub mod text;
pub mod wasm_target;

use vstd::prelude::*;

use emit::crate_files::{cargo_toml_text, lib_rs_text, readme_text, registry_rs_text};
use emit::functions::{
    aggregates_rs_text, scalars_rs_text, table_functions_rs_text, total_aggregate_aliases,
    total_aggregates, total_scalar_aliases, total_scalars, total_table_function_aliases,
    total_table_functions, window_functions_rs_text,
};
use emit::listings::{
    casts_rs_text, operators_rs_text, preprocessors_rs_text, spatial_indexes_rs_text,
    system_catalog_rs_text, types_rs_text,
};
use counts::{kind_counts_fit, CountedKind};
use plan::BridgePlan;

verus! {

/// Which output shape to produce.
#[derive(Clone, Copy, Debug, PartialEq, Eq)]
pub enum Target {
    /// A native `cdylib` crate that embeds the shim loader.
    NativeDylib,
    /// A `cdylib` crate for `wasm32-wasip2` that imports the shim's WIT.
    WasmComponent,
}

/// One file of the generated crate: its path relative to the output
/// directory, its text, and whether it is Rust source (which the
/// caller runs through `rustfmt`).
pub struct GeneratedFile {
    pub path: String,
    pub contents: String,
    pub is_rust: bool,
}

/// The plan holds at most `i32::MAX` canonical names and at most
/// `i32::MAX` aliases of each function kind that the registration
/// emitters count.
pub open spec fn counts_fit(plan: BridgePlan) -> bool {
    &&& total_scalars(plan) <= i32::MAX
    &&& total_scalar_aliases(plan) <= i32::MAX
    &&& total_aggregates(plan) <= i32::MAX
    &&& total_aggregate_aliases(plan) <= i32::MAX
    &&& total_table_functions(plan) <= i32::MAX
    &&& total_table_function_aliases(plan) <= i32::MAX
}

/// The paths of the native bridge crate, in the order they are
/// written.
pub open spec fn bridge_paths() -> Seq<Seq<char>> {
    seq![
        "Cargo.toml"@,
        "src/lib.rs"@,
        "src/registry.rs"@,
        "src/scalars.rs"@,
        "src/aggregates.rs"@,
        "src/table_functions.rs"@,
        "src/window_functions.rs"@,
        "src/types.rs"@,
        "src/operators.rs"@,
        "src/casts.rs"@,
        "src/preprocessors.rs"@,
        "src/system_catalog.rs"@,
        "src/spatial_indexes.rs"@,
        "README.md"@,
    ]
}

/// The texts of the native bridge crate, in the order of
/// [`bridge_paths`].
pub open spec fn bridge_texts(plan: BridgePlan) -> Seq<Seq<char>> {
    seq![
        cargo_toml_text(plan),
        lib_rs_text(plan),
        registry_rs_text(plan),
        scalars_rs_text(plan),
        aggregates_rs_text(plan),
        table_functions_rs_text(plan),
        window_functions_rs_text(plan),
        types_rs_text(plan),
        operators_rs_text(plan),
        casts_rs_text(plan),
        preprocessors_rs_text(plan),
        system_catalog_rs_text(plan),
        spatial_indexes_rs_text(plan),
        readme_text(plan),
    ]
}

fn file(path: &str, contents: String, is_rust: bool) -> (r: GeneratedFile)
    ensures
        r.path@ == path@,
        r.contents == contents,
        r.is_rust == is_rust,
{
    GeneratedFile { path: String::from_str(path), contents, is_rust }
}

/// Every file of the native bridge crate: `Cargo.toml`, the twelve
/// Rust sources, `README.md`. Only the Rust sources are marked for
/// `rustfmt`.
#[verifier::rlimit(40)]
pub fn bridge_files(plan: &BridgePlan) -> (r: Vec<GeneratedFile>)
    requires
        counts_fit(*plan),
    ensures
        r@.len() == bridge_paths().len(),
        forall|k: int| 0 <= k < r@.len() ==> {
            &&& #[trigger] r@[k].path@ == bridge_paths()[k]
            &&& r@[k].contents@ == bridge_texts(*plan)[k]
            &&& r@[k].is_rust == (0 < k < bridge_paths().len() - 1)
        },
{
    let mut v: Vec<GeneratedFile> = Vec::new();
    v.push(file("Cargo.toml", emit::cargo_toml(plan), false));
    v.push(file("src/lib.rs", emit::lib_rs(plan), true));
    v.push(file("src/registry.rs", emit::registry_rs(plan), true));
    v.push(file("src/scalars.rs", emit::scalars_rs(plan), true));
    v.push(file("src/aggregates.rs", emit::aggregates_rs(plan), true));
    v.push(file("src/table_functions.rs", emit::table_functions_rs(plan), true));
    v.push(file("src/window_functions.rs", emit::window_functions_rs(plan), true));
    v.push(file("src/types.rs", emit::types_rs(plan), true));
    v.push(file("src/operators.rs", emit::operators_rs(plan), true));
    v.push(file("src/casts.rs", emit::casts_rs(plan), true));
    v.push(file("src/preprocessors.rs", emit::preprocessors_rs(plan), true));
    v.push(file("src/system_catalog.rs", emit::system_catalog_rs(plan), true));
    v.push(file("src/spatial_indexes.rs", emit::spatial_indexes_rs(plan), true));
    v.push(file("README.md", emit::readme(plan), false));
    proof {
        assert forall|k: int| 0 <= k < v@.len() implies {
            &&& #[trigger] v@[k].path@ == bridge_paths()[k]
            &&& v@[k].contents@ == bridge_texts(*plan)[k]
            &&& v@[k].is_rust == (0 < k < bridge_paths().len() - 1)
        } by {
            if k == 0 {} else if k == 1 {} else if k == 2 {} else if k == 3 {} else if k == 4 {}
            else if k == 5 {} else if k == 6 {} else if k == 7 {} else if k == 8 {}
            else if k == 9 {} else if k == 10 {} else if k == 11 {} else if k == 12 {} else {}
        }
    }
    v
}


/// Whether the plan meets [`counts_fit`], the bound the registration
/// emitters and [`bridge_files`] need.
pub fn plan_counts_fit(plan: &BridgePlan) -> (r: bool)
    ensures
        r == counts_fit(*plan),
{
    kind_counts_fit(plan, CountedKind::Scalar) && kind_counts_fit(plan, CountedKind::Aggregate)
        && kind_counts_fit(plan, CountedKind::TableFunction)
}

} // verus!
