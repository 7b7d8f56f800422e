//! Per-kind emit modules. Each returns a finished `String` of
//! Rust source (or Markdown, or TOML) for one file in the generated
//! bridge crate, and states that text exactly over the plan.
//!
//! The emitters are intentionally template-shaped (fixed text with
//! plan values spliced in) so the output shape can be read at a
//! glance.

pub mod crate_files;
pub mod functions;
pub mod listings;
pub mod templates;

pub use crate_files::{cargo_toml, lib_rs, readme, registry_rs};
pub use functions::{aggregates_rs, scalars_rs, table_functions_rs, window_functions_rs};
pub use listings::{
    casts_rs, operators_rs, preprocessors_rs, spatial_indexes_rs, system_catalog_rs, types_rs,
};

use vstd::prelude::*;

use crate::plan::BridgePlan;
use crate::text::{dash_non_alnum, dashed};
use templates::GENERATED_HEADER;

verus! {

/// Name of the primary (first) extension, `shim` when there is none.
pub open spec fn primary_name(plan: BridgePlan) -> Seq<char> {
    if plan.extensions@.len() > 0 {
        plan.extensions@[0].name@
    } else {
        "shim"@
    }
}

/// The crate-name stem: the primary name with every character that
/// is not an ASCII letter or digit turned into `-`.
pub open spec fn crate_stem(plan: BridgePlan) -> Seq<char> {
    dashed(primary_name(plan))
}

/// The first line of every generated Rust file.
pub fn generated_header() -> (r: String)
    ensures
        r@ == GENERATED_HEADER@,
{
    String::from_str(GENERATED_HEADER)
}

/// Replaces every character that is not an ASCII letter or digit
/// with `-`, so the name can stand in a crate name.
pub fn sanitize_crate_name(s: &str) -> (r: String)
    ensures
        r@ == dashed(s@),
{
    dash_non_alnum(s)
}

/// The name of the first extension of the plan, `shim` when the
/// plan has none.
pub fn primary_extension_name(plan: &BridgePlan) -> (r: String)
    ensures
        r@ == primary_name(*plan),
{
    if plan.extensions.len() > 0 {
        plan.extensions[0].name.clone()
    } else {
        String::from_str("shim")
    }
}

} // verus!
