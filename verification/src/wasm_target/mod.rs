//! `--target wasm-component` emitter: the pieces that compute.
//!
//! The target produces a Rust crate compilable for `wasm32-wasip2`
//! as a `cdylib`. The component imports the upstream shim's WIT
//! interfaces and exports the canonical `sqlite:extension/minimal`
//! shape contract (metadata + scalar-function + aggregate-function
//! + vtab). This module holds the crate name, the WIT world choice,
//! the WIT source-directory decision and the scalar dispatch table;
//! writing files and copying WIT trees is done by the caller.

pub mod dispatch;
pub mod emit_wit;

use vstd::prelude::*;

use crate::emit::{crate_stem, primary_extension_name};
use crate::plan::BridgePlan;
use crate::text::{dash_non_alnum, dashed};

verus! {

/// The wasm-component crate name: the crate stem of the primary
/// extension, then `-sqlink-bridge`.
pub open spec fn wasm_crate_name(plan: BridgePlan) -> Seq<char> {
    crate_stem(plan) + "-sqlink-bridge"@
}

/// Compose the crate name from the primary extension. PostGIS
/// becomes `postgis-sqlink-bridge`; the `-sqlink-` segment
/// disambiguates the wasm-component bridges from the existing
/// native-dylib `postgis-sqlite-bridge` crate.
pub fn crate_name_for(plan: &BridgePlan) -> (r: String)
    ensures
        r@ == wasm_crate_name(*plan),
{
    let primary = primary_extension_name(plan);
    let mut s = sanitize(primary.as_str());
    s.append("-sqlink-bridge");
    s
}

/// Every character that is not an ASCII letter or digit becomes `-`.
pub fn sanitize(s: &str) -> (r: String)
    ensures
        r@ == dashed(s@),
{
    dash_non_alnum(s)
}

} // verus!
