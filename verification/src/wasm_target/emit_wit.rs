//! The WIT world and the WIT source-directory decision for the
//! wasm-component bridge. Writing `wit/world.wit` and copying the
//! vendored `deps/` trees is the caller's part.
//!
//! The world imports the upstream shim's interfaces and exports
//! the canonical `sqlite:extension/*` surface. The vendored
//! `deps/` directory holds the dependency WIT packages that
//! `wit-bindgen::generate!` resolves at build time.
//!
//! ## Where the dep WIT comes from (Phase 1)
//!
//! The hand-written `extensions/postgis-bridge/wit/` directory
//! in the sqlink tree is the source of truth for the import
//! surface (postgis:wasm/*, sfcgal:component/*, sqlite:extension/*).
//! Phase 1 vendors those files verbatim into the generated
//! crate. The generator runs sibling to sqlink, so the path is
//! well-known.
//!
//! Override via `SQLINK_POSTGIS_BRIDGE_WIT_DEPS` if the tree lives
//! elsewhere; otherwise the generator searches
//! `~/git/sqlink/extensions/postgis-bridge/wit/deps/` (the
//! canonical layout).
//!
//! Phase 4+ replaces this vendoring with WIT derived from the
//! interface DB itself. Phase 1 takes the shortcut because the
//! Phase 1 deliverable is "the SHAPE compiles + composes" — the
//! WIT surface is the same surface the hand-written bridge
//! already proved.

use vstd::prelude::*;

use crate::emit::{primary_extension_name, primary_name};
use crate::plan::BridgePlan;

verus! {

/// The error text when no world template exists for the primary
/// shim `other`.
pub open spec fn no_world_message(other: Seq<char>) -> Seq<char> {
    "wasm-component target: no world template for shim '"@ + other
        + "' yet (Phase 1 supports postgis only; see PLAN-codegen-retarget.md Phase 4 for mobilitydb)"@
}

/// The `wit/world.wit` text for a plan: the PostGIS world when the
/// primary extension is `postgis`, otherwise an error naming the
/// primary shim (`shim` when the plan has no extension).
pub open spec fn world_wit_result(plan: BridgePlan) -> Result<Seq<char>, Seq<char>> {
    if primary_name(plan) == "postgis"@ {
        Ok(POSTGIS_WORLD_WIT@)
    } else {
        Err(no_world_message(primary_name(plan)))
    }
}

/// Chooses the `wit/world.wit` text: what `write_world` writes, or
/// the message it fails with.
pub fn world_wit(plan: &BridgePlan) -> (r: Result<&'static str, String>)
    ensures
        match r {
            Ok(w) => world_wit_result(*plan) == Ok::<Seq<char>, Seq<char>>(w@),
            Err(m) => world_wit_result(*plan) == Err::<Seq<char>, Seq<char>>(m@),
        },
{
    let primary = primary_extension_name(plan);
    if primary == String::from_str("postgis") {
        Ok(POSTGIS_WORLD_WIT)
    } else {
        let mut m = String::from_str("wasm-component target: no world template for shim '");
        m.append(primary.as_str());
        m.append("' yet (Phase 1 supports postgis only; see PLAN-codegen-retarget.md Phase 4 for mobilitydb)");
        Err(m)
    }
}

/// Which WIT source tree a directory lookup is for.
#[derive(Clone, Copy, Debug, PartialEq, Eq)]
pub enum WitSource {
    /// The upstream shim packages (postgis-wasm, sfcgal-component).
    ShimDeps,
    /// The host's canonical `sqlite:extension` package.
    HostWit,
}

/// Where a WIT source directory was found.
#[derive(Clone, Copy, Debug, PartialEq, Eq)]
pub enum WitDirPick {
    /// The directory named by the override variable.
    Override,
    /// The conventional checkout under `$HOME`.
    Home,
    /// The conventional sibling checkout relative to the working directory.
    Relative,
}

/// The override variable for a source tree.
pub open spec fn override_var_text(source: WitSource) -> Seq<char> {
    match source {
        WitSource::ShimDeps => "SQLINK_POSTGIS_BRIDGE_WIT_DEPS"@,
        WitSource::HostWit => "SQLINK_LOADER_WIT"@,
    }
}

/// The path below `$HOME` that is tried second.
pub open spec fn home_suffix_text(source: WitSource) -> Seq<char> {
    match source {
        WitSource::ShimDeps => "git/sqlink/extensions/postgis-bridge/wit/deps"@,
        WitSource::HostWit => "git/sqlink/sqlite-loader-wit/wit"@,
    }
}

/// The relative path that is tried last.
pub open spec fn relative_dir_text(source: WitSource) -> Seq<char> {
    match source {
        WitSource::ShimDeps => "../sqlink/extensions/postgis-bridge/wit/deps"@,
        WitSource::HostWit => "../sqlink/sqlite-loader-wit/wit"@,
    }
}

/// The message when no candidate directory exists.
pub open spec fn not_found_text(source: WitSource) -> Seq<char> {
    match source {
        WitSource::ShimDeps => "cannot locate postgis-bridge wit/deps. Set SQLINK_POSTGIS_BRIDGE_WIT_DEPS=/path/to/sqlink/extensions/postgis-bridge/wit/deps"@,
        WitSource::HostWit => "cannot locate sqlite-loader-wit/wit. Set SQLINK_LOADER_WIT=/path/to/sqlink/sqlite-loader-wit/wit"@,
    }
}

/// Name of the variable that overrides the lookup.
pub fn override_var(source: WitSource) -> (r: &'static str)
    ensures
        r@ == override_var_text(source),
{
    match source {
        WitSource::ShimDeps => "SQLINK_POSTGIS_BRIDGE_WIT_DEPS",
        WitSource::HostWit => "SQLINK_LOADER_WIT",
    }
}

/// The path below `$HOME` that is tried when no override is set.
pub fn home_suffix(source: WitSource) -> (r: &'static str)
    ensures
        r@ == home_suffix_text(source),
{
    match source {
        WitSource::ShimDeps => "git/sqlink/extensions/postgis-bridge/wit/deps",
        WitSource::HostWit => "git/sqlink/sqlite-loader-wit/wit",
    }
}

/// The path relative to the working directory that is tried last.
pub fn relative_dir(source: WitSource) -> (r: &'static str)
    ensures
        r@ == relative_dir_text(source),
{
    match source {
        WitSource::ShimDeps => "../sqlink/extensions/postgis-bridge/wit/deps",
        WitSource::HostWit => "../sqlink/sqlite-loader-wit/wit",
    }
}

/// The packages copied from the shim tree into `wit/deps/`, in order.
pub open spec fn shim_dep_packages_text() -> Seq<Seq<char>> {
    seq!["postgis-wasm"@, "sfcgal-component"@]
}

/// The packages that `wit/deps/` takes from the shim tree, each
/// copied under its own name.
pub fn shim_dep_packages() -> (r: Vec<&'static str>)
    ensures
        r@.len() == shim_dep_packages_text().len(),
        forall|i: int| 0 <= i < r@.len() ==> (#[trigger] r@[i])@ == shim_dep_packages_text()[i],
{
    let r = vec!["postgis-wasm", "sfcgal-component"];
    assert(r@[0]@ == shim_dep_packages_text()[0]);
    assert(r@[1]@ == shim_dep_packages_text()[1]);
    r
}

/// The directory under `wit/deps/` that receives the host's WIT tree.
pub fn host_dep_package() -> (r: &'static str)
    ensures
        r@ == "sqlite-extension"@,
{
    "sqlite-extension"
}

/// The text of an optional string.
pub open spec fn text_option(o: Option<String>) -> Option<Seq<char>> {
    match o {
        Some(v) => Some(v@),
        None => None,
    }
}

/// The resolution order for a WIT source directory, given what the
/// environment holds and which candidates are directories: an
/// override that is set decides alone (its directory, or an error
/// naming it); otherwise the `$HOME` candidate, then the relative
/// one; otherwise the not-found message.
pub open spec fn pick_result(
    source: WitSource,
    override_value: Option<Seq<char>>,
    override_is_dir: bool,
    home_is_dir: Option<bool>,
    relative_is_dir: bool,
) -> Result<WitDirPick, Seq<char>> {
    match override_value {
        Some(v) => if override_is_dir {
            Ok(WitDirPick::Override)
        } else {
            Err(override_var_text(source) + "="@ + v + " does not exist"@)
        },
        None => if home_is_dir == Some(true) {
            Ok(WitDirPick::Home)
        } else if relative_is_dir {
            Ok(WitDirPick::Relative)
        } else {
            Err(not_found_text(source))
        },
    }
}

/// Decides where a WIT source directory comes from.
/// `override_value` is the override variable's value when it is set,
/// `override_is_dir` whether that value names a directory,
/// `home_is_dir` whether the `$HOME` candidate is a directory (`None`
/// when `HOME` is unset), `relative_is_dir` whether the relative
/// candidate is one.
pub fn pick_wit_dir(
    source: WitSource,
    override_value: Option<String>,
    override_is_dir: bool,
    home_is_dir: Option<bool>,
    relative_is_dir: bool,
) -> (r: Result<WitDirPick, String>)
    ensures
        match r {
            Ok(p) => pick_result(
                source,
                text_option(override_value),
                override_is_dir,
                home_is_dir,
                relative_is_dir,
            ) == Ok::<WitDirPick, Seq<char>>(p),
            Err(m) => pick_result(
                source,
                text_option(override_value),
                override_is_dir,
                home_is_dir,
                relative_is_dir,
            ) == Err::<WitDirPick, Seq<char>>(m@),
        },
{
    match override_value {
        Some(v) => {
            if override_is_dir {
                Ok(WitDirPick::Override)
            } else {
                let mut m = String::from_str(override_var(source));
                m.append("=");
                m.append(v.as_str());
                m.append(" does not exist");
                Err(m)
            }
        },
        None => {
            let home_found = match home_is_dir {
                Some(b) => b,
                None => false,
            };
            if home_found {
                Ok(WitDirPick::Home)
            } else if relative_is_dir {
                Ok(WitDirPick::Relative)
            } else {
                match source {
                    WitSource::ShimDeps => Err(String::from_str("cannot locate postgis-bridge wit/deps. Set SQLINK_POSTGIS_BRIDGE_WIT_DEPS=/path/to/sqlink/extensions/postgis-bridge/wit/deps")),
                    WitSource::HostWit => Err(String::from_str("cannot locate sqlite-loader-wit/wit. Set SQLINK_LOADER_WIT=/path/to/sqlink/sqlite-loader-wit/wit")),
                }
            }
        },
    }
}

/// PostGIS world.wit. Mirrors the hand-written bridge's world
/// minus the topology imports (those aren't used by stubs and
/// dropping them shrinks the compose surface). Exports the
/// metadata + scalar + aggregate + vtab quartet so the host's
/// `Minimal::instantiate_async` describe-call resolves and the
/// extended worlds work once Phase 2 turns the stubs into real
/// dispatchers.
pub const POSTGIS_WORLD_WIT: &'static str = r##"package sqlink-bridge:postgis@0.1.0;

/// Generated by sqlink-shim-codegen (Phase 1, target=wasm-component).
/// Bridges postgis-wasm's spatial functions onto the canonical
/// `sqlite:extension/*` contract. Same import surface as the
/// hand-written `extensions/postgis-bridge/wit/world.wit` in
/// sqlink; same export surface so the host's load path sees a
/// drop-in component.
world bridge {
    import postgis:wasm/postgis-types@0.1.0;
    import postgis:wasm/postgis-constructors@0.1.0;
    import postgis:wasm/postgis-accessors@0.1.0;
    import postgis:wasm/postgis-measurements@0.1.0;
    import postgis:wasm/postgis-predicates@0.1.0;
    import postgis:wasm/postgis-processing@0.1.0;
    import postgis:wasm/postgis-output@0.1.0;
    import postgis:wasm/postgis-transformations@0.1.0;
    import postgis:wasm/postgis-aggregates@0.1.0;
    import postgis:wasm/postgis-clustering@0.1.0;
    import postgis:wasm/postgis-spatial-index@0.1.0;
    import postgis:wasm/postgis-linear-ref@0.1.0;
    import postgis:wasm/postgis-three-d@0.1.0;
    import postgis:wasm/postgis-geodetic@0.1.0;
    import postgis:wasm/postgis-sfcgal@0.1.0;
    import postgis:wasm/postgis-raster-types@0.1.0;
    import postgis:wasm/postgis-raster-constructors@0.1.0;
    import postgis:wasm/postgis-raster-accessors@0.1.0;
    import postgis:wasm/postgis-raster-stats@0.1.0;
    import postgis:wasm/postgis-raster-mapalgebra@0.1.0;
    import postgis:wasm/postgis-raster-pixels@0.1.0;
    import postgis:wasm/postgis-raster-output@0.1.0;
    import postgis:wasm/postgis-raster-vector@0.1.0;
    import postgis:wasm/postgis-raster-predicates@0.1.0;
    import postgis:wasm/postgis-raster-processing@0.1.0;
    import postgis:wasm/postgis-raster-aggregates@0.1.0;
    import postgis:wasm/postgis-operators@0.1.0;
    import postgis:wasm/postgis-geocoder@0.1.0;
    import postgis:wasm/postgis-topology-types@0.1.0;
    import postgis:wasm/postgis-topology-output@0.1.0;
    import postgis:wasm/postgis-topology-edit@0.1.0;
    import postgis:wasm/postgis-topology-query@0.1.0;
    import postgis:wasm/postgis-topology-topogeom@0.1.0;

    import sfcgal:component/geometry@1.0.0;
    import sfcgal:component/io@1.0.0;

    import sqlite:extension/types@0.1.0;
    import sqlite:extension/spi@0.1.0;
    import sqlite:extension/logging@0.1.0;
    import sqlite:extension/config@0.1.0;
    import sqlite:extension/state@0.1.0;
    import sqlite:extension/cache@0.1.0;

    export sqlite:extension/metadata@0.1.0;
    export sqlite:extension/scalar-function@0.1.0;
    export sqlite:extension/aggregate-function@0.1.0;
    export sqlite:extension/vtab@0.1.0;
}
"##;

} // verus!
