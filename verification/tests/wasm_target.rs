//! Checks of the wasm-component pieces: the dispatch table, the
//! match-arm bodies, the crate name, the WIT world and the WIT
//! directory lookup.

use sqlink_shim_codegen::plan::{BridgePlan, ExtensionPlan};
use sqlink_shim_codegen::wasm_target::dispatch::{emit_arm_body, registry, DispatchShape};
use sqlink_shim_codegen::wasm_target::emit_wit::{
    home_suffix, host_dep_package, override_var, pick_wit_dir, relative_dir, shim_dep_packages,
    world_wit, WitDirPick, WitSource, POSTGIS_WORLD_WIT,
};
use sqlink_shim_codegen::wasm_target::{crate_name_for, sanitize};

fn expected_arm_body(shape: &DispatchShape, sql_name: &str, arm_indent: &str) -> String {
    match shape {
        DispatchShape::TextToGeomResult { wit_module, wit_func } => format!(
            "{i}let wkt = arg_text(&args, 0, \"{sql_name}\")?;\n\
             {i}let g = {wit_module}::{wit_func}(wkt)\n\
             {i}    .map_err(|e| format!(\"{sql_name}: {{}}\", postgis_err_string(e)))?;\n\
             {i}Ok(SqlValue::Blob(g.as_wkb()))",
            i = arm_indent,
            wit_module = wit_module,
            wit_func = wit_func,
            sql_name = sql_name,
        ),
        DispatchShape::GeomToString { wit_module, wit_func } => format!(
            "{i}let g = from_wkb(arg_blob(&args, 0, \"{sql_name}\")?, \"{sql_name}\")?;\n\
             {i}Ok(SqlValue::Text({wit_module}::{wit_func}(&g)))",
            i = arm_indent,
            wit_module = wit_module,
            wit_func = wit_func,
            sql_name = sql_name,
        ),
        DispatchShape::GeomToStringResult { wit_module, wit_func } => format!(
            "{i}let g = from_wkb(arg_blob(&args, 0, \"{sql_name}\")?, \"{sql_name}\")?;\n\
             {i}let s = {wit_module}::{wit_func}(&g)\n\
             {i}    .map_err(|e| format!(\"{sql_name}: {{}}\", postgis_err_string(e)))?;\n\
             {i}Ok(SqlValue::Text(s))",
            i = arm_indent,
            wit_module = wit_module,
            wit_func = wit_func,
            sql_name = sql_name,
        ),
        DispatchShape::GeomToF64Result { wit_module, wit_func } => format!(
            "{i}let g = from_wkb(arg_blob(&args, 0, \"{sql_name}\")?, \"{sql_name}\")?;\n\
             {i}let r = {wit_module}::{wit_func}(&g)\n\
             {i}    .map_err(|e| format!(\"{sql_name}: {{}}\", postgis_err_string(e)))?;\n\
             {i}Ok(SqlValue::Real(r))",
            i = arm_indent,
            wit_module = wit_module,
            wit_func = wit_func,
            sql_name = sql_name,
        ),
        DispatchShape::GeomGeomToF64Result { wit_module, wit_func } => format!(
            "{i}let a = from_wkb(arg_blob(&args, 0, \"{sql_name}\")?, \"{sql_name}\")?;\n\
             {i}let b = from_wkb(arg_blob(&args, 1, \"{sql_name}\")?, \"{sql_name}\")?;\n\
             {i}let r = {wit_module}::{wit_func}(&a, &b)\n\
             {i}    .map_err(|e| format!(\"{sql_name}: {{}}\", postgis_err_string(e)))?;\n\
             {i}Ok(SqlValue::Real(r))",
            i = arm_indent,
            wit_module = wit_module,
            wit_func = wit_func,
            sql_name = sql_name,
        ),
        DispatchShape::GeomToU32 { wit_module, wit_func } => format!(
            "{i}let g = from_wkb(arg_blob(&args, 0, \"{sql_name}\")?, \"{sql_name}\")?;\n\
             {i}Ok(SqlValue::Integer({wit_module}::{wit_func}(&g) as i64))",
            i = arm_indent,
            wit_module = wit_module,
            wit_func = wit_func,
            sql_name = sql_name,
        ),
        DispatchShape::GeomToBool { wit_module, wit_func } => format!(
            "{i}let g = from_wkb(arg_blob(&args, 0, \"{sql_name}\")?, \"{sql_name}\")?;\n\
             {i}Ok(SqlValue::Integer({wit_module}::{wit_func}(&g) as i64))",
            i = arm_indent,
            wit_module = wit_module,
            wit_func = wit_func,
            sql_name = sql_name,
        ),
        DispatchShape::F64F64ToGeom { wit_module, wit_func } => format!(
            "{i}let x = arg_f64(&args, 0, \"{sql_name}\")?;\n\
             {i}let y = arg_f64(&args, 1, \"{sql_name}\")?;\n\
             {i}Ok(SqlValue::Blob({wit_module}::{wit_func}(x, y).as_wkb()))",
            i = arm_indent,
            wit_module = wit_module,
            wit_func = wit_func,
            sql_name = sql_name,
        ),
        DispatchShape::GeomToGeomResult { wit_module, wit_func } => format!(
            "{i}let g = from_wkb(arg_blob(&args, 0, \"{sql_name}\")?, \"{sql_name}\")?;\n\
             {i}let r = {wit_module}::{wit_func}(&g)\n\
             {i}    .map_err(|e| format!(\"{sql_name}: {{}}\", postgis_err_string(e)))?;\n\
             {i}Ok(SqlValue::Blob(r.as_wkb()))",
            i = arm_indent,
            wit_module = wit_module,
            wit_func = wit_func,
            sql_name = sql_name,
        ),
    }
}

fn plan_named(names: &[&str]) -> BridgePlan {
    BridgePlan {
        extensions: names
            .iter()
            .map(|n| ExtensionPlan {
                name: n.to_string(),
                version: "1".to_string(),
                scalars: vec![],
                aggregates: vec![],
                table_functions: vec![],
                window_functions: vec![],
                column_types: vec![],
                operators: vec![],
                cast_rewrites: vec![],
                preprocessor_patterns: vec![],
                system_catalog_tables: vec![],
                spatial_indexes: vec![],
            })
            .collect(),
    }
}

fn shape_parts(shape: &DispatchShape) -> (&'static str, &'static str, &'static str) {
    match shape {
        DispatchShape::TextToGeomResult { wit_module, wit_func } => ("TextToGeomResult", wit_module, wit_func),
        DispatchShape::GeomToString { wit_module, wit_func } => ("GeomToString", wit_module, wit_func),
        DispatchShape::GeomToStringResult { wit_module, wit_func } => ("GeomToStringResult", wit_module, wit_func),
        DispatchShape::GeomToF64Result { wit_module, wit_func } => ("GeomToF64Result", wit_module, wit_func),
        DispatchShape::GeomGeomToF64Result { wit_module, wit_func } => ("GeomGeomToF64Result", wit_module, wit_func),
        DispatchShape::GeomToU32 { wit_module, wit_func } => ("GeomToU32", wit_module, wit_func),
        DispatchShape::GeomToBool { wit_module, wit_func } => ("GeomToBool", wit_module, wit_func),
        DispatchShape::F64F64ToGeom { wit_module, wit_func } => ("F64F64ToGeom", wit_module, wit_func),
        DispatchShape::GeomToGeomResult { wit_module, wit_func } => ("GeomToGeomResult", wit_module, wit_func),
    }
}

#[test]
fn registry_lists_the_curated_scalars() {
    let table = registry();
    let got: Vec<(&str, &str, &str, &str)> = table
        .iter()
        .map(|e| {
            let (k, m, f) = shape_parts(&e.shape);
            (e.sql_name, k, m, f)
        })
        .collect();
    let want = vec![
        ("st_geomfromtext", "TextToGeomResult", "pg_ctor", "st_geom_from_text"),
        ("st_astext", "GeomToString", "pg_out", "st_as_text"),
        ("st_asewkt", "GeomToString", "pg_out", "st_as_ewkt"),
        ("st_asgeojson", "GeomToString", "pg_out", "st_as_geojson"),
        ("st_distance", "GeomGeomToF64Result", "pg_meas", "st_distance"),
        ("st_x", "GeomToF64Result", "pg_acc", "st_x"),
        ("st_y", "GeomToF64Result", "pg_acc", "st_y"),
        ("st_xmin", "GeomToF64Result", "pg_acc", "st_xmin"),
        ("st_xmax", "GeomToF64Result", "pg_acc", "st_xmax"),
        ("st_ymin", "GeomToF64Result", "pg_acc", "st_ymin"),
        ("st_ymax", "GeomToF64Result", "pg_acc", "st_ymax"),
        ("st_area", "GeomToF64Result", "pg_meas", "st_area"),
        ("st_length", "GeomToF64Result", "pg_meas", "st_length"),
        ("st_perimeter", "GeomToF64Result", "pg_meas", "st_perimeter"),
        ("st_makepoint", "F64F64ToGeom", "pg_ctor", "st_make_point"),
        ("st_geomfromewkt", "TextToGeomResult", "pg_ctor", "st_geom_from_ewkt"),
        ("st_npoints", "GeomToU32", "pg_acc", "st_npoints"),
        ("st_numgeometries", "GeomToU32", "pg_acc", "st_num_geometries"),
        ("st_isempty", "GeomToBool", "pg_pred", "st_is_empty"),
        ("st_centroid", "GeomToGeomResult", "pg_proc", "st_centroid"),
    ];
    assert_eq!(got, want);
}

#[test]
fn registry_sql_names_are_distinct() {
    let table = registry();
    for (a, ea) in table.iter().enumerate() {
        for (b, eb) in table.iter().enumerate() {
            if a != b {
                assert_ne!(ea.sql_name, eb.sql_name);
            }
        }
    }
}

#[test]
fn arm_bodies_match_rendering() {
    let extra = [
        DispatchShape::GeomToStringResult { wit_module: "pg_out", wit_func: "st_as_kml" },
    ];
    for indent in ["", "            ", "\t"] {
        for e in registry() {
            assert_eq!(
                emit_arm_body(&e.shape, e.sql_name, indent),
                expected_arm_body(&e.shape, e.sql_name, indent)
            );
        }
        for shape in extra.iter() {
            assert_eq!(emit_arm_body(shape, "st_askml", indent), expected_arm_body(shape, "st_askml", indent));
        }
    }
}

#[test]
fn arm_body_exact_text() {
    let shape = DispatchShape::GeomToU32 { wit_module: "pg_acc", wit_func: "st_npoints" };
    assert_eq!(
        emit_arm_body(&shape, "st_npoints", "  "),
        "  let g = from_wkb(arg_blob(&args, 0, \"st_npoints\")?, \"st_npoints\")?;\n  Ok(SqlValue::Integer(pg_acc::st_npoints(&g) as i64))"
    );
}

#[test]
fn arm_body_lines_start_with_indent() {
    for e in registry() {
        let body = emit_arm_body(&e.shape, e.sql_name, "        ");
        for line in body.split('\n') {
            assert!(line.starts_with("        "), "{line:?}");
        }
    }
}

#[test]
fn crate_name_for_uses_primary_extension() {
    assert_eq!(crate_name_for(&plan_named(&["postgis", "other"])), "postgis-sqlink-bridge");
    assert_eq!(crate_name_for(&plan_named(&[])), "shim-sqlink-bridge");
    assert_eq!(crate_name_for(&plan_named(&["mobility db.v2"])), "mobility-db-v2-sqlink-bridge");
}

#[test]
fn sanitize_replaces_non_alphanumerics() {
    assert_eq!(sanitize("abc_DEF-09"), "abc-DEF-09");
    assert_eq!(sanitize("é ü"), "---");
    assert_eq!(sanitize(""), "");
    let once = sanitize("weird name!*");
    assert_eq!(sanitize(&once), once);
}

#[test]
fn world_is_the_postgis_template_for_postgis() {
    assert_eq!(world_wit(&plan_named(&["postgis"])), Ok(POSTGIS_WORLD_WIT));
    assert!(POSTGIS_WORLD_WIT.starts_with("package sqlink-bridge:postgis@0.1.0;\n"));
    assert!(POSTGIS_WORLD_WIT.ends_with("    export sqlite:extension/vtab@0.1.0;\n}\n"));
}

#[test]
fn world_fails_for_other_shims() {
    assert_eq!(
        world_wit(&plan_named(&["mobilitydb"])),
        Err("wasm-component target: no world template for shim 'mobilitydb' yet (Phase 1 supports postgis only; see PLAN-codegen-retarget.md Phase 4 for mobilitydb)".to_string())
    );
    assert_eq!(
        world_wit(&plan_named(&[])),
        Err("wasm-component target: no world template for shim 'shim' yet (Phase 1 supports postgis only; see PLAN-codegen-retarget.md Phase 4 for mobilitydb)".to_string())
    );
    assert!(world_wit(&plan_named(&["PostGIS"])).is_err());
}

#[test]
fn wit_lookup_names() {
    assert_eq!(override_var(WitSource::ShimDeps), "SQLINK_POSTGIS_BRIDGE_WIT_DEPS");
    assert_eq!(override_var(WitSource::HostWit), "SQLINK_LOADER_WIT");
    assert_eq!(home_suffix(WitSource::ShimDeps), "git/sqlink/extensions/postgis-bridge/wit/deps");
    assert_eq!(home_suffix(WitSource::HostWit), "git/sqlink/sqlite-loader-wit/wit");
    assert_eq!(relative_dir(WitSource::ShimDeps), "../sqlink/extensions/postgis-bridge/wit/deps");
    assert_eq!(relative_dir(WitSource::HostWit), "../sqlink/sqlite-loader-wit/wit");
}

#[test]
fn wit_lookup_override_decides_alone() {
    for home in [None, Some(false), Some(true)] {
        for rel in [false, true] {
            assert_eq!(
                pick_wit_dir(WitSource::ShimDeps, Some("/x".to_string()), true, home, rel),
                Ok(WitDirPick::Override)
            );
            assert_eq!(
                pick_wit_dir(WitSource::HostWit, Some("/nope".to_string()), false, home, rel),
                Err("SQLINK_LOADER_WIT=/nope does not exist".to_string())
            );
            assert_eq!(
                pick_wit_dir(WitSource::ShimDeps, Some("rel/dir".to_string()), false, home, rel),
                Err("SQLINK_POSTGIS_BRIDGE_WIT_DEPS=rel/dir does not exist".to_string())
            );
        }
    }
}

#[test]
fn wit_lookup_order_without_override() {
    assert_eq!(pick_wit_dir(WitSource::ShimDeps, None, false, Some(true), true), Ok(WitDirPick::Home));
    assert_eq!(pick_wit_dir(WitSource::ShimDeps, None, false, Some(false), true), Ok(WitDirPick::Relative));
    assert_eq!(pick_wit_dir(WitSource::HostWit, None, false, None, true), Ok(WitDirPick::Relative));
    assert_eq!(
        pick_wit_dir(WitSource::ShimDeps, None, false, None, false),
        Err("cannot locate postgis-bridge wit/deps. Set SQLINK_POSTGIS_BRIDGE_WIT_DEPS=/path/to/sqlink/extensions/postgis-bridge/wit/deps".to_string())
    );
    assert_eq!(
        pick_wit_dir(WitSource::HostWit, None, false, Some(false), false),
        Err("cannot locate sqlite-loader-wit/wit. Set SQLINK_LOADER_WIT=/path/to/sqlink/sqlite-loader-wit/wit".to_string())
    );
}

fn layout(shape: &DispatchShape) -> (usize, &'static str, bool) {
    match shape {
        DispatchShape::TextToGeomResult { .. } => (4, "Blob", true),
        DispatchShape::GeomToString { .. } => (2, "Text", false),
        DispatchShape::GeomToStringResult { .. } => (4, "Text", true),
        DispatchShape::GeomToF64Result { .. } => (4, "Real", true),
        DispatchShape::GeomGeomToF64Result { .. } => (5, "Real", true),
        DispatchShape::GeomToU32 { .. } => (2, "Integer", false),
        DispatchShape::GeomToBool { .. } => (2, "Integer", false),
        DispatchShape::F64F64ToGeom { .. } => (3, "Blob", false),
        DispatchShape::GeomToGeomResult { .. } => (4, "Blob", true),
    }
}

#[test]
fn arm_layout_follows_the_shape() {
    let mut shapes: Vec<(DispatchShape, &str)> = registry().iter().map(|e| (clone_shape(&e.shape), e.sql_name)).collect();
    shapes.push((DispatchShape::GeomToStringResult { wit_module: "pg_out", wit_func: "st_as_kml" }, "st_askml"));
    for (shape, name) in shapes.iter() {
        let (_, m, f) = shape_parts(shape);
        let (lines, variant, fallible) = layout(shape);
        for indent in ["", "    ", "\t\t"] {
            let body = emit_arm_body(shape, name, indent);
            assert_eq!(body.split('\n').count(), lines, "{name}");
            assert!(!body.ends_with('\n'));
            let last = body.split('\n').last().unwrap();
            assert!(last.starts_with(&format!("{indent}Ok(SqlValue::{variant}(")), "{last:?}");
            if variant == "Integer" {
                assert!(body.ends_with(" as i64))"));
            }
            assert_eq!(body.matches(&format!("{m}::{f}(")).count(), 1);
            let map_err = format!(".map_err(|e| format!(\"{name}: {{}}\", postgis_err_string(e)))?;");
            if fallible {
                assert_eq!(body.matches(&map_err).count(), 1);
            } else {
                assert!(!body.contains(".map_err("));
            }
        }
    }
}

fn clone_shape(shape: &DispatchShape) -> DispatchShape {
    let (k, m, f) = shape_parts(shape);
    match k {
        "TextToGeomResult" => DispatchShape::TextToGeomResult { wit_module: m, wit_func: f },
        "GeomToString" => DispatchShape::GeomToString { wit_module: m, wit_func: f },
        "GeomToStringResult" => DispatchShape::GeomToStringResult { wit_module: m, wit_func: f },
        "GeomToF64Result" => DispatchShape::GeomToF64Result { wit_module: m, wit_func: f },
        "GeomGeomToF64Result" => DispatchShape::GeomGeomToF64Result { wit_module: m, wit_func: f },
        "GeomToU32" => DispatchShape::GeomToU32 { wit_module: m, wit_func: f },
        "GeomToBool" => DispatchShape::GeomToBool { wit_module: m, wit_func: f },
        "F64F64ToGeom" => DispatchShape::F64F64ToGeom { wit_module: m, wit_func: f },
        _ => DispatchShape::GeomToGeomResult { wit_module: m, wit_func: f },
    }
}

#[test]
fn geomfromewkt_arm_exact_text() {
    let entry = registry().iter().find(|e| e.sql_name == "st_geomfromewkt").unwrap();
    assert_eq!(
        emit_arm_body(&entry.shape, entry.sql_name, "  "),
        "  let wkt = arg_text(&args, 0, \"st_geomfromewkt\")?;\n  let g = pg_ctor::st_geom_from_ewkt(wkt)\n      .map_err(|e| format!(\"st_geomfromewkt: {}\", postgis_err_string(e)))?;\n  Ok(SqlValue::Blob(g.as_wkb()))"
    );
}

#[test]
fn wit_deps_layout() {
    assert_eq!(shim_dep_packages(), vec!["postgis-wasm", "sfcgal-component"]);
    assert_eq!(host_dep_package(), "sqlite-extension");
}

#[test]
fn arm_returns_only_its_variant() {
    for e in registry() {
        let (_, variant, _) = layout(&e.shape);
        let body = emit_arm_body(&e.shape, e.sql_name, "    ");
        for w in ["Blob", "Text", "Real", "Integer"] {
            assert_eq!(body.contains(&format!("SqlValue::{w}(")), w == variant, "{} {w}", e.sql_name);
        }
    }
}

#[test]
fn arm_with_dotted_names_maps_error_once() {
    let shape = DispatchShape::GeomToF64Result { wit_module: "pg.acc", wit_func: "st.x" };
    let body = emit_arm_body(&shape, "st.x", "  ");
    assert_eq!(body.matches(".map_err(").count(), 1);
    assert_eq!(body.matches("pg.acc::st.x(").count(), 1);
}
