//! The library's laws on concrete plans, exact values of the
//! formatting helpers, and the file list of the bridge crate.

use sqlink_shim_codegen::emit;
use sqlink_shim_codegen::emit::functions::arity;
use sqlink_shim_codegen::emit::listings::bracket_list;
use sqlink_shim_codegen::plan::{
    BridgePlan, ColumnTypeInfo, ExtensionPlan, ScalarInfo, TableFunctionInfo,
};
use sqlink_shim_codegen::text::{dash_non_alnum, replace_char};
use sqlink_shim_codegen::wasm_target::crate_name_for;
use sqlink_shim_codegen::{bridge_files, plan_counts_fit, Target};

fn ext(name: &str) -> ExtensionPlan {
    ExtensionPlan {
        name: name.to_string(),
        version: "0.1".to_string(),
        scalars: vec![],
        aggregates: vec![],
        table_functions: vec![],
        window_functions: vec![],
        column_types: vec![],
        operators: vec![],
        cast_rewrites: vec![],
        preprocessor_patterns: vec![],
        system_catalog_tables: vec![],
        spatial_indexes: vec![],
    }
}

fn scalar(name: &str, aliases: &[&str], sigs: &[usize], det: bool) -> ScalarInfo {
    ScalarInfo {
        canonical_name: name.to_string(),
        aliases: aliases.iter().map(|a| a.to_string()).collect(),
        param_signatures: sigs.iter().map(|n| vec!["t".to_string(); *n]).collect(),
        is_deterministic: det,
    }
}

fn rust_files(plan: &BridgePlan) -> Vec<String> {
    vec![
        emit::lib_rs(plan),
        emit::registry_rs(plan),
        emit::scalars_rs(plan),
        emit::aggregates_rs(plan),
        emit::table_functions_rs(plan),
        emit::window_functions_rs(plan),
        emit::types_rs(plan),
        emit::operators_rs(plan),
        emit::casts_rs(plan),
        emit::preprocessors_rs(plan),
        emit::system_catalog_rs(plan),
        emit::spatial_indexes_rs(plan),
    ]
}

#[test]
fn every_rust_file_starts_with_the_header() {
    let header = "// === GENERATED by sqlink-shim-codegen — do not edit by hand ===\n\n";
    for plan in [BridgePlan { extensions: vec![] }, BridgePlan { extensions: vec![ext("postgis")] }] {
        for f in rust_files(&plan) {
            assert!(f.starts_with(header));
        }
    }
}

#[test]
fn shim_variable_agrees_between_registry_and_readme() {
    let plan = BridgePlan { extensions: vec![ext("postgis")] };
    assert!(emit::registry_rs(&plan).contains("std::env::var(\"POSTGIS_SHIM_WASM\")"));
    assert!(emit::readme(&plan).contains("`POSTGIS_SHIM_WASM` before `.load`"));
    let plan = BridgePlan { extensions: vec![ext("mobility-db ß")] };
    assert!(emit::registry_rs(&plan).contains("\"MOBILITY_DB SS_SHIM_WASM\""));
    assert!(emit::readme(&plan).contains("MOBILITY_DB SS_SHIM_WASM=/path/to/mobility-db ß-composed.wasm"));
}

#[test]
fn every_scalar_and_alias_is_registered() {
    let mut e = ext("postgis");
    e.scalars = vec![
        scalar("st_geomfromtext", &["geomfromtext"], &[1, 2], true),
        scalar("st_x", &[], &[1], false),
        scalar("st_makepoint", &["makepoint", "mkpt"], &[2, 2], true),
    ];
    let text = emit::scalars_rs(&BridgePlan { extensions: vec![e] });
    let det = "FunctionFlags::SQLITE_DETERMINISTIC | FunctionFlags::SQLITE_UTF8";
    assert!(text.contains(&format!("    register_scalar(conn, \"st_geomfromtext\", -1, {det})?;\n")));
    assert!(text.contains(&format!(
        "    register_scalar(conn, \"geomfromtext\", -1, {det})?; // alias of st_geomfromtext\n"
    )));
    assert!(text.contains("    register_scalar(conn, \"st_x\", 1, FunctionFlags::SQLITE_UTF8)?;\n"));
    assert!(text.contains(&format!("    register_scalar(conn, \"mkpt\", 2, {det})?; // alias of st_makepoint\n")));
    assert!(text.contains("    // Phase 2: 3 canonical + 3 alias names registered.\n"));
    assert!(!text.contains("(no scalars in this interface DB)"));
}

#[test]
fn empty_plan_notes_missing_functions() {
    let plan = BridgePlan { extensions: vec![ext("postgis")] };
    assert!(emit::scalars_rs(&plan).contains("    // Phase 2: 0 canonical + 0 alias names registered.\n    // (no scalars in this interface DB)\n"));
    assert!(emit::aggregates_rs(&plan).contains("    // Phase 3c: 0 canonical + 0 alias names registered.\n    // (no aggregates in this interface DB)\n"));
    assert!(emit::table_functions_rs(&plan).contains("    // Phase 4c: 0 canonical + 0 alias UDTFs registered.\n    // (no UDTFs in this interface DB)\n"));
}

#[test]
fn arity_is_common_count_or_variadic() {
    let none: Vec<Vec<String>> = vec![];
    assert_eq!(arity(&none), -1);
    assert_eq!(arity(&vec![vec![]]), 0);
    assert_eq!(arity(&vec![vec!["a".to_string(); 3], vec!["b".to_string(); 3]]), 3);
    assert_eq!(arity(&vec![vec!["a".to_string(); 3], vec!["b".to_string(); 2]]), -1);
}

#[test]
fn primary_name_decides_crate_files() {
    let p1 = BridgePlan { extensions: vec![ext("postgis")] };
    let mut other = ext("postgis");
    other.version = "9.9".to_string();
    other.scalars = vec![scalar("st_x", &[], &[1], true)];
    let p2 = BridgePlan { extensions: vec![other, ext("second")] };
    assert_eq!(emit::cargo_toml(&p1), emit::cargo_toml(&p2));
    assert_eq!(emit::registry_rs(&p1), emit::registry_rs(&p2));
    assert_eq!(crate_name_for(&p1), crate_name_for(&p2));
}

#[test]
fn crate_names_share_the_stem() {
    let plan = BridgePlan { extensions: vec![ext("mobility db")] };
    let toml = emit::cargo_toml(&plan);
    assert!(toml.starts_with("[package]\nname = \"mobility-db-sqlite-bridge\"\n"));
    assert!(toml.contains("name = \"mobility-db_sqlite_bridge\"\n"));
    assert_eq!(crate_name_for(&plan), "mobility-db-sqlink-bridge");
    let empty = BridgePlan { extensions: vec![] };
    assert!(emit::cargo_toml(&empty).starts_with("[package]\nname = \"shim-sqlite-bridge\"\n"));
    assert!(emit::readme(&empty).starts_with("# shim-sqlite-bridge\n\n"));
}

#[test]
fn readme_library_name_and_table() {
    let mut e = ext("geo-x");
    e.scalars = vec![scalar("a", &[], &[], true), scalar("b", &[], &[], true)];
    let text = emit::readme(&BridgePlan { extensions: vec![e] });
    assert!(text.contains("target/release/libgeo_x_sqlite_bridge.dylib"));
    assert!(text.contains("| geo-x | 0.1 | 2 | 0 | 0 | 0 | 0 | 0 | 0 | 0 | 0 | 0 |\n"));
    assert!(text.contains("`cargo fmt -p geo-x-sqlite-bridge -- --check`"));
}

#[test]
fn lib_rs_summary_lines() {
    let mut a = ext("a");
    a.scalars = vec![scalar("s", &[], &[], true)];
    let plan = BridgePlan { extensions: vec![a, ext("b")] };
    let text = emit::lib_rs(&plan);
    assert!(text.ends_with(
        "// Extensions loaded by this bridge:\n//\n\
         //   - a v0.1  (1 scalars, 0 agg, 0 udtf, 0 window, 0 types, 0 ops, 0 casts, 0 preps, 0 catalog, 0 indexes)\n\
         //   - b v0.1  (0 scalars, 0 agg, 0 udtf, 0 window, 0 types, 0 ops, 0 casts, 0 preps, 0 catalog, 0 indexes)\n"
    ));
    let empty = emit::lib_rs(&BridgePlan { extensions: vec![] });
    assert!(empty.ends_with("// Extensions loaded by this bridge:\n//\n\n"));
}

#[test]
fn column_type_line_is_padded_and_quoted() {
    let mut e = ext("postgis");
    e.column_types = vec![ColumnTypeInfo {
        type_id: 42,
        name: "geometry".to_string(),
        storage_size: -1,
        cast_from: vec!["te\"xt".to_string(), "bytea".to_string()],
        cast_to: vec![],
    }];
    let text = emit::types_rs(&BridgePlan { extensions: vec![e] });
    assert!(text.contains(
        "// type_id=   42 name=geometry                 size=  -1  cast_from=[\"te\\\"xt\", \"bytea\"]  cast_to=[]\n"
    ));
}

#[test]
fn decimal_counts() {
    let mut e = ext("d");
    e.scalars = (0..10).map(|k| scalar(&format!("s{k}"), &[], &[], true)).collect();
    e.window_functions = vec![];
    let text = emit::lib_rs(&BridgePlan { extensions: vec![e] });
    assert!(text.contains("//   - d v0.1  (10 scalars, 0 agg,"));
    let mut f = ext("d");
    f.spatial_indexes = vec![
        sqlink_shim_codegen::plan::SpatialIndexInfo { name: "min".to_string(), type_id: i64::MIN },
        sqlink_shim_codegen::plan::SpatialIndexInfo { name: "max".to_string(), type_id: i64::MAX },
        sqlink_shim_codegen::plan::SpatialIndexInfo { name: "zero".to_string(), type_id: 0 },
    ];
    let text = emit::spatial_indexes_rs(&BridgePlan { extensions: vec![f] });
    assert!(text.contains(
        "// index `min` type_id=-9223372036854775808\n// index `max` type_id=9223372036854775807\n// index `zero` type_id=0\n"
    ));
}

#[test]
fn character_helpers() {
    assert_eq!(dash_non_alnum("a_b c-9"), "a-b-c-9");
    assert_eq!(replace_char("a-b--c", '-', '_'), "a_b__c");
}

#[test]
fn bridge_crate_files() {
    let plan = BridgePlan { extensions: vec![ext("postgis")] };
    let files = bridge_files(&plan);
    let paths: Vec<&str> = files.iter().map(|f| f.path.as_str()).collect();
    assert_eq!(
        paths,
        vec![
            "Cargo.toml",
            "src/lib.rs",
            "src/registry.rs",
            "src/scalars.rs",
            "src/aggregates.rs",
            "src/table_functions.rs",
            "src/window_functions.rs",
            "src/types.rs",
            "src/operators.rs",
            "src/casts.rs",
            "src/preprocessors.rs",
            "src/system_catalog.rs",
            "src/spatial_indexes.rs",
            "README.md",
        ]
    );
    let rust: Vec<bool> = files.iter().map(|f| f.is_rust).collect();
    assert_eq!(rust, vec![false, true, true, true, true, true, true, true, true, true, true, true, true, false]);
    assert_eq!(files[0].contents, emit::cargo_toml(&plan));
    assert_eq!(files[3].contents, emit::scalars_rs(&plan));
    assert_eq!(files[13].contents, emit::readme(&plan));
}

#[test]
fn target_variants() {
    assert_ne!(Target::NativeDylib, Target::WasmComponent);
}

#[test]
fn count_bounds_hold_for_ordinary_plans() {
    let mut e = ext("postgis");
    e.scalars = vec![scalar("a", &["b", "c"], &[1], true)];
    assert!(plan_counts_fit(&BridgePlan { extensions: vec![e, ext("x")] }));
    assert!(plan_counts_fit(&BridgePlan { extensions: vec![] }));
}

#[test]
fn cargo_toml_names_and_crate_type() {
    let plan = BridgePlan { extensions: vec![ext("postgis")] };
    let toml = emit::cargo_toml(&plan);
    assert!(toml.contains("name = \"postgis-sqlite-bridge\"\n"));
    assert!(toml.contains("name = \"postgis_sqlite_bridge\"\n"));
    assert!(toml.contains("crate-type = [\"cdylib\", \"rlib\"]\n"));
    assert!(toml.contains("bridges the postgis DataFission shim into SQLite."));
}

#[test]
fn lib_rs_declares_every_written_module() {
    let plan = BridgePlan { extensions: vec![ext("postgis")] };
    let lib = emit::lib_rs(&plan);
    let files = bridge_files(&plan);
    let mut modules = 0;
    for f in files.iter() {
        if let Some(stem) = f.path.strip_prefix("src/").and_then(|p| p.strip_suffix(".rs")) {
            if stem != "lib" {
                assert!(lib.contains(&format!("\npub mod {stem};\n")), "{stem}");
                modules += 1;
            }
        }
    }
    assert_eq!(modules, 11);
    assert_eq!(lib.matches("pub mod ").count(), 11);
}

fn table_function(name: &str, aliases: &[&str]) -> TableFunctionInfo {
    TableFunctionInfo {
        canonical_name: name.to_string(),
        aliases: aliases.iter().map(|a| a.to_string()).collect(),
    }
}

#[test]
fn function_files_read_only_the_flat_lists() {
    let mut one = ext("postgis");
    one.scalars = vec![scalar("st_x", &["x"], &[1], true), scalar("st_y", &[], &[1, 2], false)];
    one.table_functions = vec![table_function("st_dump", &["dump"]), table_function("st_tiles", &[])];
    let mut first = ext("other");
    first.version = "9".to_string();
    first.scalars = vec![scalar("st_x", &["x"], &[1], true)];
    first.table_functions = vec![table_function("st_dump", &["dump"])];
    first.column_types = vec![ColumnTypeInfo {
        type_id: 7,
        name: "geometry".to_string(),
        storage_size: -1,
        cast_from: vec![],
        cast_to: vec![],
    }];
    let mut second = ext("third");
    second.scalars = vec![scalar("st_y", &[], &[1, 2], false)];
    second.table_functions = vec![table_function("st_tiles", &[])];
    let p1 = BridgePlan { extensions: vec![one] };
    let p2 = BridgePlan { extensions: vec![first, second] };
    assert_eq!(emit::scalars_rs(&p1), emit::scalars_rs(&p2));
    assert_eq!(emit::table_functions_rs(&p1), emit::table_functions_rs(&p2));
    assert_ne!(emit::lib_rs(&p1), emit::lib_rs(&p2));
}

#[test]
fn bracket_list_encloses_rendered_items() {
    assert_eq!(bracket_list(&vec![]), "[]");
    assert_eq!(bracket_list(&vec!["\"a\"".to_string()]), "[\"a\"]");
    assert_eq!(
        bracket_list(&vec!["\"a\"".to_string(), "\"b\\\"c\"".to_string(), "x".to_string()]),
        "[\"a\", \"b\\\"c\", x]"
    );
}

#[test]
fn lib_rs_module_lines_are_the_written_modules() {
    let plan = BridgePlan { extensions: vec![ext("pub modest"), ext("x")] };
    let lib = emit::lib_rs(&plan);
    let written: Vec<String> = bridge_files(&plan)
        .iter()
        .filter_map(|f| f.path.strip_prefix("src/").and_then(|p| p.strip_suffix(".rs")).map(|s| s.to_string()))
        .filter(|s| s != "lib")
        .collect();
    let declared: Vec<String> = lib
        .lines()
        .filter_map(|l| l.strip_prefix("pub mod ").and_then(|r| r.strip_suffix(';')).map(|s| s.to_string()))
        .collect();
    assert_eq!(declared, written);
}
