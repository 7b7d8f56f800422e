//! The plan the emitters read: what an interface database records
//! about each shim extension, held as plain values.

use vstd::prelude::*;

verus! {

/// A scalar function the shim publishes.
#[derive(Clone, Debug)]
pub struct ScalarInfo {
    pub canonical_name: String,
    pub aliases: Vec<String>,
    /// One entry per overload; each lists the parameter types.
    pub param_signatures: Vec<Vec<String>>,
    pub is_deterministic: bool,
}

/// An aggregate function the shim publishes.
#[derive(Clone, Debug)]
pub struct AggregateInfo {
    pub canonical_name: String,
    pub aliases: Vec<String>,
    /// One entry per overload; each lists the parameter types.
    pub param_signatures: Vec<Vec<String>>,
}

/// A table-valued function the shim publishes.
#[derive(Clone, Debug)]
pub struct TableFunctionInfo {
    pub canonical_name: String,
    pub aliases: Vec<String>,
}

/// A window function the shim publishes.
#[derive(Clone, Debug)]
pub struct WindowFunctionInfo {
    pub canonical_name: String,
}

/// A custom column type.
#[derive(Clone, Debug)]
pub struct ColumnTypeInfo {
    pub type_id: i64,
    pub name: String,
    pub storage_size: i64,
    pub cast_from: Vec<String>,
    pub cast_to: Vec<String>,
}

/// An operator token and the function behind it.
#[derive(Clone, Debug)]
pub struct OperatorInfo {
    pub symbol: String,
    pub lhs_type_id: Option<i64>,
    pub rhs_type_id: Option<i64>,
    pub function_name: String,
}

/// A `CAST(x AS T)` rewrite.
#[derive(Clone, Debug)]
pub struct CastRewriteInfo {
    pub source_kind: String,
    pub target_type: String,
    pub function_name: String,
    pub source_fn_hint: String,
}

/// A token-level rewrite.
#[derive(Clone, Debug)]
pub struct PreprocessorPatternInfo {
    pub op_token: String,
    pub function_name: String,
}

/// A column of a system-catalog table.
#[derive(Clone, Debug)]
pub struct CatalogColumnInfo {
    pub name: String,
    pub data_type: String,
    pub nullable: bool,
}

/// A system-catalog table (such as `spatial_ref_sys`).
#[derive(Clone, Debug)]
pub struct SystemCatalogTableInfo {
    pub catalog_name: String,
    pub table_name: String,
    pub columns: Vec<CatalogColumnInfo>,
}

/// A spatial index kind.
#[derive(Clone, Debug)]
pub struct SpatialIndexInfo {
    pub name: String,
    pub type_id: i64,
}

/// Everything one shim extension publishes.
#[derive(Clone, Debug)]
pub struct ExtensionPlan {
    pub name: String,
    pub version: String,
    pub scalars: Vec<ScalarInfo>,
    pub aggregates: Vec<AggregateInfo>,
    pub table_functions: Vec<TableFunctionInfo>,
    pub window_functions: Vec<WindowFunctionInfo>,
    pub column_types: Vec<ColumnTypeInfo>,
    pub operators: Vec<OperatorInfo>,
    pub cast_rewrites: Vec<CastRewriteInfo>,
    pub preprocessor_patterns: Vec<PreprocessorPatternInfo>,
    pub system_catalog_tables: Vec<SystemCatalogTableInfo>,
    pub spatial_indexes: Vec<SpatialIndexInfo>,
}

/// The bridge plan: the extensions of one interface database, the
/// first of which names the generated crate.
#[derive(Clone, Debug)]
pub struct BridgePlan {
    pub extensions: Vec<ExtensionPlan>,
}

} // verus!
