//! The scalar and table-function files depend on the plan only
//! through the flat lists of what all its extensions publish: which
//! extension a function comes from, and everything else the plan
//! records, does not show in them.

use vstd::prelude::*;

use crate::emit::functions::{
    extension_scalar_alias_count_fn, extension_scalar_count_fn,
    extension_scalar_registrations_fn, extension_table_function_alias_count_fn,
    extension_table_function_count_fn, extension_table_function_registrations_fn,
    scalar_alias_count_fn, scalar_registration_fn, scalars_rs_text,
    table_function_alias_count_fn, table_function_registration_fn, table_functions_rs_text,
};
use crate::plan::{BridgePlan, ExtensionPlan, ScalarInfo, TableFunctionInfo};
use crate::text::{concat_map, lemma_concat_map_append, lemma_sum_map_append, sum_map};

verus! {

/// The scalars of all extensions, in plan order.
pub open spec fn all_scalars(exts: Seq<ExtensionPlan>) -> Seq<ScalarInfo>
    decreases exts.len(),
{
    if exts.len() == 0 {
        seq![]
    } else {
        all_scalars(exts.drop_last()) + exts.last().scalars@
    }
}

/// The table functions of all extensions, in plan order.
pub open spec fn all_table_functions(exts: Seq<ExtensionPlan>) -> Seq<TableFunctionInfo>
    decreases exts.len(),
{
    if exts.len() == 0 {
        seq![]
    } else {
        all_table_functions(exts.drop_last()) + exts.last().table_functions@
    }
}

/// Registering the scalars extension by extension is registering the
/// flat list, and the counts are those of the flat list.
proof fn lemma_scalars_flatten(exts: Seq<ExtensionPlan>)
    ensures
        concat_map(exts, extension_scalar_registrations_fn())
            == concat_map(all_scalars(exts), scalar_registration_fn()),
        sum_map(exts, extension_scalar_count_fn()) == all_scalars(exts).len(),
        sum_map(exts, extension_scalar_alias_count_fn())
            == sum_map(all_scalars(exts), scalar_alias_count_fn()),
    decreases exts.len(),
{
    if exts.len() > 0 {
        let rest = exts.drop_last();
        let last = exts.last();
        lemma_scalars_flatten(rest);
        lemma_concat_map_append(all_scalars(rest), last.scalars@, scalar_registration_fn());
        lemma_sum_map_append(all_scalars(rest), last.scalars@, scalar_alias_count_fn());
    }
}

/// Registering the table functions extension by extension is
/// registering the flat list, and the counts are those of the flat list.
proof fn lemma_table_functions_flatten(exts: Seq<ExtensionPlan>)
    ensures
        concat_map(exts, extension_table_function_registrations_fn())
            == concat_map(all_table_functions(exts), table_function_registration_fn()),
        sum_map(exts, extension_table_function_count_fn()) == all_table_functions(exts).len(),
        sum_map(exts, extension_table_function_alias_count_fn())
            == sum_map(all_table_functions(exts), table_function_alias_count_fn()),
    decreases exts.len(),
{
    if exts.len() > 0 {
        let rest = exts.drop_last();
        let last = exts.last();
        lemma_table_functions_flatten(rest);
        lemma_concat_map_append(
            all_table_functions(rest),
            last.table_functions@,
            table_function_registration_fn(),
        );
        lemma_sum_map_append(
            all_table_functions(rest),
            last.table_functions@,
            table_function_alias_count_fn(),
        );
    }
}

/// `src/scalars.rs` depends only on the flat list of scalars: two
/// plans that publish the same scalars in the same order give the same
/// file, however the scalars are spread over extensions and whatever
/// else the plans hold.
pub proof fn law_scalars_file_reads_only_scalars(p1: BridgePlan, p2: BridgePlan)
    requires
        all_scalars(p1.extensions@) == all_scalars(p2.extensions@),
    ensures
        scalars_rs_text(p1) == scalars_rs_text(p2),
{
    lemma_scalars_flatten(p1.extensions@);
    lemma_scalars_flatten(p2.extensions@);
}

/// `src/table_functions.rs` depends only on the flat list of table
/// functions: two plans that publish the same table functions in the
/// same order give the same file, however they are spread over
/// extensions and whatever else the plans hold.
pub proof fn law_table_functions_file_reads_only_table_functions(p1: BridgePlan, p2: BridgePlan)
    requires
        all_table_functions(p1.extensions@) == all_table_functions(p2.extensions@),
    ensures
        table_functions_rs_text(p1) == table_functions_rs_text(p2),
{
    lemma_table_functions_flatten(p1.extensions@);
    lemma_table_functions_flatten(p2.extensions@);
}

} // verus!
