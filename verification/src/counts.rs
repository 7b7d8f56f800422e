//! Whether the numbers of canonical names and aliases of each counted
//! function kind fit the `i32` counters of the registration emitters.

use vstd::prelude::*;

use crate::emit::functions::{
    aggregate_alias_count_fn, extension_aggregate_alias_count_fn, extension_aggregate_count_fn,
    extension_scalar_alias_count_fn, extension_scalar_count_fn,
    extension_table_function_alias_count_fn, extension_table_function_count_fn,
    scalar_alias_count_fn, table_function_alias_count_fn,
};
use crate::plan::{BridgePlan, ExtensionPlan};
use crate::text::{lemma_sum_map_prefix, lemma_sum_map_step, sum_map};

verus! {

/// A function kind whose canonical names and aliases the registration
/// emitters count.
#[derive(Clone, Copy)]
pub(crate) enum CountedKind {
    Scalar,
    Aggregate,
    TableFunction,
}

/// Number of functions of kind `k` of an extension.
pub(crate) open spec fn count_fn(k: CountedKind) -> spec_fn(ExtensionPlan) -> nat {
    match k {
        CountedKind::Scalar => extension_scalar_count_fn(),
        CountedKind::Aggregate => extension_aggregate_count_fn(),
        CountedKind::TableFunction => extension_table_function_count_fn(),
    }
}

/// Number of aliases of the functions of kind `k` of an extension.
pub(crate) open spec fn alias_count_fn(k: CountedKind) -> spec_fn(ExtensionPlan) -> nat {
    match k {
        CountedKind::Scalar => extension_scalar_alias_count_fn(),
        CountedKind::Aggregate => extension_aggregate_alias_count_fn(),
        CountedKind::TableFunction => extension_table_function_alias_count_fn(),
    }
}

/// Number of aliases of the first `j` functions of kind `k` of `e`.
spec fn alias_prefix(e: ExtensionPlan, k: CountedKind, j: int) -> nat {
    match k {
        CountedKind::Scalar => sum_map(e.scalars@.take(j), scalar_alias_count_fn()),
        CountedKind::Aggregate => sum_map(e.aggregates@.take(j), aggregate_alias_count_fn()),
        CountedKind::TableFunction => sum_map(e.table_functions@.take(j), table_function_alias_count_fn()),
    }
}

/// Number of aliases of function `j` of kind `k` of `e`.
spec fn item_aliases(e: ExtensionPlan, k: CountedKind, j: int) -> nat {
    match k {
        CountedKind::Scalar => e.scalars@[j].aliases@.len(),
        CountedKind::Aggregate => e.aggregates@[j].aliases@.len(),
        CountedKind::TableFunction => e.table_functions@[j].aliases@.len(),
    }
}

proof fn lemma_alias_prefix_step(e: ExtensionPlan, k: CountedKind, j: int)
    requires
        0 <= j < count_fn(k)(e),
    ensures
        alias_prefix(e, k, j + 1) == alias_prefix(e, k, j) + item_aliases(e, k, j),
        alias_prefix(e, k, j + 1) <= alias_count_fn(k)(e),
{
    match k {
        CountedKind::Scalar => {
            lemma_sum_map_step(e.scalars@, scalar_alias_count_fn(), j);
            lemma_sum_map_prefix(e.scalars@, scalar_alias_count_fn(), j + 1);
        },
        CountedKind::Aggregate => {
            lemma_sum_map_step(e.aggregates@, aggregate_alias_count_fn(), j);
            lemma_sum_map_prefix(e.aggregates@, aggregate_alias_count_fn(), j + 1);
        },
        CountedKind::TableFunction => {
            lemma_sum_map_step(e.table_functions@, table_function_alias_count_fn(), j);
            lemma_sum_map_prefix(e.table_functions@, table_function_alias_count_fn(), j + 1);
        },
    }
}

proof fn lemma_alias_prefix_full(e: ExtensionPlan, k: CountedKind)
    ensures
        alias_prefix(e, k, count_fn(k)(e) as int) == alias_count_fn(k)(e),
{
    assert(e.scalars@.take(e.scalars@.len() as int) =~= e.scalars@);
    assert(e.aggregates@.take(e.aggregates@.len() as int) =~= e.aggregates@);
    assert(e.table_functions@.take(e.table_functions@.len() as int) =~= e.table_functions@);
}

fn kind_len(e: &ExtensionPlan, k: CountedKind) -> (n: usize)
    ensures
        n == count_fn(k)(*e),
{
    match k {
        CountedKind::Scalar => e.scalars.len(),
        CountedKind::Aggregate => e.aggregates.len(),
        CountedKind::TableFunction => e.table_functions.len(),
    }
}

fn item_alias_len(e: &ExtensionPlan, k: CountedKind, j: usize) -> (n: usize)
    requires
        j < count_fn(k)(*e),
    ensures
        n == item_aliases(*e, k, j as int),
{
    match k {
        CountedKind::Scalar => e.scalars[j].aliases.len(),
        CountedKind::Aggregate => e.aggregates[j].aliases.len(),
        CountedKind::TableFunction => e.table_functions[j].aliases.len(),
    }
}

/// The aliases of the functions of kind `k` of `e`, when they number
/// at most `room`.
fn alias_total_within(e: &ExtensionPlan, k: CountedKind, room: usize) -> (r: Option<usize>)
    ensures
        match r {
            Some(n) => n == alias_count_fn(k)(*e) && n <= room,
            None => alias_count_fn(k)(*e) > room,
        },
{
    let len = kind_len(e, k);
    let mut total: usize = 0;
    let mut j: usize = 0;
    assert(e.scalars@.take(0) =~= Seq::empty());
    assert(e.aggregates@.take(0) =~= Seq::empty());
    assert(e.table_functions@.take(0) =~= Seq::empty());
    while j < len
        invariant
            len == count_fn(k)(*e),
            j <= len,
            total == alias_prefix(*e, k, j as int),
            total <= room,
        decreases len - j,
    {
        proof {
            lemma_alias_prefix_step(*e, k, j as int);
        }
        let n = item_alias_len(e, k, j);
        if n > room - total {
            return None;
        }
        total = total + n;
        j = j + 1;
    }
    proof {
        lemma_alias_prefix_full(*e, k);
    }
    Some(total)
}

/// Whether the plan has at most `i32::MAX` functions of kind `k` and at
/// most `i32::MAX` aliases of them.
pub(crate) fn kind_counts_fit(plan: &BridgePlan, k: CountedKind) -> (r: bool)
    ensures
        r == (sum_map(plan.extensions@, count_fn(k)) <= i32::MAX && sum_map(
            plan.extensions@,
            alias_count_fn(k),
        ) <= i32::MAX),
{
    let exts = &plan.extensions;
    let limit: usize = 0x7fff_ffff;
    let mut canonical: usize = 0;
    let mut aliases: usize = 0;
    let mut i: usize = 0;
    while i < exts.len()
        invariant
            i <= exts.len(),
            exts == plan.extensions,
            limit == i32::MAX,
            canonical == sum_map(exts@.take(i as int), count_fn(k)),
            aliases == sum_map(exts@.take(i as int), alias_count_fn(k)),
            canonical <= limit,
            aliases <= limit,
        decreases exts.len() - i,
    {
        proof {
            lemma_sum_map_step(exts@, count_fn(k), i as int);
            lemma_sum_map_step(exts@, alias_count_fn(k), i as int);
        }
        let n = kind_len(&exts[i], k);
        if n > limit - canonical {
            proof {
                lemma_sum_map_prefix(exts@, count_fn(k), i + 1);
            }
            return false;
        }
        canonical = canonical + n;
        match alias_total_within(&exts[i], k, limit - aliases) {
            Some(a) => {
                aliases = aliases + a;
            },
            None => {
                proof {
                    lemma_sum_map_prefix(exts@, alias_count_fn(k), i + 1);
                }
                return false;
            },
        }
        i = i + 1;
    }
    assert(exts@.take(exts@.len() as int) =~= exts@);
    true
}

} // verus!
