//! Emitters for the function-registration files: scalars,
//! aggregates, table functions and window functions.

use vstd::prelude::*;

use super::generated_header;
use super::templates::{
    AGGREGATES_HEAD, AGGREGATES_TAIL, GENERATED_HEADER, SCALARS_HEAD, SCALARS_TAIL,
    TABLE_FUNCTIONS_HEAD, TABLE_FUNCTIONS_TAIL, WINDOW_FUNCTIONS_HEAD, WINDOW_FUNCTIONS_TAIL,
};
use crate::plan::{
    AggregateInfo, BridgePlan, ExtensionPlan, ScalarInfo, TableFunctionInfo, WindowFunctionInfo,
};
use crate::text::{
    concat_map, int_decimal, lemma_concat_map_step, lemma_sum_map_prefix, lemma_sum_map_step,
    nat_decimal, push_i64, push_u64, sum_map,
};

verus! {

/// The arity SQLite is told for a function with these overloads:
/// the common parameter count when every overload has the same one
/// (as an `i32`), otherwise `-1` (variadic). No overloads also gives
/// `-1`.
pub open spec fn arity_of(sigs: Seq<Vec<String>>) -> int {
    if sigs.len() == 0 {
        -1
    } else if forall|k: int| 0 <= k < sigs.len() ==> #[trigger] sigs[k]@.len() == sigs[0]@.len() {
        (sigs[0]@.len() as i32) as int
    } else {
        -1
    }
}

/// Computes [`arity_of`].
pub fn arity(sigs: &Vec<Vec<String>>) -> (r: i32)
    ensures
        r as int == arity_of(sigs@),
{
    if sigs.len() == 0 {
        return -1;
    }
    let first = sigs[0].len();
    let mut k: usize = 0;
    while k < sigs.len()
        invariant
            k <= sigs.len(),
            sigs.len() > 0,
            first == sigs@[0]@.len(),
            forall|j: int| 0 <= j < k ==> #[trigger] sigs@[j]@.len() == first,
        decreases sigs.len() - k,
    {
        if sigs[k].len() != first {
            return -1;
        }
        k = k + 1;
    }
    first as i32
}

/// Number of aliases of a scalar.
pub open spec fn scalar_alias_count_fn() -> spec_fn(ScalarInfo) -> nat {
    |sc: ScalarInfo| sc.aliases@.len()
}

/// Number of scalars of an extension.
pub open spec fn extension_scalar_count_fn() -> spec_fn(ExtensionPlan) -> nat {
    |e: ExtensionPlan| e.scalars@.len()
}

/// Number of scalar aliases of an extension.
pub open spec fn extension_scalar_alias_count_fn() -> spec_fn(ExtensionPlan) -> nat {
    |e: ExtensionPlan| sum_map(e.scalars@, scalar_alias_count_fn())
}

/// Scalars over all extensions.
pub open spec fn total_scalars(plan: BridgePlan) -> nat {
    sum_map(plan.extensions@, extension_scalar_count_fn())
}

/// Scalar aliases over all extensions.
pub open spec fn total_scalar_aliases(plan: BridgePlan) -> nat {
    sum_map(plan.extensions@, extension_scalar_alias_count_fn())
}

/// The function flags of a scalar: deterministic ones say so.
pub open spec fn scalar_flags(sc: ScalarInfo) -> Seq<char> {
    if sc.is_deterministic {
        "FunctionFlags::SQLITE_DETERMINISTIC | FunctionFlags::SQLITE_UTF8"@
    } else {
        "FunctionFlags::SQLITE_UTF8"@
    }
}

/// The registration line of one alias of a scalar.
pub open spec fn scalar_alias_line(alias: String, sc: ScalarInfo) -> Seq<char> {
    "    register_scalar(conn, \""@ + alias@ + "\", "@ + int_decimal(arity_of(sc.param_signatures@))
        + ", "@ + scalar_flags(sc) + ")?; // alias of "@ + sc.canonical_name@ + "\n"@
}

/// [`scalar_alias_line`] for the aliases of `sc`, as a function value.
pub open spec fn scalar_alias_line_fn(sc: ScalarInfo) -> spec_fn(String) -> Seq<char> {
    |alias: String| scalar_alias_line(alias, sc)
}

/// The registration lines of a scalar: its canonical name, then each
/// alias in order.
pub open spec fn scalar_registration(sc: ScalarInfo) -> Seq<char> {
    "    register_scalar(conn, \""@ + sc.canonical_name@ + "\", "@
        + int_decimal(arity_of(sc.param_signatures@)) + ", "@ + scalar_flags(sc) + ")?;\n"@
        + concat_map(sc.aliases@, scalar_alias_line_fn(sc))
}

/// [`scalar_registration`] as a function value.
pub open spec fn scalar_registration_fn() -> spec_fn(ScalarInfo) -> Seq<char> {
    |sc: ScalarInfo| scalar_registration(sc)
}

/// The registration blocks of all scalars of an extension, in order.
pub open spec fn extension_scalar_registrations_fn() -> spec_fn(ExtensionPlan) -> Seq<char> {
    |e: ExtensionPlan| concat_map(e.scalars@, scalar_registration_fn())
}

/// `src/scalars.rs` of the generated crate: the fixed opening, one
/// registration block per scalar of every extension, the count
/// comment (and a note when there are none), the fixed closing.
pub open spec fn scalars_rs_text(plan: BridgePlan) -> Seq<char> {
    GENERATED_HEADER@ + SCALARS_HEAD@
        + concat_map(plan.extensions@, extension_scalar_registrations_fn())
        + "    // Phase 2: "@ + nat_decimal(total_scalars(plan)) + " canonical + "@
        + nat_decimal(total_scalar_aliases(plan)) + " alias names registered.\n"@
        + (if total_scalars(plan) == 0 { "    // (no scalars in this interface DB)\n"@ } else { seq![] })
        + SCALARS_TAIL@
}

fn scalar_flags_text(sc: &ScalarInfo) -> (r: &'static str)
    ensures
        r@ == scalar_flags(*sc),
{
    if sc.is_deterministic {
        "FunctionFlags::SQLITE_DETERMINISTIC | FunctionFlags::SQLITE_UTF8"
    } else {
        "FunctionFlags::SQLITE_UTF8"
    }
}

fn push_scalar_registration(s: &mut String, sc: &ScalarInfo)
    ensures
        final(s)@ == old(s)@ + scalar_registration(*sc),
{
    let ar = arity(&sc.param_signatures);
    let flags = scalar_flags_text(sc);
    let mut t = String::from_str("    register_scalar(conn, \"");
    t.append(sc.canonical_name.as_str());
    t.append("\", ");
    push_i64(&mut t, ar as i64);
    t.append(", ");
    t.append(flags);
    t.append(")?;\n");
    let ghost base = t@;
    let mut j: usize = 0;
    assert(base + concat_map(sc.aliases@.take(0), scalar_alias_line_fn(*sc)) =~= base);
    while j < sc.aliases.len()
        invariant
            j <= sc.aliases.len(),
            ar as int == arity_of(sc.param_signatures@),
            flags@ == scalar_flags(*sc),
            t@ == base + concat_map(sc.aliases@.take(j as int), scalar_alias_line_fn(*sc)),
        decreases sc.aliases.len() - j,
    {
        let mut u = String::from_str("    register_scalar(conn, \"");
        u.append(sc.aliases[j].as_str());
        u.append("\", ");
        push_i64(&mut u, ar as i64);
        u.append(", ");
        u.append(flags);
        u.append(")?; // alias of ");
        u.append(sc.canonical_name.as_str());
        u.append("\n");
        t.append(u.as_str());
        proof {
            lemma_concat_map_step(sc.aliases@, scalar_alias_line_fn(*sc), j as int);
            assert(t@ =~= base + concat_map(sc.aliases@.take(j + 1), scalar_alias_line_fn(*sc)));
        }
        j = j + 1;
    }
    assert(sc.aliases@.take(sc.aliases@.len() as int) =~= sc.aliases@);
    s.append(t.as_str());
}

fn push_extension_scalars(s: &mut String, e: &ExtensionPlan) -> (aliases: usize)
    requires
        sum_map(e.scalars@, scalar_alias_count_fn()) <= i32::MAX,
    ensures
        final(s)@ == old(s)@ + concat_map(e.scalars@, scalar_registration_fn()),
        aliases == sum_map(e.scalars@, scalar_alias_count_fn()),
{
    let ghost start = s@;
    let mut aliases: usize = 0;
    let mut j: usize = 0;
    assert(start + concat_map(e.scalars@.take(0), scalar_registration_fn()) =~= start);
    while j < e.scalars.len()
        invariant
            j <= e.scalars.len(),
            sum_map(e.scalars@, scalar_alias_count_fn()) <= i32::MAX,
            s@ == start + concat_map(e.scalars@.take(j as int), scalar_registration_fn()),
            aliases == sum_map(e.scalars@.take(j as int), scalar_alias_count_fn()),
        decreases e.scalars.len() - j,
    {
        push_scalar_registration(s, &e.scalars[j]);
        proof {
            lemma_concat_map_step(e.scalars@, scalar_registration_fn(), j as int);
            lemma_sum_map_step(e.scalars@, scalar_alias_count_fn(), j as int);
            lemma_sum_map_prefix(e.scalars@, scalar_alias_count_fn(), j + 1);
            assert(s@ =~= start + concat_map(e.scalars@.take(j + 1), scalar_registration_fn()));
        }
        aliases = aliases + e.scalars[j].aliases.len();
        j = j + 1;
    }
    assert(e.scalars@.take(e.scalars@.len() as int) =~= e.scalars@);
    aliases
}

/// Register every scalar the shim publishes. The canonical and
/// alias counts are `i32` in the emitter, so the plan holds at most
/// `i32::MAX` of each.
pub fn scalars_rs(plan: &BridgePlan) -> (r: String)
    requires
        total_scalars(*plan) <= i32::MAX,
        total_scalar_aliases(*plan) <= i32::MAX,
    ensures
        r@ == scalars_rs_text(*plan),
{
    let mut s = generated_header();
    s.append(SCALARS_HEAD);
    let ghost start = s@;
    let exts = &plan.extensions;
    let mut emitted: usize = 0;
    let mut alias_count: usize = 0;
    let mut i: usize = 0;
    assert(start + concat_map(exts@.take(0), extension_scalar_registrations_fn()) =~= start);
    while i < exts.len()
        invariant
            i <= exts.len(),
            exts == plan.extensions,
            total_scalars(*plan) <= i32::MAX,
            total_scalar_aliases(*plan) <= i32::MAX,
            s@ == start + concat_map(exts@.take(i as int), extension_scalar_registrations_fn()),
            emitted == sum_map(exts@.take(i as int), extension_scalar_count_fn()),
            alias_count == sum_map(exts@.take(i as int), extension_scalar_alias_count_fn()),
        decreases exts.len() - i,
    {
        proof {
            lemma_sum_map_step(exts@, extension_scalar_count_fn(), i as int);
            lemma_sum_map_step(exts@, extension_scalar_alias_count_fn(), i as int);
            lemma_sum_map_prefix(exts@, extension_scalar_count_fn(), i + 1);
            lemma_sum_map_prefix(exts@, extension_scalar_alias_count_fn(), i + 1);
        }
        let n = push_extension_scalars(&mut s, &exts[i]);
        proof {
            lemma_concat_map_step(exts@, extension_scalar_registrations_fn(), i as int);
            assert(s@ =~= start + concat_map(exts@.take(i + 1), extension_scalar_registrations_fn()));
        }
        emitted = emitted + exts[i].scalars.len();
        alias_count = alias_count + n;
        i = i + 1;
    }
    assert(exts@.take(exts@.len() as int) =~= exts@);
    assert(s@ == start + concat_map(plan.extensions@, extension_scalar_registrations_fn()));
    s.append("    // Phase 2: ");
    push_u64(&mut s, emitted as u64);
    s.append(" canonical + ");
    push_u64(&mut s, alias_count as u64);
    s.append(" alias names registered.\n");
    let ghost before_note = s@;
    if emitted == 0 {
        s.append("    // (no scalars in this interface DB)\n");
    } else {
        assert(s@ =~= before_note + seq![]);
    }
    s.append(SCALARS_TAIL);
    s
}


/// Number of aliases of an aggregate.
pub open spec fn aggregate_alias_count_fn() -> spec_fn(AggregateInfo) -> nat {
    |agg: AggregateInfo| agg.aliases@.len()
}

/// Number of aggregates of an extension.
pub open spec fn extension_aggregate_count_fn() -> spec_fn(ExtensionPlan) -> nat {
    |e: ExtensionPlan| e.aggregates@.len()
}

/// Number of aggregate aliases of an extension.
pub open spec fn extension_aggregate_alias_count_fn() -> spec_fn(ExtensionPlan) -> nat {
    |e: ExtensionPlan| sum_map(e.aggregates@, aggregate_alias_count_fn())
}

/// Aggregates over all extensions.
pub open spec fn total_aggregates(plan: BridgePlan) -> nat {
    sum_map(plan.extensions@, extension_aggregate_count_fn())
}

/// Aggregate aliases over all extensions.
pub open spec fn total_aggregate_aliases(plan: BridgePlan) -> nat {
    sum_map(plan.extensions@, extension_aggregate_alias_count_fn())
}

/// The registration line of one alias of an aggregate.
pub open spec fn aggregate_alias_line(alias: String, agg: AggregateInfo) -> Seq<char> {
    "    register_aggregate(conn, \""@ + alias@ + "\", "@
        + int_decimal(arity_of(agg.param_signatures@)) + ")?; // alias of "@
        + agg.canonical_name@ + "\n"@
}

/// [`aggregate_alias_line`] for the aliases of `agg`, as a function value.
pub open spec fn aggregate_alias_line_fn(agg: AggregateInfo) -> spec_fn(String) -> Seq<char> {
    |alias: String| aggregate_alias_line(alias, agg)
}

/// The registration lines of an aggregate: its canonical name, then
/// each alias in order.
pub open spec fn aggregate_registration(agg: AggregateInfo) -> Seq<char> {
    "    register_aggregate(conn, \""@ + agg.canonical_name@ + "\", "@
        + int_decimal(arity_of(agg.param_signatures@)) + ")?;\n"@
        + concat_map(agg.aliases@, aggregate_alias_line_fn(agg))
}

/// [`aggregate_registration`] as a function value.
pub open spec fn aggregate_registration_fn() -> spec_fn(AggregateInfo) -> Seq<char> {
    |agg: AggregateInfo| aggregate_registration(agg)
}

/// The registration blocks of all aggregates of an extension, in order.
pub open spec fn extension_aggregate_registrations_fn() -> spec_fn(ExtensionPlan) -> Seq<char> {
    |e: ExtensionPlan| concat_map(e.aggregates@, aggregate_registration_fn())
}

/// `src/aggregates.rs` of the generated crate: the fixed opening,
/// one registration block per aggregate of every extension, the
/// count comment (and a note when there are none), the fixed closing.
pub open spec fn aggregates_rs_text(plan: BridgePlan) -> Seq<char> {
    GENERATED_HEADER@ + AGGREGATES_HEAD@
        + concat_map(plan.extensions@, extension_aggregate_registrations_fn())
        + "    // Phase 3c: "@ + nat_decimal(total_aggregates(plan)) + " canonical + "@
        + nat_decimal(total_aggregate_aliases(plan)) + " alias names registered.\n"@
        + (if total_aggregates(plan) == 0 {
            "    // (no aggregates in this interface DB)\n"@
        } else {
            seq![]
        }) + AGGREGATES_TAIL@
}

fn push_aggregate_registration(s: &mut String, agg: &AggregateInfo)
    ensures
        final(s)@ == old(s)@ + aggregate_registration(*agg),
{
    let ar = arity(&agg.param_signatures);
    let mut t = String::from_str("    register_aggregate(conn, \"");
    t.append(agg.canonical_name.as_str());
    t.append("\", ");
    push_i64(&mut t, ar as i64);
    t.append(")?;\n");
    let ghost base = t@;
    let mut j: usize = 0;
    assert(base + concat_map(agg.aliases@.take(0), aggregate_alias_line_fn(*agg)) =~= base);
    while j < agg.aliases.len()
        invariant
            j <= agg.aliases.len(),
            ar as int == arity_of(agg.param_signatures@),
            t@ == base + concat_map(agg.aliases@.take(j as int), aggregate_alias_line_fn(*agg)),
        decreases agg.aliases.len() - j,
    {
        let mut u = String::from_str("    register_aggregate(conn, \"");
        u.append(agg.aliases[j].as_str());
        u.append("\", ");
        push_i64(&mut u, ar as i64);
        u.append(")?; // alias of ");
        u.append(agg.canonical_name.as_str());
        u.append("\n");
        t.append(u.as_str());
        proof {
            lemma_concat_map_step(agg.aliases@, aggregate_alias_line_fn(*agg), j as int);
            assert(t@ =~= base + concat_map(agg.aliases@.take(j + 1), aggregate_alias_line_fn(*agg)));
        }
        j = j + 1;
    }
    assert(agg.aliases@.take(agg.aliases@.len() as int) =~= agg.aliases@);
    s.append(t.as_str());
}

fn push_extension_aggregates(s: &mut String, e: &ExtensionPlan) -> (aliases: usize)
    requires
        sum_map(e.aggregates@, aggregate_alias_count_fn()) <= i32::MAX,
    ensures
        final(s)@ == old(s)@ + concat_map(e.aggregates@, aggregate_registration_fn()),
        aliases == sum_map(e.aggregates@, aggregate_alias_count_fn()),
{
    let ghost start = s@;
    let mut aliases: usize = 0;
    let mut j: usize = 0;
    assert(start + concat_map(e.aggregates@.take(0), aggregate_registration_fn()) =~= start);
    while j < e.aggregates.len()
        invariant
            j <= e.aggregates.len(),
            sum_map(e.aggregates@, aggregate_alias_count_fn()) <= i32::MAX,
            s@ == start + concat_map(e.aggregates@.take(j as int), aggregate_registration_fn()),
            aliases == sum_map(e.aggregates@.take(j as int), aggregate_alias_count_fn()),
        decreases e.aggregates.len() - j,
    {
        push_aggregate_registration(s, &e.aggregates[j]);
        proof {
            lemma_concat_map_step(e.aggregates@, aggregate_registration_fn(), j as int);
            lemma_sum_map_step(e.aggregates@, aggregate_alias_count_fn(), j as int);
            lemma_sum_map_prefix(e.aggregates@, aggregate_alias_count_fn(), j + 1);
            assert(s@ =~= start + concat_map(e.aggregates@.take(j + 1), aggregate_registration_fn()));
        }
        aliases = aliases + e.aggregates[j].aliases.len();
        j = j + 1;
    }
    assert(e.aggregates@.take(e.aggregates@.len() as int) =~= e.aggregates@);
    aliases
}

/// Register every aggregate the shim publishes. The canonical and
/// alias counts are `i32` in the emitter, so the plan holds at most
/// `i32::MAX` of each.
pub fn aggregates_rs(plan: &BridgePlan) -> (r: String)
    requires
        total_aggregates(*plan) <= i32::MAX,
        total_aggregate_aliases(*plan) <= i32::MAX,
    ensures
        r@ == aggregates_rs_text(*plan),
{
    let mut s = generated_header();
    s.append(AGGREGATES_HEAD);
    let ghost start = s@;
    let exts = &plan.extensions;
    let mut canonical: usize = 0;
    let mut alias_count: usize = 0;
    let mut i: usize = 0;
    assert(start + concat_map(exts@.take(0), extension_aggregate_registrations_fn()) =~= start);
    while i < exts.len()
        invariant
            i <= exts.len(),
            exts == plan.extensions,
            total_aggregates(*plan) <= i32::MAX,
            total_aggregate_aliases(*plan) <= i32::MAX,
            s@ == start + concat_map(exts@.take(i as int), extension_aggregate_registrations_fn()),
            canonical == sum_map(exts@.take(i as int), extension_aggregate_count_fn()),
            alias_count == sum_map(exts@.take(i as int), extension_aggregate_alias_count_fn()),
        decreases exts.len() - i,
    {
        proof {
            lemma_sum_map_step(exts@, extension_aggregate_count_fn(), i as int);
            lemma_sum_map_step(exts@, extension_aggregate_alias_count_fn(), i as int);
            lemma_sum_map_prefix(exts@, extension_aggregate_count_fn(), i + 1);
            lemma_sum_map_prefix(exts@, extension_aggregate_alias_count_fn(), i + 1);
        }
        let n = push_extension_aggregates(&mut s, &exts[i]);
        proof {
            lemma_concat_map_step(exts@, extension_aggregate_registrations_fn(), i as int);
            assert(s@ =~= start + concat_map(exts@.take(i + 1), extension_aggregate_registrations_fn()));
        }
        canonical = canonical + exts[i].aggregates.len();
        alias_count = alias_count + n;
        i = i + 1;
    }
    assert(exts@.take(exts@.len() as int) =~= exts@);
    assert(s@ == start + concat_map(plan.extensions@, extension_aggregate_registrations_fn()));
    s.append("    // Phase 3c: ");
    push_u64(&mut s, canonical as u64);
    s.append(" canonical + ");
    push_u64(&mut s, alias_count as u64);
    s.append(" alias names registered.\n");
    let ghost before_note = s@;
    if canonical == 0 {
        s.append("    // (no aggregates in this interface DB)\n");
    } else {
        assert(s@ =~= before_note + seq![]);
    }
    s.append(AGGREGATES_TAIL);
    s
}

/// Number of aliases of a table function.
pub open spec fn table_function_alias_count_fn() -> spec_fn(TableFunctionInfo) -> nat {
    |tf: TableFunctionInfo| tf.aliases@.len()
}

/// Number of table functions of an extension.
pub open spec fn extension_table_function_count_fn() -> spec_fn(ExtensionPlan) -> nat {
    |e: ExtensionPlan| e.table_functions@.len()
}

/// Number of table-function aliases of an extension.
pub open spec fn extension_table_function_alias_count_fn() -> spec_fn(ExtensionPlan) -> nat {
    |e: ExtensionPlan| sum_map(e.table_functions@, table_function_alias_count_fn())
}

/// Table functions over all extensions.
pub open spec fn total_table_functions(plan: BridgePlan) -> nat {
    sum_map(plan.extensions@, extension_table_function_count_fn())
}

/// Table-function aliases over all extensions.
pub open spec fn total_table_function_aliases(plan: BridgePlan) -> nat {
    sum_map(plan.extensions@, extension_table_function_alias_count_fn())
}

/// The registration line of one alias of a table function.
pub open spec fn table_function_alias_line(alias: String, tf: TableFunctionInfo) -> Seq<char> {
    "    register_udtf(conn, \""@ + alias@ + "\")?; // alias of "@ + tf.canonical_name@ + "\n"@
}

/// [`table_function_alias_line`] for the aliases of `tf`, as a function value.
pub open spec fn table_function_alias_line_fn(tf: TableFunctionInfo) -> spec_fn(String) -> Seq<char> {
    |alias: String| table_function_alias_line(alias, tf)
}

/// The registration lines of a table function: its canonical name,
/// then each alias in order.
pub open spec fn table_function_registration(tf: TableFunctionInfo) -> Seq<char> {
    "    register_udtf(conn, \""@ + tf.canonical_name@ + "\")?;\n"@
        + concat_map(tf.aliases@, table_function_alias_line_fn(tf))
}

/// [`table_function_registration`] as a function value.
pub open spec fn table_function_registration_fn() -> spec_fn(TableFunctionInfo) -> Seq<char> {
    |tf: TableFunctionInfo| table_function_registration(tf)
}

/// The registration blocks of all table functions of an extension, in order.
pub open spec fn extension_table_function_registrations_fn() -> spec_fn(ExtensionPlan) -> Seq<char> {
    |e: ExtensionPlan| concat_map(e.table_functions@, table_function_registration_fn())
}

/// `src/table_functions.rs` of the generated crate: the fixed
/// opening, one registration block per table function of every
/// extension, the count comment (and a note when there are none),
/// the fixed closing.
pub open spec fn table_functions_rs_text(plan: BridgePlan) -> Seq<char> {
    GENERATED_HEADER@ + TABLE_FUNCTIONS_HEAD@
        + concat_map(plan.extensions@, extension_table_function_registrations_fn())
        + "    // Phase 4c: "@ + nat_decimal(total_table_functions(plan)) + " canonical + "@
        + nat_decimal(total_table_function_aliases(plan)) + " alias UDTFs registered.\n"@
        + (if total_table_functions(plan) == 0 {
            "    // (no UDTFs in this interface DB)\n"@
        } else {
            seq![]
        }) + TABLE_FUNCTIONS_TAIL@
}

fn push_table_function_registration(s: &mut String, tf: &TableFunctionInfo)
    ensures
        final(s)@ == old(s)@ + table_function_registration(*tf),
{
    let mut t = String::from_str("    register_udtf(conn, \"");
    t.append(tf.canonical_name.as_str());
    t.append("\")?;\n");
    let ghost base = t@;
    let mut j: usize = 0;
    assert(base + concat_map(tf.aliases@.take(0), table_function_alias_line_fn(*tf)) =~= base);
    while j < tf.aliases.len()
        invariant
            j <= tf.aliases.len(),
            t@ == base + concat_map(tf.aliases@.take(j as int), table_function_alias_line_fn(*tf)),
        decreases tf.aliases.len() - j,
    {
        let mut u = String::from_str("    register_udtf(conn, \"");
        u.append(tf.aliases[j].as_str());
        u.append("\")?; // alias of ");
        u.append(tf.canonical_name.as_str());
        u.append("\n");
        t.append(u.as_str());
        proof {
            lemma_concat_map_step(tf.aliases@, table_function_alias_line_fn(*tf), j as int);
            assert(t@ =~= base + concat_map(tf.aliases@.take(j + 1), table_function_alias_line_fn(*tf)));
        }
        j = j + 1;
    }
    assert(tf.aliases@.take(tf.aliases@.len() as int) =~= tf.aliases@);
    s.append(t.as_str());
}

fn push_extension_table_functions(s: &mut String, e: &ExtensionPlan) -> (aliases: usize)
    requires
        sum_map(e.table_functions@, table_function_alias_count_fn()) <= i32::MAX,
    ensures
        final(s)@ == old(s)@ + concat_map(e.table_functions@, table_function_registration_fn()),
        aliases == sum_map(e.table_functions@, table_function_alias_count_fn()),
{
    let ghost start = s@;
    let mut aliases: usize = 0;
    let mut j: usize = 0;
    assert(start + concat_map(e.table_functions@.take(0), table_function_registration_fn()) =~= start);
    while j < e.table_functions.len()
        invariant
            j <= e.table_functions.len(),
            sum_map(e.table_functions@, table_function_alias_count_fn()) <= i32::MAX,
            s@ == start + concat_map(e.table_functions@.take(j as int), table_function_registration_fn()),
            aliases == sum_map(e.table_functions@.take(j as int), table_function_alias_count_fn()),
        decreases e.table_functions.len() - j,
    {
        push_table_function_registration(s, &e.table_functions[j]);
        proof {
            lemma_concat_map_step(e.table_functions@, table_function_registration_fn(), j as int);
            lemma_sum_map_step(e.table_functions@, table_function_alias_count_fn(), j as int);
            lemma_sum_map_prefix(e.table_functions@, table_function_alias_count_fn(), j + 1);
            assert(s@ =~= start + concat_map(e.table_functions@.take(j + 1), table_function_registration_fn()));
        }
        aliases = aliases + e.table_functions[j].aliases.len();
        j = j + 1;
    }
    assert(e.table_functions@.take(e.table_functions@.len() as int) =~= e.table_functions@);
    aliases
}

/// Register every table function the shim publishes. The canonical
/// and alias counts are `i32` in the emitter, so the plan holds at
/// most `i32::MAX` of each.
pub fn table_functions_rs(plan: &BridgePlan) -> (r: String)
    requires
        total_table_functions(*plan) <= i32::MAX,
        total_table_function_aliases(*plan) <= i32::MAX,
    ensures
        r@ == table_functions_rs_text(*plan),
{
    let mut s = generated_header();
    s.append(TABLE_FUNCTIONS_HEAD);
    let ghost start = s@;
    let exts = &plan.extensions;
    let mut canonical: usize = 0;
    let mut alias_count: usize = 0;
    let mut i: usize = 0;
    assert(start + concat_map(exts@.take(0), extension_table_function_registrations_fn()) =~= start);
    while i < exts.len()
        invariant
            i <= exts.len(),
            exts == plan.extensions,
            total_table_functions(*plan) <= i32::MAX,
            total_table_function_aliases(*plan) <= i32::MAX,
            s@ == start + concat_map(exts@.take(i as int), extension_table_function_registrations_fn()),
            canonical == sum_map(exts@.take(i as int), extension_table_function_count_fn()),
            alias_count == sum_map(exts@.take(i as int), extension_table_function_alias_count_fn()),
        decreases exts.len() - i,
    {
        proof {
            lemma_sum_map_step(exts@, extension_table_function_count_fn(), i as int);
            lemma_sum_map_step(exts@, extension_table_function_alias_count_fn(), i as int);
            lemma_sum_map_prefix(exts@, extension_table_function_count_fn(), i + 1);
            lemma_sum_map_prefix(exts@, extension_table_function_alias_count_fn(), i + 1);
        }
        let n = push_extension_table_functions(&mut s, &exts[i]);
        proof {
            lemma_concat_map_step(exts@, extension_table_function_registrations_fn(), i as int);
            assert(s@ =~= start + concat_map(exts@.take(i + 1), extension_table_function_registrations_fn()));
        }
        canonical = canonical + exts[i].table_functions.len();
        alias_count = alias_count + n;
        i = i + 1;
    }
    assert(exts@.take(exts@.len() as int) =~= exts@);
    assert(s@ == start + concat_map(plan.extensions@, extension_table_function_registrations_fn()));
    s.append("    // Phase 4c: ");
    push_u64(&mut s, canonical as u64);
    s.append(" canonical + ");
    push_u64(&mut s, alias_count as u64);
    s.append(" alias UDTFs registered.\n");
    let ghost before_note = s@;
    if canonical == 0 {
        s.append("    // (no UDTFs in this interface DB)\n");
    } else {
        assert(s@ =~= before_note + seq![]);
    }
    s.append(TABLE_FUNCTIONS_TAIL);
    s
}

/// The comment line naming one window function.
pub open spec fn window_line_fn() -> spec_fn(WindowFunctionInfo) -> Seq<char> {
    |w: WindowFunctionInfo| "// window `"@ + w.canonical_name@ + "`\n"@
}

/// The window-function lines of an extension, in order.
pub open spec fn extension_window_lines_fn() -> spec_fn(ExtensionPlan) -> Seq<char> {
    |e: ExtensionPlan| concat_map(e.window_functions@, window_line_fn())
}

/// `src/window_functions.rs` of the generated crate: the fixed
/// opening, one comment line per window function of every
/// extension, the closing to-do line.
pub open spec fn window_functions_rs_text(plan: BridgePlan) -> Seq<char> {
    GENERATED_HEADER@ + WINDOW_FUNCTIONS_HEAD@
        + concat_map(plan.extensions@, extension_window_lines_fn()) + WINDOW_FUNCTIONS_TAIL@
}

fn push_extension_windows(s: &mut String, e: &ExtensionPlan)
    ensures
        final(s)@ == old(s)@ + concat_map(e.window_functions@, window_line_fn()),
{
    let ghost start = s@;
    let mut j: usize = 0;
    assert(start + concat_map(e.window_functions@.take(0), window_line_fn()) =~= start);
    while j < e.window_functions.len()
        invariant
            j <= e.window_functions.len(),
            s@ == start + concat_map(e.window_functions@.take(j as int), window_line_fn()),
        decreases e.window_functions.len() - j,
    {
        let mut u = String::from_str("// window `");
        u.append(e.window_functions[j].canonical_name.as_str());
        u.append("`\n");
        s.append(u.as_str());
        proof {
            lemma_concat_map_step(e.window_functions@, window_line_fn(), j as int);
            assert(s@ =~= start + concat_map(e.window_functions@.take(j + 1), window_line_fn()));
        }
        j = j + 1;
    }
    assert(e.window_functions@.take(e.window_functions@.len() as int) =~= e.window_functions@);
}

/// Window-function registration file (comment listing for now).
pub fn window_functions_rs(plan: &BridgePlan) -> (r: String)
    ensures
        r@ == window_functions_rs_text(*plan),
{
    let mut s = generated_header();
    s.append(WINDOW_FUNCTIONS_HEAD);
    let ghost start = s@;
    let exts = &plan.extensions;
    let mut i: usize = 0;
    assert(start + concat_map(exts@.take(0), extension_window_lines_fn()) =~= start);
    while i < exts.len()
        invariant
            i <= exts.len(),
            s@ == start + concat_map(exts@.take(i as int), extension_window_lines_fn()),
        decreases exts.len() - i,
    {
        push_extension_windows(&mut s, &exts[i]);
        proof {
            lemma_concat_map_step(exts@, extension_window_lines_fn(), i as int);
            assert(s@ =~= start + concat_map(exts@.take(i + 1), extension_window_lines_fn()));
        }
        i = i + 1;
    }
    assert(exts@.take(exts@.len() as int) =~= exts@);
    s.append(WINDOW_FUNCTIONS_TAIL);
    s
}

} // verus!
