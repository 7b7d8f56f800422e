//! `src/lib.rs` of the generated crate declares no module beyond those
//! whose files are written.

use vstd::prelude::*;

use super::arms::no_char;
use super::{contains_text, lemma_contains_at};
use crate::emit::crate_files::{
    bridge_modules, extension_summary, extension_summary_fn, lemma_module_block, lib_rs_text,
};
use crate::emit::templates::{GENERATED_HEADER, LIB_RS_BODY, LIB_RS_DOC, LIB_RS_MODULES};
use crate::plan::{BridgePlan, ExtensionPlan};
use crate::text::{digit_char, join_map, nat_decimal};

verus! {

/// Each `p` of `s` is followed, within `s`, by a character that breaks
/// `pub mod `, so no `pub mod ` starts in `s`.
pub open spec fn breaks_pub_mod(s: Seq<char>) -> bool {
    forall|i: int|
        0 <= i < s.len() && #[trigger] s[i] == 'p' ==> exists|j: int|
            0 < j < 8 && i + j < s.len() && #[trigger] s[i + j] != "pub mod "@[j]
}

/// Each `p` of `s` is followed, within `s` and among the next four
/// characters, by one that breaks `pub m`.
pub open spec fn breaks_early(s: Seq<char>) -> bool {
    forall|i: int|
        0 <= i < s.len() && #[trigger] s[i] == 'p' ==> {
            ||| (i + 1 < s.len() && s[i + 1] != 'u')
            ||| (i + 2 < s.len() && s[i + 1] == 'u' && s[i + 2] != 'b')
            ||| (i + 3 < s.len() && s[i + 1] == 'u' && s[i + 2] == 'b' && s[i + 3] != ' ')
            ||| (i + 4 < s.len() && s[i + 1] == 'u' && s[i + 2] == 'b' && s[i + 3] == ' ' && s[i + 4] != 'm')
        }
}

proof fn lemma_early(s: Seq<char>)
    requires
        breaks_early(s),
    ensures
        breaks_pub_mod(s),
{
    reveal_strlit("pub mod ");
    assert forall|i: int| 0 <= i < s.len() && #[trigger] s[i] == 'p' implies exists|j: int|
        0 < j < 8 && i + j < s.len() && #[trigger] s[i + j] != "pub mod "@[j] by {
        if i + 1 < s.len() && s[i + 1] != 'u' {
            assert(s[i + 1] != "pub mod "@[1]);
        } else if i + 2 < s.len() && s[i + 1] == 'u' && s[i + 2] != 'b' {
            assert(s[i + 2] != "pub mod "@[2]);
        } else if i + 3 < s.len() && s[i + 1] == 'u' && s[i + 2] == 'b' && s[i + 3] != ' ' {
            assert(s[i + 3] != "pub mod "@[3]);
        } else {
            assert(s[i + 4] != "pub mod "@[4]);
        }
    }
}

proof fn lemma_breaks_concat(a: Seq<char>, b: Seq<char>)
    requires
        breaks_pub_mod(a),
        breaks_pub_mod(b),
    ensures
        breaks_pub_mod(a + b),
{
    let h = a + b;
    assert forall|i: int| 0 <= i < h.len() && #[trigger] h[i] == 'p' implies exists|j: int|
        0 < j < 8 && i + j < h.len() && #[trigger] h[i + j] != "pub mod "@[j] by {
        if i < a.len() {
            assert(a[i] == h[i]);
            let j = choose|j: int| 0 < j < 8 && i + j < a.len() && #[trigger] a[i + j] != "pub mod "@[j];
            assert(h[i + j] == a[i + j]);
        } else {
            assert(b[i - a.len()] == h[i]);
            let j = choose|j: int|
                0 < j < 8 && i - a.len() + j < b.len() && #[trigger] b[i - a.len() + j] != "pub mod "@[j];
            assert(h[i + j] == b[i - a.len() + j]);
        }
    }
}

proof fn lemma_decimal_no_p(n: nat)
    ensures
        forall|i: int| 0 <= i < nat_decimal(n).len() ==> #[trigger] nat_decimal(n)[i] != 'p',
    decreases n,
{
    if n >= 10 {
        lemma_decimal_no_p(n / 10);
        assert forall|i: int| 0 <= i < nat_decimal(n).len() implies #[trigger] nat_decimal(n)[i] != 'p' by {
            let hd = nat_decimal(n / 10);
            if i < hd.len() {
                assert(nat_decimal(n)[i] == hd[i]);
            } else {
                assert(nat_decimal(n)[i] == digit_char(n % 10));
            }
        }
    }
}

/// A plan text, then a tail without `p` that opens with a space and a
/// character other than `m`: when the text and a space hold no
/// `pub mod `, each `p` of them is broken within them.
proof fn lemma_breaks_named(pre: Seq<char>, x: Seq<char>, tail: Seq<char>)
    requires
        breaks_pub_mod(pre),
        !contains_text(x + " "@, "pub mod "@),
        tail.len() >= 2,
        tail[0] == ' ',
        tail[1] != 'm',
        forall|i: int| 0 <= i < tail.len() ==> #[trigger] tail[i] != 'p',
    ensures
        breaks_pub_mod(pre + x + tail),
{
    lemma_breaks_named_bare(x, tail);
    lemma_breaks_concat(pre, x + tail);
    assert(pre + (x + tail) =~= pre + x + tail);
}

#[verifier::rlimit(40)]
proof fn lemma_breaks_named_bare(x: Seq<char>, tail: Seq<char>)
    requires
        !contains_text(x + " "@, "pub mod "@),
        tail.len() >= 2,
        tail[0] == ' ',
        tail[1] != 'm',
        forall|i: int| 0 <= i < tail.len() ==> #[trigger] tail[i] != 'p',
    ensures
        breaks_pub_mod(x + tail),
{
    reveal_strlit("pub mod ");
    reveal_strlit(" ");
    let n = "pub mod "@;
    let xs = x + " "@;
    let h = x + tail;
    assert forall|i: int| 0 <= i < h.len() && #[trigger] h[i] == 'p' implies exists|j: int|
        0 < j < 8 && i + j < h.len() && #[trigger] h[i + j] != n[j] by {
        if i >= x.len() {
            assert(h[i] == tail[i - x.len()]);
        } else {
            assert(forall|j: int| 0 <= j && i + j <= x.len() ==> #[trigger] h[i + j] == xs[i + j]);
            if i + 8 <= xs.len() {
                assert(xs.subrange(i, i + 8) != n) by {
                    if xs.subrange(i, i + 8) == n {
                        lemma_contains_at(xs, n, i);
                    }
                }
                assert(!(xs.subrange(i, i + 8) =~= n));
                let j = choose|j: int| 0 <= j < 8 && xs.subrange(i, i + 8)[j] != n[j];
                assert(xs.subrange(i, i + 8)[j] == xs[i + j]);
                assert(j > 0);
                assert(h[i + j] == xs[i + j]);
            } else {
                let l = xs.len() - i;
                if exists|j: int| 0 <= j < l && #[trigger] xs[i + j] != n[j] {
                    let j = choose|j: int| 0 <= j < l && #[trigger] xs[i + j] != n[j];
                    assert(j > 0);
                    assert(h[i + j] == xs[i + j]);
                } else {
                    let jl = l - 1;
                    assert(xs[i + jl] == n[jl]);
                    assert(xs[i + jl] == ' ');
                    assert(jl == 3);
                    assert(h[i + 4] == tail[1]);
                }
            }
        }
    }
}

/// The summary line of an extension breaks every `pub mod `, when its
/// name and its version, each followed by a space, hold none.
#[verifier::rlimit(40)]
proof fn lemma_summary_breaks(e: ExtensionPlan)
    requires
        !contains_text(e.name@ + " "@, "pub mod "@),
        !contains_text(e.version@ + " "@, "pub mod "@),
    ensures
        breaks_pub_mod(extension_summary(e)),
{
    reveal_strlit("//   - ");
    reveal_strlit(" v");
    reveal_strlit("  (");
    reveal_strlit(" scalars, ");
    reveal_strlit(" agg, ");
    reveal_strlit(" udtf, ");
    reveal_strlit(" window, ");
    reveal_strlit(" types, ");
    reveal_strlit(" ops, ");
    reveal_strlit(" casts, ");
    reveal_strlit(" preps, ");
    reveal_strlit(" catalog, ");
    reveal_strlit(" indexes)");
    lemma_early("//   - "@);
    lemma_early(" scalars, "@);
    lemma_early(" agg, "@);
    lemma_early(" udtf, "@);
    lemma_early(" window, "@);
    lemma_early(" types, "@);
    lemma_early(" ops, "@);
    lemma_early(" casts, "@);
    lemma_early(" preps, "@);
    lemma_early(" catalog, "@);
    lemma_early(" indexes)"@);
    lemma_breaks_named("//   - "@, e.name@, " v"@);
    let s1 = "//   - "@ + e.name@ + " v"@;
    lemma_breaks_named(s1, e.version@, "  ("@);
    let s2 = s1 + e.version@ + "  ("@;
    lemma_decimal_no_p(e.scalars@.len());
    lemma_breaks_concat(s2, nat_decimal(e.scalars@.len()));
    let s3 = s2 + nat_decimal(e.scalars@.len());
    lemma_breaks_concat(s3, " scalars, "@);
    let s4 = s3 + " scalars, "@;
    lemma_decimal_no_p(e.aggregates@.len());
    lemma_breaks_concat(s4, nat_decimal(e.aggregates@.len()));
    let s5 = s4 + nat_decimal(e.aggregates@.len());
    lemma_breaks_concat(s5, " agg, "@);
    let s6 = s5 + " agg, "@;
    lemma_decimal_no_p(e.table_functions@.len());
    lemma_breaks_concat(s6, nat_decimal(e.table_functions@.len()));
    let s7 = s6 + nat_decimal(e.table_functions@.len());
    lemma_breaks_concat(s7, " udtf, "@);
    let s8 = s7 + " udtf, "@;
    lemma_decimal_no_p(e.window_functions@.len());
    lemma_breaks_concat(s8, nat_decimal(e.window_functions@.len()));
    let s9 = s8 + nat_decimal(e.window_functions@.len());
    lemma_breaks_concat(s9, " window, "@);
    let s10 = s9 + " window, "@;
    lemma_decimal_no_p(e.column_types@.len());
    lemma_breaks_concat(s10, nat_decimal(e.column_types@.len()));
    let s11 = s10 + nat_decimal(e.column_types@.len());
    lemma_breaks_concat(s11, " types, "@);
    let s12 = s11 + " types, "@;
    lemma_decimal_no_p(e.operators@.len());
    lemma_breaks_concat(s12, nat_decimal(e.operators@.len()));
    let s13 = s12 + nat_decimal(e.operators@.len());
    lemma_breaks_concat(s13, " ops, "@);
    let s14 = s13 + " ops, "@;
    lemma_decimal_no_p(e.cast_rewrites@.len());
    lemma_breaks_concat(s14, nat_decimal(e.cast_rewrites@.len()));
    let s15 = s14 + nat_decimal(e.cast_rewrites@.len());
    lemma_breaks_concat(s15, " casts, "@);
    let s16 = s15 + " casts, "@;
    lemma_decimal_no_p(e.preprocessor_patterns@.len());
    lemma_breaks_concat(s16, nat_decimal(e.preprocessor_patterns@.len()));
    let s17 = s16 + nat_decimal(e.preprocessor_patterns@.len());
    lemma_breaks_concat(s17, " preps, "@);
    let s18 = s17 + " preps, "@;
    lemma_decimal_no_p(e.system_catalog_tables@.len());
    lemma_breaks_concat(s18, nat_decimal(e.system_catalog_tables@.len()));
    let s19 = s18 + nat_decimal(e.system_catalog_tables@.len());
    lemma_breaks_concat(s19, " catalog, "@);
    let s20 = s19 + " catalog, "@;
    lemma_decimal_no_p(e.spatial_indexes@.len());
    lemma_breaks_concat(s20, nat_decimal(e.spatial_indexes@.len()));
    let s21 = s20 + nat_decimal(e.spatial_indexes@.len());
    lemma_breaks_concat(s21, " indexes)"@);
    let s22 = s21 + " indexes)"@;
    assert(extension_summary(e) == s22);
    assert(breaks_pub_mod(extension_summary(e)));
}

proof fn lemma_summaries_break(exts: Seq<ExtensionPlan>)
    requires
        forall|i: int| 0 <= i < exts.len() ==> breaks_pub_mod(#[trigger] extension_summary(exts[i])),
    ensures
        breaks_pub_mod(join_map(exts, extension_summary_fn(), seq!['\n'])),
    decreases exts.len(),
{
    if exts.len() == 1 {
        assert(breaks_pub_mod(extension_summary(exts[0])));
    } else if exts.len() > 1 {
        let rest = exts.drop_last();
        assert forall|i: int| 0 <= i < rest.len() implies breaks_pub_mod(#[trigger] extension_summary(rest[i])) by {
            assert(rest[i] == exts[i]);
        }
        lemma_summaries_break(rest);
        assert(breaks_pub_mod(extension_summary(exts[exts.len() - 1])));
        lemma_breaks_concat(join_map(rest, extension_summary_fn(), seq!['\n']), seq!['\n']);
        lemma_breaks_concat(
            join_map(rest, extension_summary_fn(), seq!['\n']) + seq!['\n'],
            extension_summary(exts.last()),
        );
    }
}

/// A name and `;` standing at `b` of `h`, where another name without `;`
/// and `;` also stand, is that name.
proof fn lemma_same_name(h: Seq<char>, b: int, name: Seq<char>, m: Seq<char>)
    requires
        0 <= b,
        b + name.len() + 1 <= h.len(),
        h.subrange(b, b + name.len() + 1) == name + ";"@,
        no_char(name, ';'),
        b + m.len() + 1 <= h.len(),
        h.subrange(b, b + m.len() + 1) == m + ";"@,
        no_char(m, ';'),
    ensures
        m == name,
{
    reveal_strlit(";");
    if m.len() < name.len() {
        assert(h.subrange(b, b + m.len() + 1)[m.len() as int] == h[b + m.len()]);
        assert(h.subrange(b, b + name.len() + 1)[m.len() as int] == h[b + m.len()]);
    } else if m.len() > name.len() {
        assert(h.subrange(b, b + m.len() + 1)[name.len() as int] == h[b + name.len()]);
        assert(h.subrange(b, b + name.len() + 1)[name.len() as int] == h[b + name.len()]);
    } else {
        assert forall|j: int| 0 <= j < m.len() implies m[j] == name[j] by {
            assert(h.subrange(b, b + m.len() + 1)[j] == h[b + j]);
            assert(h.subrange(b, b + name.len() + 1)[j] == h[b + j]);
        }
        assert(m =~= name);
    }
}

/// The fixed texts of `src/lib.rs` around its module declarations
/// break every `pub mod `.
#[verifier::rlimit(40)]
proof fn lemma_fixed_lib_text()
    ensures
        breaks_pub_mod(GENERATED_HEADER@ + LIB_RS_DOC@),
        breaks_pub_mod(LIB_RS_BODY@),
        breaks_pub_mod("// Extensions loaded by this bridge:\n//\n"@),
        breaks_pub_mod(seq!['\n']),
{
    reveal_strlit("// === GENERATED by sqlink-shim-codegen — do not edit by hand ===\n\n");
    reveal_strlit("//! Generated SQLite extension entry point.\n//!\n//! Load with:\n//!   sqlite> .load ./target/release/lib<ext>_sqlite_bridge\n//!\n//! Phase 1 (2026-06-23): scalar dispatch wired through\n//! df-plugin-loader. ST_GeomFromText is fully functional; the\n//! other categories (aggregates, UDTFs, window funcs, types,\n//! operators, casts, preprocessors, system catalog, spatial\n//! indexes) are scaffold-only — see per-module TODOs and\n//! AGENTS.md for the phased plan.\n\n");
    reveal_strlit("\nuse std::os::raw::{c_char, c_int};\n\nuse rusqlite::ffi;\nuse rusqlite::{Connection, Result};\n\n/// SQLite extension entry point. Loaded by SQLite when the\n/// user runs `.load`. rusqlite's `extension_init2` wraps the\n/// `SQLITE_EXTENSION_INIT2` macro: it stashes the api routines\n/// pointer and hands us a safe `Connection`.\n///\n/// Symbol name must be `sqlite3_extension_init` for the\n/// default `.load` behavior (no explicit init-function name).\n#[allow(clippy::not_unsafe_ptr_arg_deref)]\n#[no_mangle]\npub unsafe extern \"C\" fn sqlite3_extension_init(\n    db: *mut ffi::sqlite3,\n    pz_err_msg: *mut *mut c_char,\n    p_api: *mut ffi::sqlite3_api_routines,\n) -> c_int {\n    Connection::extension_init2(db, pz_err_msg, p_api, init_inner)\n}\n\nfn init_inner(conn: Connection) -> Result<bool> {\n    // Load the composed shim wasm exactly once. The path comes\n    // from `<EXT>_SHIM_WASM` env var so the bridge isn't pinned\n    // to a build-time path (matches the host's runtime-loaded\n    // model).\n    registry::load_shim().map_err(|e| {\n        // `{e:#}` walks the anyhow chain so the user sees the\n        // underlying cause (wasm parse error, missing import,\n        // etc.) rather than just the top-level wrapper.\n        rusqlite::Error::UserFunctionError(\n            format!(\"shim load: {e:#}\").into()\n        )\n    })?;\n\n    // Register scalars (Phase 2) + aggregates (Phase 3c).\n    scalars::register_all(&conn)\n        .map_err(|e| rusqlite::Error::UserFunctionError(\n            format!(\"scalar registration: {e}\").into()\n        ))?;\n    aggregates::register_all(&conn)\n        .map_err(|e| rusqlite::Error::UserFunctionError(\n            format!(\"aggregate registration: {e}\").into()\n        ))?;\n    table_functions::register_all(&conn)\n        .map_err(|e| rusqlite::Error::UserFunctionError(\n            format!(\"table function registration: {e}\").into()\n        ))?;\n\n    // Returning `true` means \"extension fully initialized — no\n    // need to keep it loaded across DB sessions\". `false` would\n    // ask SQLite to auto-load on every new connection in the\n    // process.\n    Ok(true)\n}\n\n");
    reveal_strlit("// Extensions loaded by this bridge:\n//\n");
    lemma_early(GENERATED_HEADER@);
    lemma_early(LIB_RS_DOC@);
    lemma_early(LIB_RS_BODY@);
    lemma_early("// Extensions loaded by this bridge:\n//\n"@);
    lemma_early(seq!['\n']);
    lemma_breaks_concat(GENERATED_HEADER@, LIB_RS_DOC@);
}

/// Where `pub ` starts in the module declarations: at the start of one
/// of their lines.
proof fn lemma_module_starts(k2: int)
    requires
        0 <= k2 < LIB_RS_MODULES@.len(),
        LIB_RS_MODULES@[k2] == 'p',
        k2 + 1 < LIB_RS_MODULES@.len() ==> LIB_RS_MODULES@[k2 + 1] == 'u',
        k2 + 2 < LIB_RS_MODULES@.len() ==> LIB_RS_MODULES@[k2 + 2] == 'b',
        k2 + 3 < LIB_RS_MODULES@.len() ==> LIB_RS_MODULES@[k2 + 3] == ' ',
    ensures
        k2 == 0 || k2 == 18 || k2 == 35 || k2 == 55 || k2 == 80 || k2 == 106 || k2 == 121 || k2 == 140 || k2 == 155 || k2 == 178 || k2 == 202,
{
    reveal_strlit("pub mod registry;\npub mod scalars;\npub mod aggregates;\npub mod table_functions;\npub mod window_functions;\npub mod types;\npub mod operators;\npub mod casts;\npub mod preprocessors;\npub mod system_catalog;\npub mod spatial_indexes;\n");
}

/// The module declarations hold, after each `pub mod `, the module's
/// name and `;`.
proof fn lemma_module_lines()
    ensures
        LIB_RS_MODULES@.len() == 227,
        LIB_RS_MODULES@.subrange(8, 17) == "registry;"@,
        bridge_modules()[0] == "registry"@,
        "registry;"@ == "registry"@ + ";"@,
        no_char("registry"@, ';'),
        LIB_RS_MODULES@.subrange(26, 34) == "scalars;"@,
        bridge_modules()[1] == "scalars"@,
        "scalars;"@ == "scalars"@ + ";"@,
        no_char("scalars"@, ';'),
        LIB_RS_MODULES@.subrange(43, 54) == "aggregates;"@,
        bridge_modules()[2] == "aggregates"@,
        "aggregates;"@ == "aggregates"@ + ";"@,
        no_char("aggregates"@, ';'),
        LIB_RS_MODULES@.subrange(63, 79) == "table_functions;"@,
        bridge_modules()[3] == "table_functions"@,
        "table_functions;"@ == "table_functions"@ + ";"@,
        no_char("table_functions"@, ';'),
        LIB_RS_MODULES@.subrange(88, 105) == "window_functions;"@,
        bridge_modules()[4] == "window_functions"@,
        "window_functions;"@ == "window_functions"@ + ";"@,
        no_char("window_functions"@, ';'),
        LIB_RS_MODULES@.subrange(114, 120) == "types;"@,
        bridge_modules()[5] == "types"@,
        "types;"@ == "types"@ + ";"@,
        no_char("types"@, ';'),
        LIB_RS_MODULES@.subrange(129, 139) == "operators;"@,
        bridge_modules()[6] == "operators"@,
        "operators;"@ == "operators"@ + ";"@,
        no_char("operators"@, ';'),
        LIB_RS_MODULES@.subrange(148, 154) == "casts;"@,
        bridge_modules()[7] == "casts"@,
        "casts;"@ == "casts"@ + ";"@,
        no_char("casts"@, ';'),
        LIB_RS_MODULES@.subrange(163, 177) == "preprocessors;"@,
        bridge_modules()[8] == "preprocessors"@,
        "preprocessors;"@ == "preprocessors"@ + ";"@,
        no_char("preprocessors"@, ';'),
        LIB_RS_MODULES@.subrange(186, 201) == "system_catalog;"@,
        bridge_modules()[9] == "system_catalog"@,
        "system_catalog;"@ == "system_catalog"@ + ";"@,
        no_char("system_catalog"@, ';'),
        LIB_RS_MODULES@.subrange(210, 226) == "spatial_indexes;"@,
        bridge_modules()[10] == "spatial_indexes"@,
        "spatial_indexes;"@ == "spatial_indexes"@ + ";"@,
        no_char("spatial_indexes"@, ';'),
{
    reveal_strlit("pub mod registry;\npub mod scalars;\npub mod aggregates;\npub mod table_functions;\npub mod window_functions;\npub mod types;\npub mod operators;\npub mod casts;\npub mod preprocessors;\npub mod system_catalog;\npub mod spatial_indexes;\n");
    reveal_strlit(";");
    reveal_strlit("registry");
    reveal_strlit("registry;");
    reveal_strlit("scalars");
    reveal_strlit("scalars;");
    reveal_strlit("aggregates");
    reveal_strlit("aggregates;");
    reveal_strlit("table_functions");
    reveal_strlit("table_functions;");
    reveal_strlit("window_functions");
    reveal_strlit("window_functions;");
    reveal_strlit("types");
    reveal_strlit("types;");
    reveal_strlit("operators");
    reveal_strlit("operators;");
    reveal_strlit("casts");
    reveal_strlit("casts;");
    reveal_strlit("preprocessors");
    reveal_strlit("preprocessors;");
    reveal_strlit("system_catalog");
    reveal_strlit("system_catalog;");
    reveal_strlit("spatial_indexes");
    reveal_strlit("spatial_indexes;");
}

/// `src/lib.rs` declares no module beyond those whose files are written:
/// a `pub mod <m>;` line in it names one of [`bridge_modules`]. This
/// holds when no extension's name or version, followed by a space,
/// holds `pub mod `, and `m` holds no `;`.
#[verifier::rlimit(60)]
pub proof fn law_lib_rs_declares_only_written_modules(plan: BridgePlan, m: Seq<char>)
    requires
        forall|i: int|
            0 <= i < plan.extensions@.len() ==> !contains_text(
                #[trigger] plan.extensions@[i].name@ + " "@,
                "pub mod "@,
            ) && !contains_text(plan.extensions@[i].version@ + " "@, "pub mod "@),
        no_char(m, ';'),
    ensures
        contains_text(lib_rs_text(plan), "pub mod "@ + m + ";\n"@) ==> bridge_modules().contains(m),
{
    reveal_strlit("pub mod ");
    reveal_strlit(";\n");
    reveal_strlit(";");
    lemma_module_block();
    lemma_fixed_lib_text();
    lemma_module_lines();
    let exts = plan.extensions@;
    let hd = GENERATED_HEADER@ + LIB_RS_DOC@;
    let d = LIB_RS_MODULES@;
    let ext = "// Extensions loaded by this bridge:\n//\n"@;
    let sums = join_map(exts, extension_summary_fn(), seq!['\n']);
    let t = LIB_RS_BODY@ + ext + sums + seq!['\n'];
    let h = lib_rs_text(plan);
    assert(h =~= hd + d + t);
    assert forall|i: int| 0 <= i < exts.len() implies breaks_pub_mod(#[trigger] extension_summary(exts[i])) by {
        lemma_summary_breaks(exts[i]);
    }
    lemma_summaries_break(exts);
    lemma_breaks_concat(LIB_RS_BODY@, ext);
    lemma_breaks_concat(LIB_RS_BODY@ + ext, sums);
    lemma_breaks_concat(LIB_RS_BODY@ + ext + sums, seq!['\n']);
    let needle = "pub mod "@ + m + ";\n"@;
    if contains_text(h, needle) {
        let k = choose|k: int| 0 <= k && k + needle.len() <= h.len() && #[trigger] h.subrange(k, k + needle.len()) == needle;
        let w = h.subrange(k, k + needle.len());
        assert forall|j: int| 0 <= j < 8 implies #[trigger] h[k + j] == "pub mod "@[j] by {
            assert(w[j] == h[k + j]);
        }
        assert(w[0] == h[k]);
        assert(needle[0] == 'p');
        assert(h.subrange(k + 8, k + 8 + m.len() + 1) =~= m + ";"@) by {
            assert forall|j: int| 0 <= j < m.len() + 1 implies h.subrange(k + 8, k + 8 + m.len() + 1)[j]
                == (m + ";"@)[j] by {
                assert(w[8 + j] == h[k + 8 + j]);
            }
        }
        if k < hd.len() {
            assert(h[k] == hd[k]);
            assert(h[k] == 'p');
            assert(hd[k] == 'p');
            assert(exists|j: int| 0 < j < 8 && k + j < hd.len() && #[trigger] hd[k + j] != "pub mod "@[j]);
            let j = choose|j: int| 0 < j < 8 && k + j < hd.len() && #[trigger] hd[k + j] != "pub mod "@[j];
            assert(h[k + j] == hd[k + j]);
        } else if k >= hd.len() + d.len() {
            let k3 = k - hd.len() - d.len();
            assert(h[k] == t[k3]);
            assert(h[k] == 'p');
            assert(t[k3] == 'p');
            assert(exists|j: int| 0 < j < 8 && k3 + j < t.len() && #[trigger] t[k3 + j] != "pub mod "@[j]);
            let j = choose|j: int| 0 < j < 8 && k3 + j < t.len() && #[trigger] t[k3 + j] != "pub mod "@[j];
            assert(h[k + j] == t[k3 + j]);
        } else {
            let k2 = k - hd.len();
            assert(forall|j: int| 0 <= j && k2 + j < d.len() ==> #[trigger] h[k + j] == d[k2 + j]);
            assert(h[k + 1] == "pub mod "@[1]);
            assert(h[k + 2] == "pub mod "@[2]);
            assert(h[k + 3] == "pub mod "@[3]);
            assert(d[k2] == 'p');
            assert(k2 + 1 < d.len() ==> d[k2 + 1] == 'u');
            assert(k2 + 2 < d.len() ==> d[k2 + 2] == 'b');
            assert(k2 + 3 < d.len() ==> d[k2 + 3] == ' ');
            lemma_module_starts(k2);
        if k2 == 0 {
            assert(d.subrange(8, 17) =~= "registry;"@);
            assert(h.subrange(k + 8, k + 8 + 9) =~= d.subrange(k2 + 8, k2 + 8 + 9));
            lemma_same_name(h, k + 8, "registry"@, m);
            assert(bridge_modules()[0] == "registry"@);
        } else if k2 == 18 {
            assert(d.subrange(26, 34) =~= "scalars;"@);
            assert(h.subrange(k + 8, k + 8 + 8) =~= d.subrange(k2 + 8, k2 + 8 + 8));
            lemma_same_name(h, k + 8, "scalars"@, m);
            assert(bridge_modules()[1] == "scalars"@);
        } else if k2 == 35 {
            assert(d.subrange(43, 54) =~= "aggregates;"@);
            assert(h.subrange(k + 8, k + 8 + 11) =~= d.subrange(k2 + 8, k2 + 8 + 11));
            lemma_same_name(h, k + 8, "aggregates"@, m);
            assert(bridge_modules()[2] == "aggregates"@);
        } else if k2 == 55 {
            assert(d.subrange(63, 79) =~= "table_functions;"@);
            assert(h.subrange(k + 8, k + 8 + 16) =~= d.subrange(k2 + 8, k2 + 8 + 16));
            lemma_same_name(h, k + 8, "table_functions"@, m);
            assert(bridge_modules()[3] == "table_functions"@);
        } else if k2 == 80 {
            assert(d.subrange(88, 105) =~= "window_functions;"@);
            assert(h.subrange(k + 8, k + 8 + 17) =~= d.subrange(k2 + 8, k2 + 8 + 17));
            lemma_same_name(h, k + 8, "window_functions"@, m);
            assert(bridge_modules()[4] == "window_functions"@);
        } else if k2 == 106 {
            assert(d.subrange(114, 120) =~= "types;"@);
            assert(h.subrange(k + 8, k + 8 + 6) =~= d.subrange(k2 + 8, k2 + 8 + 6));
            lemma_same_name(h, k + 8, "types"@, m);
            assert(bridge_modules()[5] == "types"@);
        } else if k2 == 121 {
            assert(d.subrange(129, 139) =~= "operators;"@);
            assert(h.subrange(k + 8, k + 8 + 10) =~= d.subrange(k2 + 8, k2 + 8 + 10));
            lemma_same_name(h, k + 8, "operators"@, m);
            assert(bridge_modules()[6] == "operators"@);
        } else if k2 == 140 {
            assert(d.subrange(148, 154) =~= "casts;"@);
            assert(h.subrange(k + 8, k + 8 + 6) =~= d.subrange(k2 + 8, k2 + 8 + 6));
            lemma_same_name(h, k + 8, "casts"@, m);
            assert(bridge_modules()[7] == "casts"@);
        } else if k2 == 155 {
            assert(d.subrange(163, 177) =~= "preprocessors;"@);
            assert(h.subrange(k + 8, k + 8 + 14) =~= d.subrange(k2 + 8, k2 + 8 + 14));
            lemma_same_name(h, k + 8, "preprocessors"@, m);
            assert(bridge_modules()[8] == "preprocessors"@);
        } else if k2 == 178 {
            assert(d.subrange(186, 201) =~= "system_catalog;"@);
            assert(h.subrange(k + 8, k + 8 + 15) =~= d.subrange(k2 + 8, k2 + 8 + 15));
            lemma_same_name(h, k + 8, "system_catalog"@, m);
            assert(bridge_modules()[9] == "system_catalog"@);
        } else if k2 == 202 {
            assert(d.subrange(210, 226) =~= "spatial_indexes;"@);
            assert(h.subrange(k + 8, k + 8 + 16) =~= d.subrange(k2 + 8, k2 + 8 + 16));
            lemma_same_name(h, k + 8, "spatial_indexes"@, m);
            assert(bridge_modules()[10] == "spatial_indexes"@);
        }
        }
    }
}

} // verus!
