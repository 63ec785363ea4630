//! The general laws of the library, each stated over the spec functions
//! that the executable contracts use and proved for every input its
//! statement admits.

use vstd::prelude::*;

use crate::model::{spec_make_func, spec_parse_params, FuncRecordView};
use crate::runtime::{count_resolved, lemma_count_resolved_none, LoadedTable};
use crate::scan::{
    class_capture_from, func_capture_from, spec_scan, spec_scan_line, spec_scan_lines, table_marker,
};
use crate::text::{contains_seq, matches_at};
use crate::types::{
    array_marker, builtin_hit, builtin_keys, builtin_star_keys, builtin_tag, first_builtin_from,
    lemma_first_builtin, name_end, raw_map, reserved_name, rewritten_name, spec_map_type,
    stars_end, type_name_end, MapErrorView, TypeRefView,
};

verus! {

/// `n` stars.
pub open spec fn stars(n: nat) -> Seq<char>
    decreases n,
{
    if n == 0 {
        Seq::<char>::empty()
    } else {
        stars((n - 1) as nat).push('*')
    }
}

proof fn lemma_stars_len(n: nat)
    ensures
        stars(n).len() == n,
        forall|i: int| 0 <= i < n ==> stars(n)[i] == '*',
    decreases n,
{
    if n > 0 {
        lemma_stars_len((n - 1) as nat);
    }
}

proof fn lemma_type_name_end_props(tok: Seq<char>, i: int)
    requires
        0 <= i <= tok.len(),
    ensures
        i <= type_name_end(tok, i) <= tok.len(),
        forall|j: int| i <= j < type_name_end(tok, i) ==> tok[j] != ' ' && tok[j] != '*',
        type_name_end(tok, i) < tok.len() ==> (tok[type_name_end(tok, i)] == ' '
            || tok[type_name_end(tok, i)] == '*'),
    decreases tok.len() - i,
{
    if i < tok.len() && tok[i] != ' ' && tok[i] != '*' {
        lemma_type_name_end_props(tok, i + 1);
    }
}

proof fn lemma_stars_end_props(tok: Seq<char>, i: int)
    requires
        0 <= i <= tok.len(),
    ensures
        i <= stars_end(tok, i) <= tok.len(),
        forall|j: int| i <= j < stars_end(tok, i) ==> tok[j] == '*',
        stars_end(tok, i) < tok.len() ==> tok[stars_end(tok, i)] != '*',
    decreases tok.len() - i,
{
    if i < tok.len() && tok[i] == '*' {
        lemma_stars_end_props(tok, i + 1);
    }
}

proof fn lemma_name_end_props(tok: Seq<char>, i: int)
    requires
        0 <= i <= tok.len(),
    ensures
        i <= name_end(tok, i) <= tok.len(),
    decreases tok.len() - i,
{
    if i < tok.len() && tok[i] != ' ' {
        lemma_name_end_props(tok, i + 1);
    }
}

proof fn lemma_name_end_shift(head: Seq<char>, tail: Seq<char>, i: int)
    requires
        0 <= i <= tail.len(),
    ensures
        name_end(head + tail, head.len() + i) == head.len() + name_end(tail, i),
    decreases tail.len() - i,
{
    if i < tail.len() && tail[i] != ' ' {
        assert((head + tail)[head.len() + i] == tail[i]);
        lemma_name_end_shift(head, tail, i + 1);
    }
}

proof fn lemma_first_builtin_exact(tok: Seq<char>, k: int)
    requires
        0 <= k < 9,
        builtin_hit(tok, k),
        forall|j: int| 0 <= j < k ==> !builtin_hit(tok, j),
    ensures
        first_builtin_from(tok, 0) == Some(k),
{
    lemma_first_builtin(tok, 0);
    match first_builtin_from(tok, 0) {
        Some(kk) => {
            if kk < k {
                assert(!builtin_hit(tok, kk));
            } else if kk > k {
                assert(!builtin_hit(tok, k));
            }
        },
        None => {
            assert(!builtin_hit(tok, k));
        },
    }
}

proof fn reveal_builtin_table()
    ensures
        builtin_keys()[0] == "void"@,
        "void"@ == seq!['v', 'o', 'i', 'd'],
        "int"@ == seq!['i', 'n', 't'],
        "int*"@ == seq!['i', 'n', 't', '*'],
        "const char*"@ == seq!['c', 'o', 'n', 's', 't', ' ', 'c', 'h', 'a', 'r', '*'],
        "char*"@ == seq!['c', 'h', 'a', 'r', '*'],
        "bool"@ == seq!['b', 'o', 'o', 'l'],
        "bool*"@ == seq!['b', 'o', 'o', 'l', '*'],
        "double"@ == seq!['d', 'o', 'u', 'b', 'l', 'e'],
        "double*"@ == seq!['d', 'o', 'u', 'b', 'l', 'e', '*'],
        "void*"@ == seq!['v', 'o', 'i', 'd', '*'],
        "int**"@ == seq!['i', 'n', 't', '*', '*'],
        "const char**"@ == seq!['c', 'o', 'n', 's', 't', ' ', 'c', 'h', 'a', 'r', '*', '*'],
        "char**"@ == seq!['c', 'h', 'a', 'r', '*', '*'],
        "bool**"@ == seq!['b', 'o', 'o', 'l', '*', '*'],
        "double**"@ == seq!['d', 'o', 'u', 'b', 'l', 'e', '*', '*'],
        forall|k: int|
            0 <= k < 9 ==> (#[trigger] builtin_star_keys()[k]) == builtin_keys()[k].push('*'),
{
    reveal_strlit("void");
    reveal_strlit("int");
    reveal_strlit("int*");
    reveal_strlit("const char*");
    reveal_strlit("char*");
    reveal_strlit("bool");
    reveal_strlit("bool*");
    reveal_strlit("double");
    reveal_strlit("double*");
    reveal_strlit("void*");
    reveal_strlit("int**");
    reveal_strlit("const char**");
    reveal_strlit("char**");
    reveal_strlit("bool**");
    reveal_strlit("double**");
    assert("void"@ =~= seq!['v', 'o', 'i', 'd']);
    assert("int"@ =~= seq!['i', 'n', 't']);
    assert("int*"@ =~= seq!['i', 'n', 't', '*']);
    assert("const char*"@ =~= seq!['c', 'o', 'n', 's', 't', ' ', 'c', 'h', 'a', 'r', '*']);
    assert("char*"@ =~= seq!['c', 'h', 'a', 'r', '*']);
    assert("bool"@ =~= seq!['b', 'o', 'o', 'l']);
    assert("bool*"@ =~= seq!['b', 'o', 'o', 'l', '*']);
    assert("double"@ =~= seq!['d', 'o', 'u', 'b', 'l', 'e']);
    assert("double*"@ =~= seq!['d', 'o', 'u', 'b', 'l', 'e', '*']);
    assert("void*"@ =~= seq!['v', 'o', 'i', 'd', '*']);
    assert("int**"@ =~= seq!['i', 'n', 't', '*', '*']);
    assert("const char**"@ =~= seq!['c', 'o', 'n', 's', 't', ' ', 'c', 'h', 'a', 'r', '*', '*']);
    assert("char**"@ =~= seq!['c', 'h', 'a', 'r', '*', '*']);
    assert("bool**"@ =~= seq!['b', 'o', 'o', 'l', '*', '*']);
    assert("double**"@ =~= seq!['d', 'o', 'u', 'b', 'l', 'e', '*', '*']);
    assert forall|k: int| 0 <= k < 9 implies (#[trigger] builtin_star_keys()[k])
        == builtin_keys()[k].push('*') by {
        assert(builtin_star_keys()[0] =~= builtin_keys()[0].push('*'));
        assert(builtin_star_keys()[1] =~= builtin_keys()[1].push('*'));
        assert(builtin_star_keys()[2] =~= builtin_keys()[2].push('*'));
        assert(builtin_star_keys()[3] =~= builtin_keys()[3].push('*'));
        assert(builtin_star_keys()[4] =~= builtin_keys()[4].push('*'));
        assert(builtin_star_keys()[5] =~= builtin_keys()[5].push('*'));
        assert(builtin_star_keys()[6] =~= builtin_keys()[6].push('*'));
        assert(builtin_star_keys()[7] =~= builtin_keys()[7].push('*'));
        assert(builtin_star_keys()[8] =~= builtin_keys()[8].push('*'));
    }
}

/// Every built-in table token round-trips: mapping `key + suffix` gives
/// the table entry's tag and hands the suffix back unchanged as the
/// declared name.  The one suffix left out is the reserved word `type`,
/// which the mapper deliberately rewrites.
pub proof fn law_builtin_round_trip(k: int, suffix: Seq<char>)
    requires
        0 <= k < 9,
        suffix.len() == 0 || suffix[0] != '*',
        suffix != reserved_name(),
    ensures
        spec_map_type(builtin_keys()[k] + suffix) == Ok::<
            (TypeRefView, Option<Seq<char>>),
            MapErrorView,
        >((builtin_tag(k), Some(suffix))),
{
    reveal_builtin_table();
    let tok = builtin_keys()[k] + suffix;
    assert forall|j: int| 0 <= j < k implies !builtin_hit(tok, j) by {
        if matches_at(tok, 0, builtin_keys()[j]) {
            let kj = builtin_keys()[j];
            let kk = builtin_keys()[k];
            if j == 1 && k == 2 {
                // `int` is a prefix of `int*` + suffix, but the star key
                // `int*` matches there too, so the entry is rejected.
                assert(matches_at(tok, 0, builtin_star_keys()[j]));
            } else if j == 5 && k == 6 {
                assert(matches_at(tok, 0, builtin_star_keys()[j]));
            } else if j == 7 && k == 8 {
                assert(matches_at(tok, 0, builtin_star_keys()[j]));
            } else {
                // No other earlier spelling is a prefix: a character
                // inside the key area differs, or the key runs past the
                // key-plus-suffix boundary onto a non-star character.
                let m = if kj.len() <= kk.len() {
                    kj.len() as int
                } else {
                    kk.len() as int
                };
                assert(exists|x: int| 0 <= x < m && kj[x] != kk[x] || (kk.len() < kj.len()
                    && kj[kk.len() as int] != suffix[0])) by {
                    if j == 0 {
                        assert(kj[0] != kk[0]);
                    } else if j == 1 {
                        assert(kj[0] != kk[0]);
                    } else if j == 2 {
                        if k == 3 || k == 4 {
                            assert(kj[0] != kk[0]);
                        } else {
                            assert(kj[1] != kk[1]);
                        }
                    } else if j == 3 {
                        if k == 4 {
                            assert(kj[1] != kk[1]);
                        } else {
                            assert(kj[0] != kk[0]);
                        }
                    } else if j == 4 {
                        assert(kj[0] != kk[0]);
                    } else if j == 5 {
                        assert(kj[0] != kk[0]);
                    } else if j == 6 {
                        if k == 7 || k == 8 {
                            assert(kj[0] != kk[0]);
                        } else {
                            assert(kj[0] != kk[0]);
                        }
                    } else {
                        assert(kj[0] != kk[0]);
                    }
                }
            }
        }
    }
    assert(builtin_hit(tok, k)) by {
        assert(matches_at(tok, 0, builtin_keys()[k]));
        if matches_at(tok, 0, builtin_star_keys()[k]) {
            assert(tok[builtin_keys()[k].len() as int] == '*');
            assert(suffix[0] == '*');
        }
    }
    lemma_first_builtin_exact(tok, k);
    assert(tok.subrange(builtin_keys()[k].len() as int, tok.len() as int) =~= suffix);
    reveal_strlit("type");
}

/// The declared name read from what follows an opaque type's stars:
/// nothing, or the word after at most one space.
pub open spec fn rest_param_name(rest: Seq<char>) -> Option<Seq<char>> {
    if rest.len() == 0 {
        None
    } else if rest[0] == ' ' {
        Some(rest.subrange(1, name_end(rest, 1)))
    } else {
        Some(rest.subrange(0, name_end(rest, 0)))
    }
}

/// An opaque token resolves to the same handle type and the same
/// declared name whatever its indirection depth: `name` followed by any
/// number of `*` and the same tail maps identically, and the type is
/// the bare `name` itself.  (With no stars at all, a tail must begin
/// with a space to be separable from the type name, so that case asks
/// for one.)
pub proof fn law_opaque_star_depth(name: Seq<char>, n1: nat, n2: nat, rest: Seq<char>)
    requires
        name.len() > 0,
        forall|i: int| 0 <= i < name.len() ==> name[i] != ' ' && name[i] != '*',
        rest.len() == 0 || rest[0] == ' ' || (n1 >= 1 && n2 >= 1 && rest[0] != '*'),
        first_builtin_from(name + stars(n1) + rest, 0) is None,
        first_builtin_from(name + stars(n2) + rest, 0) is None,
    ensures
        raw_map(name + stars(n1) + rest) == raw_map(name + stars(n2) + rest),
        raw_map(name + stars(n1) + rest) == Ok::<(TypeRefView, Option<Seq<char>>), MapErrorView>(
            (TypeRefView::Opaque(name), rest_param_name(rest)),
        ),
        !contains_seq(name, array_marker()) ==> spec_map_type(name + stars(n1) + rest)
            == spec_map_type(name + stars(n2) + rest),
{
    law_opaque_shape(name, n1, rest);
    law_opaque_shape(name, n2, rest);
}

/// The shape of the opaque mapping for one star depth.
proof fn law_opaque_shape(name: Seq<char>, n: nat, rest: Seq<char>)
    requires
        name.len() > 0,
        forall|i: int| 0 <= i < name.len() ==> name[i] != ' ' && name[i] != '*',
        rest.len() == 0 || rest[0] == ' ' || (n >= 1 && rest[0] != '*'),
        first_builtin_from(name + stars(n) + rest, 0) is None,
    ensures
        raw_map(name + stars(n) + rest) == Ok::<(TypeRefView, Option<Seq<char>>), MapErrorView>(
            (TypeRefView::Opaque(name), rest_param_name(rest)),
        ),
{
    lemma_stars_len(n);
    let head = name + stars(n);
    let tok = head + rest;
    lemma_type_name_end_props(tok, 0);
    let s = type_name_end(tok, 0);
    assert(s == name.len()) by {
        if s < name.len() {
            assert(tok[s] == name[s]);
        }
        if s > name.len() {
            assert(tok[name.len() as int] != ' ' && tok[name.len() as int] != '*');
            if n > 0 {
                assert(tok[name.len() as int] == stars(n)[0]);
            } else {
                assert(tok[name.len() as int] == rest[0]);
            }
        }
    }
    assert(tok.subrange(0, s) =~= name);
    lemma_stars_end_props(tok, s);
    let j = stars_end(tok, s);
    assert(j == head.len()) by {
        if j < head.len() {
            assert(tok[j] == stars(n)[j - name.len()]);
        }
        if j > head.len() {
            assert(tok[head.len() as int] == '*');
            assert(rest[0] == '*');
        }
    }
    if rest.len() == 0 {
        assert(tok =~= head);
    } else if rest[0] == ' ' {
        assert(tok[j] == ' ');
        lemma_name_end_props(rest, 1);
        lemma_name_end_shift(head, rest, 1);
        assert(tok.subrange(j + 1, name_end(tok, j + 1)) =~= rest.subrange(1, name_end(rest, 1)));
    } else {
        assert(tok[j] == rest[0]);
        lemma_name_end_props(rest, 0);
        lemma_name_end_shift(head, rest, 0);
        assert(tok.subrange(j, name_end(tok, j)) =~= rest.subrange(0, name_end(rest, 0)));
    }
}

/// A mapped parameter is never named the bare reserved word: a declared
/// name equal to `type` always leaves the mapper as `type_`.
pub proof fn law_reserved_name_rewritten(tok: Seq<char>)
    ensures
        spec_map_type(tok) matches Ok((ty, nm)) ==> nm != Some(reserved_name()),
        (raw_map(tok) matches Ok((ty, nm0)) && nm0 == Some(reserved_name()) && spec_map_type(tok)
            is Ok) ==> spec_map_type(tok) == Ok::<(TypeRefView, Option<Seq<char>>), MapErrorView>(
            (raw_map(tok)->Ok_0.0, Some(rewritten_name())),
        ),
{
    reveal_strlit("type");
    reveal_strlit("type_");
    assert(reserved_name().len() == 4);
    assert(rewritten_name().len() == 5);
}

/// A type that names the generic host-array concept.
pub open spec fn type_has_marker(t: TypeRefView) -> bool {
    t matches TypeRefView::Opaque(b) && contains_seq(b, array_marker())
}

/// A record with the marker in its return type or any parameter type.
pub open spec fn func_has_marker(f: FuncRecordView) -> bool {
    ||| type_has_marker(f.ret)
    ||| exists|i: int| 0 <= i < f.params.len() && type_has_marker(#[trigger] f.params[i].ty)
}

proof fn lemma_map_type_no_marker(tok: Seq<char>)
    ensures
        spec_map_type(tok) matches Ok((ty, nm)) ==> !type_has_marker(ty),
{
}

proof fn lemma_parse_params_no_marker(toks: Seq<Seq<char>>)
    ensures
        spec_parse_params(toks) matches Ok(ps) ==> forall|i: int|
            0 <= i < ps.len() ==> !type_has_marker(#[trigger] ps[i].ty),
    decreases toks.len(),
{
    if toks.len() > 0 {
        lemma_parse_params_no_marker(toks.drop_last());
        lemma_map_type_no_marker(toks.last());
    }
}

proof fn lemma_make_func_no_marker(name: Seq<char>, ret: Seq<char>, toks: Seq<Seq<char>>)
    ensures
        spec_make_func(name, ret, toks) matches Ok(f) ==> !func_has_marker(f),
{
    lemma_parse_params_no_marker(toks);
    lemma_map_type_no_marker(ret);
}

/// A record's parameters all carry a usable resolved name: non-empty,
/// and never the bare reserved word `type`.
pub open spec fn record_wf(f: FuncRecordView) -> bool {
    forall|i: int| 0 <= i < f.params.len() ==> ((#[trigger] f.params[i]).name.len() > 0
        && f.params[i].name != reserved_name())
}

proof fn lemma_parse_param_wf(tok: Seq<char>)
    ensures
        crate::model::spec_parse_param(tok) matches Ok(p) ==> (p.name.len() > 0 && p.name
            != reserved_name()),
{
    law_reserved_name_rewritten(tok);
}

proof fn lemma_parse_params_wf(toks: Seq<Seq<char>>)
    ensures
        spec_parse_params(toks) matches Ok(ps) ==> forall|i: int|
            0 <= i < ps.len() ==> ((#[trigger] ps[i]).name.len() > 0 && ps[i].name
                != reserved_name()),
    decreases toks.len(),
{
    if toks.len() > 0 {
        lemma_parse_params_wf(toks.drop_last());
        lemma_parse_param_wf(toks.last());
    }
}

proof fn lemma_make_func_wf(name: Seq<char>, ret: Seq<char>, toks: Seq<Seq<char>>)
    ensures
        spec_make_func(name, ret, toks) matches Ok(f) ==> record_wf(f),
{
    lemma_parse_params_wf(toks);
}

/// One scanned line either leaves the function list untouched — in
/// particular any declaration referencing the generic host-array type —
/// or appends exactly one record, and that record is marker-free.  No
/// other record is affected.
pub proof fn law_scan_line_functions(m: crate::model::BindingModelView, line: Seq<char>, idx: int)
    ensures
        spec_scan_line(m, line, idx) matches Ok(m2) ==> (m2.functions == m.functions || (
        m2.functions.len() == m.functions.len() + 1 && m2.functions.drop_last() == m.functions
            && !func_has_marker(m2.functions.last()) && record_wf(m2.functions.last()))),
{
    match func_capture_from(line, 0) {
        Some((ret_raw, args_raw, name_raw)) => {
            let name = crate::text::strip_all(name_raw, crate::text::lib_prefix());
            let ret = crate::text::strip_all(ret_raw, crate::text::lib_prefix());
            let toks = crate::text::split_by(args_raw, crate::scan::arg_sep()).map_values(
                |t: Seq<char>| crate::text::strip_all(t, crate::text::lib_prefix()),
            );
            lemma_make_func_no_marker(name, ret, toks);
            lemma_make_func_wf(name, ret, toks);
            match spec_make_func(name, ret, toks) {
                Ok(f) => {
                    assert(m.functions.push(f).drop_last() =~= m.functions);
                },
                Err(_) => {},
            }
        },
        None => {},
    }
}

/// No record of a scanned model references the generic host-array type:
/// a declaration that does is dropped, and only it.
pub proof fn law_no_array_function(text: Seq<char>)
    ensures
        spec_scan(text) matches Ok(m) ==> forall|i: int|
            0 <= i < m.functions.len() ==> !func_has_marker(#[trigger] m.functions[i]),
{
    lemma_scan_lines_no_marker(crate::scan::spec_lines(text));
}

proof fn lemma_scan_lines_no_marker(lines: Seq<Seq<char>>)
    ensures
        spec_scan_lines(lines) matches Ok(m) ==> forall|i: int|
            0 <= i < m.functions.len() ==> !func_has_marker(#[trigger] m.functions[i]),
    decreases lines.len(),
{
    if lines.len() > 0 {
        lemma_scan_lines_no_marker(lines.drop_last());
        match spec_scan_lines(lines.drop_last()) {
            Ok(m) => {
                law_scan_line_functions(m, lines.last(), lines.len() - 1);
            },
            Err(_) => {},
        }
    }
}

/// Every parameter of every scanned record carries a usable name:
/// non-empty, and — a parameter declared as the reserved word `type`
/// having been rewritten — never the bare word `type` itself.
pub proof fn law_every_parameter_is_named(text: Seq<char>)
    ensures
        spec_scan(text) matches Ok(m) ==> forall|i: int|
            0 <= i < m.functions.len() ==> record_wf(#[trigger] m.functions[i]),
{
    lemma_scan_lines_wf(crate::scan::spec_lines(text));
}

proof fn lemma_scan_lines_wf(lines: Seq<Seq<char>>)
    ensures
        spec_scan_lines(lines) matches Ok(m) ==> forall|i: int|
            0 <= i < m.functions.len() ==> record_wf(#[trigger] m.functions[i]),
    decreases lines.len(),
{
    if lines.len() > 0 {
        lemma_scan_lines_wf(lines.drop_last());
        match spec_scan_lines(lines.drop_last()) {
            Ok(m) => {
                law_scan_line_functions(m, lines.last(), lines.len() - 1);
            },
            Err(_) => {},
        }
    }
}

/// A scanned line adds to the opaque types at most one name, and never
/// one that holds the function-pointer-table type's name.
proof fn lemma_scan_line_opaques(m: crate::model::BindingModelView, line: Seq<char>, idx: int)
    ensures
        spec_scan_line(m, line, idx) matches Ok(m2) ==> (m2.opaque_types == m.opaque_types || (
        m2.opaque_types.len() == m.opaque_types.len() + 1 && m2.opaque_types.drop_last()
            == m.opaque_types && !contains_seq(m2.opaque_types.last(), table_marker()))),
{
    match class_capture_from(line, 0) {
        Some(raw) => {
            let name = crate::text::strip_all(raw, crate::text::lib_prefix());
            if !contains_seq(name, table_marker()) {
                assert(m.opaque_types.push(name).drop_last() =~= m.opaque_types);
            }
        },
        None => {},
    }
}

/// A forward declaration of the function-pointer-table type itself never
/// yields an opaque-type entry: no entry of a scanned model holds that
/// type's name.
pub proof fn law_table_type_not_declared(text: Seq<char>)
    ensures
        spec_scan(text) matches Ok(m) ==> forall|i: int|
            0 <= i < m.opaque_types.len() ==> !contains_seq(
                #[trigger] m.opaque_types[i],
                table_marker(),
            ),
{
    lemma_scan_lines_opaques(crate::scan::spec_lines(text));
}

proof fn lemma_scan_lines_opaques(lines: Seq<Seq<char>>)
    ensures
        spec_scan_lines(lines) matches Ok(m) ==> forall|i: int|
            0 <= i < m.opaque_types.len() ==> !contains_seq(
                #[trigger] m.opaque_types[i],
                table_marker(),
            ),
    decreases lines.len(),
{
    if lines.len() > 0 {
        lemma_scan_lines_opaques(lines.drop_last());
        match spec_scan_lines(lines.drop_last()) {
            Ok(m) => {
                lemma_scan_line_opaques(m, lines.last(), lines.len() - 1);
            },
            Err(_) => {},
        }
    }
}

/// A load whose resolver answered null for every symbol still succeeds
/// — building the table is total — and retains a count of zero; its
/// dispatch contract then refuses every call, naming the function.
pub proof fn law_null_resolver_yields_empty_table(t: LoadedTable)
    requires
        t.wf(),
        forall|i: int| 0 <= i < t@.resolved.len() ==> !t@.resolved[i],
    ensures
        t@.loaded_count == 0,
{
    lemma_count_resolved_none(t@.resolved);
}

} // verus!
