//! The header scanner: classifies each line of the header text against
//! three fixed patterns and captures the declared names.
//!
//! The three shapes are an opaque-type forward declaration
//! (`class <Name>;`), an exported-function declaration (the function
//! marker followed by `<ReturnType>(<Params>)> <Name>`), and an
//! exported-integer-constant declaration (the constant marker followed by
//! a name).  Each line is held against all three patterns independently.
//!
//! Format assumptions, stated once here rather than re-derived by a
//! general C parser: a parameter list never nests parentheses or holds a
//! bare `)> ` sequence, a declaration marker occurs at most once per
//! line, and parameters are separated by a literal comma-space.  Under
//! these assumptions the leftmost-capture rules below read exactly the
//! declarations the header format produces.

use vstd::prelude::*;
use vstd::string::*;

use crate::model::{make_func_record, spec_make_func, BindingModel, BindingModelView, FuncRecordView};
use crate::text::{
    check_at, contains_seq, contains_sub, find_from, first_match, is_word_char, lemma_first_match,
    lib_prefix, matches_at, split_by, split_string, strip_all, strip_prefix_repeated, word_end,
};
use crate::types::{MapError, MapErrorView};

verus! {

/// `class ` — opens an opaque-type forward declaration.
pub open spec fn class_kw() -> Seq<char> {
    seq!['c', 'l', 'a', 's', 's', ' ']
}

/// The marker that opens an exported-function declaration.
pub open spec fn func_kw() -> Seq<char> {
    seq![
        'R', 'E', 'A', 'I', 'M', 'G', 'U', 'I', 'A', 'P', 'I', '_', 'E', 'X', 'T', 'E', 'R', 'N',
        ' ', 'R', 'e', 'a', 'I', 'm', 'G', 'u', 'i', 'F', 'u', 'n', 'c', '<',
    ]
}

/// The marker that opens an exported-constant declaration.
pub open spec fn enum_kw() -> Seq<char> {
    seq![
        'R', 'E', 'A', 'I', 'M', 'G', 'U', 'I', 'A', 'P', 'I', '_', 'E', 'X', 'T', 'E', 'R', 'N',
        ' ', 'R', 'e', 'a', 'I', 'm', 'G', 'u', 'i', 'E', 'n', 'u', 'm', ' ',
    ]
}

/// The name of the function-pointer-table type itself: a forward
/// declaration of it is not a data type and never enters the model.
pub open spec fn table_marker() -> Seq<char> {
    seq!['R', 'e', 'a', 'I', 'm', 'G', 'u', 'i', 'F', 'u', 'n', 'c']
}

/// The name fragment of the pointer-validation helper, which is not
/// callable through the generic dispatch path and is skipped.
pub open spec fn validate_marker() -> Seq<char> {
    seq!['V', 'a', 'l', 'i', 'd', 'a', 't', 'e', 'P', 't', 'r']
}

/// The separator between parameter tokens.
pub open spec fn arg_sep() -> Seq<char> {
    seq![',', ' ']
}

/// The sequence closing the parameter list before the function name.
pub open spec fn close_marker() -> Seq<char> {
    seq![')', '>', ' ']
}

/// A maximal word run starting at `j`, non-empty and followed by `;`.
pub open spec fn class_body_ok(line: Seq<char>, j: int) -> bool {
    &&& word_end(line, j) > j
    &&& word_end(line, j) < line.len()
    &&& line[word_end(line, j)] == ';'
}

/// The word captured by the leftmost occurrence of the opaque-type
/// pattern at or after position `i`, if any.
pub open spec fn class_capture_from(line: Seq<char>, i: int) -> Option<Seq<char>>
    decreases line.len() - i,
    when 0 <= i <= line.len()
{
    if i + class_kw().len() > line.len() {
        None
    } else if matches_at(line, i, class_kw()) && class_body_ok(line, i + class_kw().len() as int) {
        Some(
            line.subrange(
                i + class_kw().len() as int,
                word_end(line, i + class_kw().len() as int),
            ),
        )
    } else {
        class_capture_from(line, i + 1)
    }
}

/// The word captured by the leftmost occurrence of the constant pattern
/// at or after position `i`, if any.
pub open spec fn const_capture_from(line: Seq<char>, i: int) -> Option<Seq<char>>
    decreases line.len() - i,
    when 0 <= i <= line.len()
{
    if i + enum_kw().len() > line.len() {
        None
    } else if matches_at(line, i, enum_kw()) && word_end(line, i + enum_kw().len() as int) > i
        + enum_kw().len() {
        Some(
            line.subrange(
                i + enum_kw().len() as int,
                word_end(line, i + enum_kw().len() as int),
            ),
        )
    } else {
        const_capture_from(line, i + 1)
    }
}

/// No space or tab occurs in `line[p..q)`.
pub open spec fn no_space_range(line: Seq<char>, p: int, q: int) -> bool {
    forall|j: int| p <= j < q ==> line[j] != ' ' && line[j] != '\t'
}

/// The first position at or after `r` where the close marker occurs and
/// is followed by a non-empty word run (the function name).
pub open spec fn find_close(line: Seq<char>, r: int) -> Option<int>
    decreases line.len() - r,
    when 0 <= r <= line.len()
{
    if r + close_marker().len() > line.len() {
        None
    } else if matches_at(line, r, close_marker()) && word_end(line, r + close_marker().len() as int)
        > r + close_marker().len() {
        Some(r)
    } else {
        find_close(line, r + 1)
    }
}

/// The `(return type, parameter list, name)` texts captured by the
/// function pattern whose marker starts at `i`, if the rest of the
/// pattern matches there: a non-empty space-free return-type run, `(`, a
/// non-empty parameter text, the close marker, and a word run.
pub open spec fn func_parse_at(line: Seq<char>, i: int) -> Option<(Seq<char>, Seq<char>, Seq<char>)>
    recommends
        0 <= i,
        i + func_kw().len() <= line.len(),
{
    let p = i + func_kw().len() as int;
    match first_match(line, seq!['('], p) {
        None => None,
        Some(q) => {
            if q == p || !no_space_range(line, p, q) {
                None
            } else {
                match find_close(line, q + 1) {
                    None => None,
                    Some(r) => {
                        if r == q + 1 {
                            None
                        } else {
                            Some(
                                (
                                    line.subrange(p, q),
                                    line.subrange(q + 1, r),
                                    line.subrange(r + 3, word_end(line, r + 3)),
                                ),
                            )
                        }
                    },
                }
            }
        },
    }
}

/// The captures of the leftmost fully-matching occurrence of the
/// function pattern at or after position `i`, if any.
pub open spec fn func_capture_from(line: Seq<char>, i: int) -> Option<
    (Seq<char>, Seq<char>, Seq<char>),
>
    decreases line.len() - i,
    when 0 <= i <= line.len()
{
    if i + func_kw().len() > line.len() {
        None
    } else if matches_at(line, i, func_kw()) && func_parse_at(line, i) is Some {
        func_parse_at(line, i)
    } else {
        func_capture_from(line, i + 1)
    }
}

proof fn lemma_class_skip(line: Seq<char>, i: int, k: int)
    requires
        0 <= i <= k <= line.len(),
        forall|j: int| i <= j < k ==> !matches_at(line, j, class_kw()),
    ensures
        class_capture_from(line, i) == class_capture_from(line, k),
    decreases k - i,
{
    if i < k {
        lemma_class_skip(line, i + 1, k);
    }
}

proof fn lemma_const_skip(line: Seq<char>, i: int, k: int)
    requires
        0 <= i <= k <= line.len(),
        forall|j: int| i <= j < k ==> !matches_at(line, j, enum_kw()),
    ensures
        const_capture_from(line, i) == const_capture_from(line, k),
    decreases k - i,
{
    if i < k {
        lemma_const_skip(line, i + 1, k);
    }
}

proof fn lemma_func_skip(line: Seq<char>, i: int, k: int)
    requires
        0 <= i <= k <= line.len(),
        forall|j: int| i <= j < k ==> !matches_at(line, j, func_kw()),
    ensures
        func_capture_from(line, i) == func_capture_from(line, k),
    decreases k - i,
{
    if i < k {
        lemma_func_skip(line, i + 1, k);
    }
}

proof fn lemma_find_close_props(line: Seq<char>, r0: int)
    requires
        0 <= r0 <= line.len(),
    ensures
        match find_close(line, r0) {
            Some(r) => {
                &&& r0 <= r
                &&& r + 3 <= line.len()
                &&& matches_at(line, r, close_marker())
                &&& word_end(line, r + 3) > r + 3
            },
            None => true,
        },
    decreases line.len() - r0,
{
    if r0 + close_marker().len() > line.len() {
    } else if matches_at(line, r0, close_marker()) && word_end(
        line,
        r0 + close_marker().len() as int,
    ) > r0 + close_marker().len() {
    } else {
        lemma_find_close_props(line, r0 + 1);
    }
}

fn class_kw_str() -> (s: &'static str)
    ensures
        s@ == class_kw(),
{
    let s = "class ";
    proof {
        reveal_strlit("class ");
        assert(s@ =~= class_kw());
    }
    s
}

fn func_kw_str() -> (s: &'static str)
    ensures
        s@ == func_kw(),
{
    let s = "REAIMGUIAPI_EXTERN ReaImGuiFunc<";
    proof {
        reveal_strlit("REAIMGUIAPI_EXTERN ReaImGuiFunc<");
        assert(s@ =~= func_kw());
    }
    s
}

fn enum_kw_str() -> (s: &'static str)
    ensures
        s@ == enum_kw(),
{
    let s = "REAIMGUIAPI_EXTERN ReaImGuiEnum ";
    proof {
        reveal_strlit("REAIMGUIAPI_EXTERN ReaImGuiEnum ");
        assert(s@ =~= enum_kw());
    }
    s
}

/// Whether `c` can stand in an identifier.
fn is_word(c: char) -> (b: bool)
    ensures
        b == is_word_char(c),
{
    ('a' <= c && c <= 'z') || ('A' <= c && c <= 'Z') || ('0' <= c && c <= '9') || c == '_'
}

/// The end of the maximal word run starting at `j`.
fn word_end_exec(line: &str, j: usize) -> (e: usize)
    requires
        j <= line@.len(),
    ensures
        e == word_end(line@, j as int),
        j <= e <= line@.len(),
{
    let n: usize = line.unicode_len();
    let mut e: usize = j;
    while e < n && is_word(line.get_char(e))
        invariant
            j <= e <= n,
            n == line@.len(),
            word_end(line@, j as int) == word_end(line@, e as int),
        decreases n - e,
    {
        e += 1;
    }
    e
}

/// The name captured by the opaque-type pattern, if the line holds one.
pub fn class_capture(line: &str) -> (r: Option<String>)
    ensures
        match r {
            Some(s) => class_capture_from(line@, 0) == Some(s@),
            None => class_capture_from(line@, 0) is None,
        },
{
    let kw: &str = class_kw_str();
    let n: usize = line.unicode_len();
    let mut i: usize = 0;
    loop
        invariant
            i <= n,
            n == line@.len(),
            kw@ == class_kw(),
            class_capture_from(line@, 0) == class_capture_from(line@, i as int),
        decreases n + 1 - i,
    {
        proof {
            lemma_first_match(line@, kw@, i as int);
        }
        match find_from(line, i, kw) {
            None => {
                proof {
                    lemma_class_skip(line@, i as int, n as int);
                }
                return None;
            },
            Some(k) => {
                proof {
                    lemma_class_skip(line@, i as int, k as int);
                }
                let j: usize = k + 6;
                let e: usize = word_end_exec(line, j);
                if e > j && e < n && line.get_char(e) == ';' {
                    let cap: &str = line.substring_char(j, e);
                    return Some(cap.to_owned());
                } else {
                    i = k + 1;
                }
            },
        }
    }
}

/// The name captured by the constant pattern, if the line holds one.
pub fn const_capture(line: &str) -> (r: Option<String>)
    ensures
        match r {
            Some(s) => const_capture_from(line@, 0) == Some(s@),
            None => const_capture_from(line@, 0) is None,
        },
{
    let kw: &str = enum_kw_str();
    let n: usize = line.unicode_len();
    let mut i: usize = 0;
    loop
        invariant
            i <= n,
            n == line@.len(),
            kw@ == enum_kw(),
            const_capture_from(line@, 0) == const_capture_from(line@, i as int),
        decreases n + 1 - i,
    {
        proof {
            lemma_first_match(line@, kw@, i as int);
        }
        match find_from(line, i, kw) {
            None => {
                proof {
                    lemma_const_skip(line@, i as int, n as int);
                }
                return None;
            },
            Some(k) => {
                proof {
                    lemma_const_skip(line@, i as int, k as int);
                }
                let j: usize = k + 32;
                let e: usize = word_end_exec(line, j);
                if e > j {
                    let cap: &str = line.substring_char(j, e);
                    return Some(cap.to_owned());
                } else {
                    i = k + 1;
                }
            },
        }
    }
}

/// No space or tab occurs in `line[p..q)`.
fn all_nonspace(line: &str, p: usize, q: usize) -> (b: bool)
    requires
        p <= q <= line@.len(),
    ensures
        b == no_space_range(line@, p as int, q as int),
{
    let mut j: usize = p;
    while j < q
        invariant
            p <= j <= q <= line@.len(),
            no_space_range(line@, p as int, j as int),
        decreases q - j,
    {
        let c: char = line.get_char(j);
        if c == ' ' || c == '\t' {
            return false;
        }
        j += 1;
    }
    true
}

/// The first close-marker position at or after `start` that is followed
/// by a non-empty word run.
fn find_close_exec(line: &str, start: usize) -> (r: Option<usize>)
    requires
        start <= line@.len(),
    ensures
        match r {
            Some(rr) => {
                &&& find_close(line@, start as int) == Some(rr as int)
                &&& start <= rr
                &&& rr + 3 <= line@.len()
                &&& word_end(line@, rr as int + 3) > rr + 3
            },
            None => find_close(line@, start as int) is None,
        },
{
    let close: &str = ")> ";
    proof {
        reveal_strlit(")> ");
        assert(close@ =~= close_marker());
    }
    let n: usize = line.unicode_len();
    if n < 3 || start > n - 3 {
        return None;
    }
    let mut r: usize = start;
    while r <= n - 3
        invariant
            start <= r <= n - 2,
            3 <= n == line@.len(),
            close@ == close_marker(),
            find_close(line@, start as int) == find_close(line@, r as int),
        decreases n - r,
    {
        if check_at(line, r, close) {
            let e: usize = word_end_exec(line, r + 3);
            if e > r + 3 {
                return Some(r);
            }
        }
        r += 1;
    }
    None
}

/// The `(return type, parameter list, name)` texts captured by the
/// function pattern, if the line holds one.
pub fn func_capture(line: &str) -> (r: Option<(String, String, String)>)
    ensures
        match r {
            Some(t) => func_capture_from(line@, 0) == Some((t.0@, t.1@, t.2@)),
            None => func_capture_from(line@, 0) is None,
        },
{
    let kw: &str = func_kw_str();
    let paren: &str = "(";
    proof {
        reveal_strlit("(");
        assert(paren@ =~= seq!['(']);
    }
    let n: usize = line.unicode_len();
    let mut i: usize = 0;
    loop
        invariant
            i <= n,
            n == line@.len(),
            kw@ == func_kw(),
            paren@ == seq!['('],
            func_capture_from(line@, 0) == func_capture_from(line@, i as int),
        decreases n + 1 - i,
    {
        proof {
            lemma_first_match(line@, kw@, i as int);
        }
        match find_from(line, i, kw) {
            None => {
                proof {
                    lemma_func_skip(line@, i as int, n as int);
                }
                return None;
            },
            Some(k) => {
                proof {
                    lemma_func_skip(line@, i as int, k as int);
                }
                let p: usize = k + 32;
                proof {
                    lemma_first_match(line@, paren@, p as int);
                }
                let parsed: Option<(String, String, String)> = match find_from(line, p, paren) {
                    None => None,
                    Some(q) => {
                        proof {
                            lemma_find_close_props(line@, q as int + 1);
                        }
                        if q == p || !all_nonspace(line, p, q) {
                            None
                        } else {
                            match find_close_exec(line, q + 1) {
                                None => None,
                                Some(r) => {
                                    if r == q + 1 {
                                        None
                                    } else {
                                        let we: usize = word_end_exec(line, r + 3);
                                        let ret: &str = line.substring_char(p, q);
                                        let args: &str = line.substring_char(q + 1, r);
                                        let name: &str = line.substring_char(r + 3, we);
                                        Some((ret.to_owned(), args.to_owned(), name.to_owned()))
                                    }
                                },
                            }
                        }
                    },
                };
                match parsed {
                    Some(t) => {
                        assert(func_parse_at(line@, k as int) == Some((t.0@, t.1@, t.2@)));
                        return Some(t);
                    },
                    None => {
                        assert(func_parse_at(line@, k as int) is None);
                        i = k + 1;
                    },
                }
            },
        }
    }
}

/// A fatal scan failure: the zero-based header line and the mapper error
/// that stopped generation there.
#[derive(Debug, Clone, PartialEq, Eq)]
pub struct ScanError {
    pub line: usize,
    pub cause: MapError,
}

#[verifier::ext_equal]
pub struct ScanErrorView {
    pub line: int,
    pub cause: MapErrorView,
}

impl View for ScanError {
    type V = ScanErrorView;

    open spec fn view(&self) -> ScanErrorView {
        ScanErrorView { line: self.line as int, cause: self.cause@ }
    }
}

/// A line piece with one trailing carriage return removed.
pub open spec fn strip_cr(l: Seq<char>) -> Seq<char> {
    if l.len() > 0 && l[l.len() - 1] == '\r' {
        l.drop_last()
    } else {
        l
    }
}

/// The header text as a sequence of lines: split on newline, with a
/// final empty piece dropped and one trailing carriage return removed
/// from each line.
pub open spec fn spec_lines(text: Seq<char>) -> Seq<Seq<char>> {
    let raw = split_by(text, seq!['\n']);
    let kept = if raw.len() > 0 && raw.last().len() == 0 {
        raw.drop_last()
    } else {
        raw
    };
    kept.map_values(|l: Seq<char>| strip_cr(l))
}

/// The empty model.
pub open spec fn empty_model() -> BindingModelView {
    BindingModelView {
        opaque_types: Seq::<Seq<char>>::empty(),
        constants: Seq::<Seq<char>>::empty(),
        functions: Seq::<FuncRecordView>::empty(),
    }
}

/// What one line at index `idx` contributes to the model `m`.
///
/// The line is held against all three patterns.  An opaque-type name is
/// kept unless it names the function-pointer-table type itself; a
/// function is kept unless it is the pointer-validation helper or it
/// references the generic host-array type (a per-declaration skip); any
/// other mapping failure is fatal and names this line.
pub open spec fn spec_scan_line(m: BindingModelView, line: Seq<char>, idx: int) -> Result<
    BindingModelView,
    ScanErrorView,
> {
    let m1 = match class_capture_from(line, 0) {
        Some(raw) => {
            let name = strip_all(raw, lib_prefix());
            if contains_seq(name, table_marker()) {
                m
            } else {
                BindingModelView {
                    opaque_types: m.opaque_types.push(name),
                    constants: m.constants,
                    functions: m.functions,
                }
            }
        },
        None => m,
    };
    let m2r = match func_capture_from(line, 0) {
        Some((ret_raw, args_raw, name_raw)) => {
            let name = strip_all(name_raw, lib_prefix());
            if contains_seq(name, validate_marker()) {
                Ok(m1)
            } else {
                let ret = strip_all(ret_raw, lib_prefix());
                let toks = split_by(args_raw, arg_sep()).map_values(
                    |t: Seq<char>| strip_all(t, lib_prefix()),
                );
                match spec_make_func(name, ret, toks) {
                    Ok(f) => Ok(
                        BindingModelView {
                            opaque_types: m1.opaque_types,
                            constants: m1.constants,
                            functions: m1.functions.push(f),
                        },
                    ),
                    Err(MapErrorView::GenericArray(_)) => Ok(m1),
                    Err(e) => Err(ScanErrorView { line: idx, cause: e }),
                }
            }
        },
        None => Ok(m1),
    };
    match m2r {
        Err(e) => Err(e),
        Ok(m2) => Ok(
            match const_capture_from(line, 0) {
                Some(raw) => BindingModelView {
                    opaque_types: m2.opaque_types,
                    constants: m2.constants.push(strip_all(raw, lib_prefix())),
                    functions: m2.functions,
                },
                None => m2,
            },
        ),
    }
}

/// The model built from a sequence of lines, or the first fatal error.
pub open spec fn spec_scan_lines(lines: Seq<Seq<char>>) -> Result<BindingModelView, ScanErrorView>
    decreases lines.len(),
{
    if lines.len() == 0 {
        Ok(empty_model())
    } else {
        match spec_scan_lines(lines.drop_last()) {
            Err(e) => Err(e),
            Ok(m) => spec_scan_line(m, lines.last(), lines.len() - 1),
        }
    }
}

/// The model built from the whole header text, or the first fatal error.
pub open spec fn spec_scan(text: Seq<char>) -> Result<BindingModelView, ScanErrorView> {
    spec_scan_lines(spec_lines(text))
}

proof fn lemma_scan_error_persists(ls: Seq<Seq<char>>, k: int)
    requires
        0 <= k <= ls.len(),
        spec_scan_lines(ls.take(k)) is Err,
    ensures
        spec_scan_lines(ls) == spec_scan_lines(ls.take(k)),
    decreases ls.len() - k,
{
    if k < ls.len() {
        assert(ls.take(k + 1).drop_last() =~= ls.take(k));
        lemma_scan_error_persists(ls, k + 1);
    } else {
        assert(ls.take(k) =~= ls);
    }
}

fn table_marker_str() -> (s: &'static str)
    ensures
        s@ == table_marker(),
{
    let s = "ReaImGuiFunc";
    proof {
        reveal_strlit("ReaImGuiFunc");
        assert(s@ =~= table_marker());
    }
    s
}

fn validate_marker_str() -> (s: &'static str)
    ensures
        s@ == validate_marker(),
{
    let s = "ValidatePtr";
    proof {
        reveal_strlit("ValidatePtr");
        assert(s@ =~= validate_marker());
    }
    s
}

/// The header text as owned lines.
pub fn split_lines(text: &str) -> (r: Vec<String>)
    ensures
        r.deep_view() =~= spec_lines(text@),
{
    let nl: &str = "\n";
    proof {
        reveal_strlit("\n");
        assert(nl@ =~= seq!['\n']);
    }
    let mut pieces: Vec<String> = split_string(text, nl);
    let ghost raw = split_by(text@, seq!['\n']);
    if pieces.len() > 0 && pieces[pieces.len() - 1].as_str().unicode_len() == 0 {
        pieces.pop();
        proof {
            assert(pieces.deep_view() =~= raw.drop_last());
        }
    }
    let ghost kept = pieces.deep_view();
    let mut out: Vec<String> = Vec::new();
    let mut i: usize = 0;
    proof {
        assert(out.deep_view() =~= kept.take(0).map_values(|l: Seq<char>| strip_cr(l)));
    }
    while i < pieces.len()
        invariant
            i <= pieces.len(),
            kept == pieces.deep_view(),
            kept.len() == pieces.len(),
            out.deep_view() =~= kept.take(i as int).map_values(|l: Seq<char>| strip_cr(l)),
        decreases pieces.len() - i,
    {
        let ghost before = out.deep_view();
        let s: &str = pieces[i].as_str();
        let l: usize = s.unicode_len();
        if l > 0 && s.get_char(l - 1) == '\r' {
            out.push(s.substring_char(0, l - 1).to_owned());
        } else {
            out.push(pieces[i].clone());
        }
        proof {
            assert(out.deep_view() =~= before.push(strip_cr(kept[i as int])));
            assert(kept.take(i as int + 1).map_values(|l: Seq<char>| strip_cr(l)) =~= kept.take(
                i as int,
            ).map_values(|l: Seq<char>| strip_cr(l)).push(strip_cr(kept[i as int])));
        }
        i += 1;
    }
    proof {
        assert(kept.take(kept.len() as int) =~= kept);
    }
    out
}

/// Applies the prefix strip to every token.
fn strip_tokens(toks: &Vec<String>, prefix: &str) -> (r: Vec<String>)
    requires
        prefix@ == lib_prefix(),
    ensures
        r.deep_view() =~= toks.deep_view().map_values(|t: Seq<char>| strip_all(t, lib_prefix())),
{
    let mut out: Vec<String> = Vec::new();
    let mut i: usize = 0;
    let ghost tv = toks.deep_view();
    proof {
        assert(out.deep_view() =~= tv.take(0).map_values(|t: Seq<char>| strip_all(t, lib_prefix())));
    }
    while i < toks.len()
        invariant
            i <= toks.len(),
            tv == toks.deep_view(),
            tv.len() == toks.len(),
            prefix@ == lib_prefix(),
            out.deep_view() =~= tv.take(i as int).map_values(
                |t: Seq<char>| strip_all(t, lib_prefix()),
            ),
        decreases toks.len() - i,
    {
        let ghost before = out.deep_view();
        out.push(strip_prefix_repeated(toks[i].as_str(), prefix).to_owned());
        proof {
            assert(out.deep_view() =~= before.push(strip_all(tv[i as int], lib_prefix())));
            assert(tv.take(i as int + 1).map_values(|t: Seq<char>| strip_all(t, lib_prefix()))
                =~= tv.take(i as int).map_values(|t: Seq<char>| strip_all(t, lib_prefix())).push(
                strip_all(tv[i as int], lib_prefix()),
            ));
        }
        i += 1;
    }
    proof {
        assert(tv.take(tv.len() as int) =~= tv);
    }
    out
}

/// Adds one line's declarations to the model, or reports the fatal
/// mapper error with this line's index.
fn scan_line(m: &mut BindingModel, line: &str, idx: usize) -> (r: Result<(), ScanError>)
    ensures
        match r {
            Ok(_) => spec_scan_line(old(m)@, line@, idx as int) == Ok::<
                BindingModelView,
                ScanErrorView,
            >(final(m)@),
            Err(e) => spec_scan_line(old(m)@, line@, idx as int) == Err::<
                BindingModelView,
                ScanErrorView,
            >(e@),
        },
{
    let prefix: &str = crate::library_prefix();
    match class_capture(line) {
        Some(raw) => {
            let stripped: &str = strip_prefix_repeated(raw.as_str(), prefix);
            if !contains_sub(stripped, table_marker_str()) {
                let ghost before = m.opaque_types.deep_view();
                m.opaque_types.push(stripped.to_owned());
                proof {
                    assert(m.opaque_types.deep_view() =~= before.push(stripped@));
                }
            }
        },
        None => {},
    }
    let ghost m1 = m@;
    match func_capture(line) {
        Some((ret_raw, args_raw, name_raw)) => {
            let name: &str = strip_prefix_repeated(name_raw.as_str(), prefix);
            if !contains_sub(name, validate_marker_str()) {
                let ret: &str = strip_prefix_repeated(ret_raw.as_str(), prefix);
                let sep: &str = ", ";
                proof {
                    reveal_strlit(", ");
                    assert(sep@ =~= arg_sep());
                }
                let toks: Vec<String> = split_string(args_raw.as_str(), sep);
                let stripped_toks: Vec<String> = strip_tokens(&toks, prefix);
                match make_func_record(name.to_owned(), ret, &stripped_toks) {
                    Ok(f) => {
                        let ghost before = m@.functions;
                        let ghost fv = f@;
                        m.functions.push(f);
                        proof {
                            assert(m@.functions =~= before.push(fv));
                        }
                    },
                    Err(e) => {
                        match e {
                            MapError::GenericArray { .. } => {},
                            other => {
                                return Err(ScanError { line: idx, cause: other });
                            },
                        }
                    },
                }
            }
        },
        None => {},
    }
    let ghost m2 = m@;
    match const_capture(line) {
        Some(raw) => {
            let stripped: &str = strip_prefix_repeated(raw.as_str(), prefix);
            let ghost before = m.constants.deep_view();
            m.constants.push(stripped.to_owned());
            proof {
                assert(m.constants.deep_view() =~= before.push(stripped@));
            }
        },
        None => {},
    }
    proof {
        assert(spec_scan_line(old(m)@, line@, idx as int) =~= Ok::<
            BindingModelView,
            ScanErrorView,
        >(m@));
    }
    Ok(())
}

/// Scans the whole header text: produces the model of every recognized
/// declaration in source order, or the first fatal error, naming its
/// line.  The result is exactly [`spec_scan`] of the text.
pub fn scan_header(text: &str) -> (r: Result<BindingModel, ScanError>)
    ensures
        match r {
            Ok(m) => spec_scan(text@) == Ok::<BindingModelView, ScanErrorView>(m@),
            Err(e) => spec_scan(text@) == Err::<BindingModelView, ScanErrorView>(e@),
        },
{
    let lines: Vec<String> = split_lines(text);
    let ghost lv = lines.deep_view();
    let mut m: BindingModel = BindingModel::new();
    proof {
        assert(lv.take(0) =~= Seq::<Seq<char>>::empty());
        assert(m@ =~= empty_model());
    }
    let mut i: usize = 0;
    while i < lines.len()
        invariant
            i <= lines.len(),
            lv == lines.deep_view(),
            lv.len() == lines.len(),
            lv =~= spec_lines(text@),
            spec_scan_lines(lv.take(i as int)) == Ok::<BindingModelView, ScanErrorView>(m@),
        decreases lines.len() - i,
    {
        proof {
            assert(lv.take(i as int + 1).drop_last() =~= lv.take(i as int));
            assert(lv.take(i as int + 1).last() == lv[i as int]);
            assert(lines[i as int]@ == lv[i as int]);
        }
        match scan_line(&mut m, lines[i].as_str(), i) {
            Ok(_) => {},
            Err(e) => {
                proof {
                    lemma_scan_error_persists(lv, i as int + 1);
                    assert(lv.take(lv.len() as int) =~= lv);
                }
                return Err(e);
            },
        }
        i += 1;
    }
    proof {
        assert(lv.take(lv.len() as int) =~= lv);
    }
    Ok(m)
}

} // verus!
