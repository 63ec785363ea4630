//! The type mapper: translates a single C-style type-and-name token into a
//! structured type reference plus the declared name, if any.
//!
//! A token is first held against a fixed, ordered table of built-in type
//! spellings; a prefix match is accepted only if the token does not also
//! begin with the same spelling followed by `*` (this keeps `int` apart
//! from `int*`).  A token that matches no built-in spelling is read as an
//! opaque `<type-name>` followed by its `<param-name>`: the type name
//! runs to the first space or `*`, the `*` run after it is discarded
//! whatever its depth — opaque types are a single pointer-sized handle —
//! and the parameter name is the word after the stars and any one
//! space, if there is one.
//!
//! A resolved name equal to the reserved word `type` is rewritten to
//! `type_`; a resolved type naming the generic host-array concept is
//! rejected as a recoverable error.

use vstd::prelude::*;
use vstd::string::*;

use crate::text::{check_at, contains_seq, contains_sub, matches_at, str_eq};

verus! {

/// A type as it appears in the model: one of the fixed built-in tags, or
/// an opaque type name with trailing indirection stripped.
#[derive(Debug, Clone, PartialEq, Eq)]
pub enum TypeRef {
    Void,
    Int,
    IntPtr,
    ConstCharPtr,
    CharPtr,
    Bool,
    BoolPtr,
    Double,
    DoublePtr,
    Opaque(String),
}

/// The mathematical image of a [`TypeRef`].
pub enum TypeRefView {
    Void,
    Int,
    IntPtr,
    ConstCharPtr,
    CharPtr,
    Bool,
    BoolPtr,
    Double,
    DoublePtr,
    Opaque(Seq<char>),
}

impl View for TypeRef {
    type V = TypeRefView;

    open spec fn view(&self) -> TypeRefView {
        match self {
            TypeRef::Void => TypeRefView::Void,
            TypeRef::Int => TypeRefView::Int,
            TypeRef::IntPtr => TypeRefView::IntPtr,
            TypeRef::ConstCharPtr => TypeRefView::ConstCharPtr,
            TypeRef::CharPtr => TypeRefView::CharPtr,
            TypeRef::Bool => TypeRefView::Bool,
            TypeRef::BoolPtr => TypeRefView::BoolPtr,
            TypeRef::Double => TypeRefView::Double,
            TypeRef::DoublePtr => TypeRefView::DoublePtr,
            TypeRef::Opaque(n) => TypeRefView::Opaque(n@),
        }
    }
}

/// A failure of the type mapper, carrying the offending token.
#[derive(Debug, Clone, PartialEq, Eq)]
pub enum MapError {
    /// The token began with a space, so no type could be taken from it.
    EmptyType { token: String },
    /// A parameter token carried no name after its type.
    MissingName { token: String },
    /// The resolved type names the unsupported generic host-array type.
    GenericArray { token: String },
}

/// The mathematical image of a [`MapError`].
pub enum MapErrorView {
    EmptyType(Seq<char>),
    MissingName(Seq<char>),
    GenericArray(Seq<char>),
}

impl View for MapError {
    type V = MapErrorView;

    open spec fn view(&self) -> MapErrorView {
        match self {
            MapError::EmptyType { token } => MapErrorView::EmptyType(token@),
            MapError::MissingName { token } => MapErrorView::MissingName(token@),
            MapError::GenericArray { token } => MapErrorView::GenericArray(token@),
        }
    }
}

impl MapError {
    /// The user-visible text of the failure, holding the literal
    /// offending token.
    pub fn describe(&self) -> (r: String)
        ensures
            r@ == match self {
                MapError::EmptyType { token } => "Can not take type from arg: "@ + token@,
                MapError::MissingName { token } => "No Argument name in arg: "@ + token@,
                MapError::GenericArray { token } => "reaper_array type in arg: "@ + token@,
            },
    {
        let mut out: String;
        match self {
            MapError::EmptyType { token } => {
                out = String::from_str("Can not take type from arg: ");
                out.append(token.as_str());
            },
            MapError::MissingName { token } => {
                out = String::from_str("No Argument name in arg: ");
                out.append(token.as_str());
            },
            MapError::GenericArray { token } => {
                out = String::from_str("reaper_array type in arg: ");
                out.append(token.as_str());
            },
        }
        out
    }
}

/// The fixed, ordered table of built-in C type spellings.
pub open spec fn builtin_keys() -> Seq<Seq<char>> {
    seq![
        "void"@,
        "int"@,
        "int*"@,
        "const char*"@,
        "char*"@,
        "bool"@,
        "bool*"@,
        "double"@,
        "double*"@,
    ]
}

/// Each table spelling followed by one more `*`: a token beginning with
/// this is rejected for the corresponding entry.
pub open spec fn builtin_star_keys() -> Seq<Seq<char>> {
    seq![
        "void*"@,
        "int*"@,
        "int**"@,
        "const char**"@,
        "char**"@,
        "bool*"@,
        "bool**"@,
        "double*"@,
        "double**"@,
    ]
}

/// The tag mapped to table entry `k`.
pub open spec fn builtin_tag(k: int) -> TypeRefView {
    if k == 0 {
        TypeRefView::Void
    } else if k == 1 {
        TypeRefView::Int
    } else if k == 2 {
        TypeRefView::IntPtr
    } else if k == 3 {
        TypeRefView::ConstCharPtr
    } else if k == 4 {
        TypeRefView::CharPtr
    } else if k == 5 {
        TypeRefView::Bool
    } else if k == 6 {
        TypeRefView::BoolPtr
    } else if k == 7 {
        TypeRefView::Double
    } else {
        TypeRefView::DoublePtr
    }
}

/// The token matches table entry `k`.
pub open spec fn builtin_hit(tok: Seq<char>, k: int) -> bool {
    &&& matches_at(tok, 0, builtin_keys()[k])
    &&& !matches_at(tok, 0, builtin_star_keys()[k])
}

/// The first table entry at index `k` or later that the token matches.
pub open spec fn first_builtin_from(tok: Seq<char>, k: int) -> Option<int>
    decreases 9 - k,
    when 0 <= k <= 9
{
    if k >= 9 {
        None
    } else if builtin_hit(tok, k) {
        Some(k)
    } else {
        first_builtin_from(tok, k + 1)
    }
}

pub proof fn lemma_first_builtin(tok: Seq<char>, k0: int)
    requires
        0 <= k0 <= 9,
    ensures
        match first_builtin_from(tok, k0) {
            Some(k) => {
                &&& k0 <= k < 9
                &&& builtin_hit(tok, k)
                &&& forall|j: int| k0 <= j < k ==> !builtin_hit(tok, j)
            },
            None => forall|j: int| k0 <= j < 9 ==> !builtin_hit(tok, j),
        },
    decreases 9 - k0,
{
    if k0 < 9 && !builtin_hit(tok, k0) {
        lemma_first_builtin(tok, k0 + 1);
    }
}

/// The end of the opaque type name: the first space or `*` at or after
/// `i`, or the token's end.
pub open spec fn type_name_end(tok: Seq<char>, i: int) -> int
    decreases tok.len() - i,
    when 0 <= i <= tok.len()
{
    if i < tok.len() && tok[i] != ' ' && tok[i] != '*' {
        type_name_end(tok, i + 1)
    } else {
        i
    }
}

/// The end of the `*` run at or after `i`.
pub open spec fn stars_end(tok: Seq<char>, i: int) -> int
    decreases tok.len() - i,
    when 0 <= i <= tok.len()
{
    if i < tok.len() && tok[i] == '*' {
        stars_end(tok, i + 1)
    } else {
        i
    }
}

/// The end of the parameter name: the first space at or after `i`, or
/// the token's end.
pub open spec fn name_end(tok: Seq<char>, i: int) -> int
    decreases tok.len() - i,
    when 0 <= i <= tok.len()
{
    if i < tok.len() && tok[i] != ' ' {
        name_end(tok, i + 1)
    } else {
        i
    }
}

/// The declared name of an opaque token whose `*` run ends at `j`: the
/// word after the stars and at most one space, if any text follows.
pub open spec fn opaque_param_name(tok: Seq<char>, j: int) -> Option<Seq<char>>
    recommends
        0 <= j <= tok.len(),
{
    if j >= tok.len() {
        None
    } else if tok[j] == ' ' {
        Some(tok.subrange(j + 1, name_end(tok, j + 1)))
    } else {
        Some(tok.subrange(j, name_end(tok, j)))
    }
}

/// The substring that marks the unsupported generic host-array type.
pub open spec fn array_marker() -> Seq<char> {
    "reaper_array"@
}

/// The reserved parameter name and its rewritten form.
pub open spec fn reserved_name() -> Seq<char> {
    "type"@
}

pub open spec fn rewritten_name() -> Seq<char> {
    "type_"@
}

/// The mapping before the reserved-name rewrite and the array check:
/// either a built-in tag with the raw suffix as the name, or an opaque
/// type name with its indirection discarded and the word after it as
/// the declared name.
pub open spec fn raw_map(tok: Seq<char>) -> Result<(TypeRefView, Option<Seq<char>>), MapErrorView> {
    match first_builtin_from(tok, 0) {
        Some(k) => Ok(
            (builtin_tag(k), Some(tok.subrange(builtin_keys()[k].len() as int, tok.len() as int))),
        ),
        None => {
            let s = type_name_end(tok, 0);
            if s == 0 {
                Err(MapErrorView::EmptyType(tok))
            } else {
                Ok(
                    (
                        TypeRefView::Opaque(tok.subrange(0, s)),
                        opaque_param_name(tok, stars_end(tok, s)),
                    ),
                )
            }
        },
    }
}

/// What the type mapper returns for a token: the raw mapping, with a name
/// equal to the reserved word rewritten, and an opaque type naming the
/// generic host-array concept rejected.
pub open spec fn spec_map_type(tok: Seq<char>) -> Result<
    (TypeRefView, Option<Seq<char>>),
    MapErrorView,
> {
    match raw_map(tok) {
        Err(e) => Err(e),
        Ok((ty, nm0)) => {
            let nm = if nm0 == Some(reserved_name()) {
                Some(rewritten_name())
            } else {
                nm0
            };
            if ty matches TypeRefView::Opaque(b) && contains_seq(b, array_marker()) {
                Err(MapErrorView::GenericArray(tok))
            } else {
                Ok((ty, nm))
            }
        },
    }
}

/// The mathematical image of the executable mapper's result.
pub open spec fn map_view(r: Result<(TypeRef, Option<String>), MapError>) -> Result<
    (TypeRefView, Option<Seq<char>>),
    MapErrorView,
> {
    match r {
        Ok((ty, nm)) => Ok(
            (
                ty@,
                match nm {
                    Some(n) => Some(n@),
                    None => None,
                },
            ),
        ),
        Err(e) => Err(e@),
    }
}

/// Looks the token up in the built-in table, in table order.
fn builtin_lookup(token: &str) -> (r: Option<(TypeRef, usize)>)
    ensures
        match first_builtin_from(token@, 0) {
            Some(k) => r matches Some(p) && p.0@ == builtin_tag(k) && p.1 == builtin_keys()[k].len(),
            None => r is None,
        },
{
    if check_at(token, 0, "void") && !check_at(token, 0, "void*") {
        return Some((TypeRef::Void, "void".unicode_len()));
    }
    assert(first_builtin_from(token@, 0) == first_builtin_from(token@, 1));
    if check_at(token, 0, "int") && !check_at(token, 0, "int*") {
        return Some((TypeRef::Int, "int".unicode_len()));
    }
    assert(first_builtin_from(token@, 1) == first_builtin_from(token@, 2));
    if check_at(token, 0, "int*") && !check_at(token, 0, "int**") {
        return Some((TypeRef::IntPtr, "int*".unicode_len()));
    }
    assert(first_builtin_from(token@, 2) == first_builtin_from(token@, 3));
    if check_at(token, 0, "const char*") && !check_at(token, 0, "const char**") {
        return Some((TypeRef::ConstCharPtr, "const char*".unicode_len()));
    }
    assert(first_builtin_from(token@, 3) == first_builtin_from(token@, 4));
    if check_at(token, 0, "char*") && !check_at(token, 0, "char**") {
        return Some((TypeRef::CharPtr, "char*".unicode_len()));
    }
    assert(first_builtin_from(token@, 4) == first_builtin_from(token@, 5));
    if check_at(token, 0, "bool") && !check_at(token, 0, "bool*") {
        return Some((TypeRef::Bool, "bool".unicode_len()));
    }
    assert(first_builtin_from(token@, 5) == first_builtin_from(token@, 6));
    if check_at(token, 0, "bool*") && !check_at(token, 0, "bool**") {
        return Some((TypeRef::BoolPtr, "bool*".unicode_len()));
    }
    assert(first_builtin_from(token@, 6) == first_builtin_from(token@, 7));
    if check_at(token, 0, "double") && !check_at(token, 0, "double*") {
        return Some((TypeRef::Double, "double".unicode_len()));
    }
    assert(first_builtin_from(token@, 7) == first_builtin_from(token@, 8));
    if check_at(token, 0, "double*") && !check_at(token, 0, "double**") {
        return Some((TypeRef::DoublePtr, "double*".unicode_len()));
    }
    assert(first_builtin_from(token@, 8) == first_builtin_from(token@, 9));
    None
}

/// Rewrites a resolved parameter name equal to the reserved word.
fn finish_name(name: String) -> (r: String)
    ensures
        r@ == (if name@ == reserved_name() {
            rewritten_name()
        } else {
            name@
        }),
{
    if str_eq(name.as_str(), "type") {
        String::from_str("type_")
    } else {
        name
    }
}

/// The end of the opaque type name.
fn type_name_end_exec(tok: &str) -> (e: usize)
    ensures
        e == type_name_end(tok@, 0),
        e <= tok@.len(),
{
    let n: usize = tok.unicode_len();
    let mut e: usize = 0;
    while e < n && tok.get_char(e) != ' ' && tok.get_char(e) != '*'
        invariant
            e <= n,
            n == tok@.len(),
            type_name_end(tok@, 0) == type_name_end(tok@, e as int),
        decreases n - e,
    {
        e += 1;
    }
    e
}

/// The end of the `*` run at or after `i`.
fn stars_end_exec(tok: &str, i: usize) -> (e: usize)
    requires
        i <= tok@.len(),
    ensures
        e == stars_end(tok@, i as int),
        i <= e <= tok@.len(),
{
    let n: usize = tok.unicode_len();
    let mut e: usize = i;
    while e < n && tok.get_char(e) == '*'
        invariant
            i <= e <= n,
            n == tok@.len(),
            stars_end(tok@, i as int) == stars_end(tok@, e as int),
        decreases n - e,
    {
        e += 1;
    }
    e
}

/// The end of the parameter name at or after `i`.
fn name_end_exec(tok: &str, i: usize) -> (e: usize)
    requires
        i <= tok@.len(),
    ensures
        e == name_end(tok@, i as int),
        i <= e <= tok@.len(),
{
    let n: usize = tok.unicode_len();
    let mut e: usize = i;
    while e < n && tok.get_char(e) != ' '
        invariant
            i <= e <= n,
            n == tok@.len(),
            name_end(tok@, i as int) == name_end(tok@, e as int),
        decreases n - e,
    {
        e += 1;
    }
    e
}

/// Translates one type-and-name token.  The result is exactly
/// [`spec_map_type`] of the token's text.
pub fn map_type(token: &str) -> (r: Result<(TypeRef, Option<String>), MapError>)
    ensures
        map_view(r) == spec_map_type(token@),
{
    let n: usize = token.unicode_len();
    proof {
        lemma_first_builtin(token@, 0);
    }
    match builtin_lookup(token) {
        Some((ty, klen)) => {
            let suffix: &str = token.substring_char(klen, n);
            let nm: String = finish_name(suffix.to_owned());
            Ok((ty, Some(nm)))
        },
        None => {
            let s: usize = type_name_end_exec(token);
            if s == 0 {
                return Err(MapError::EmptyType { token: token.to_owned() });
            }
            let base: &str = token.substring_char(0, s);
            if contains_sub(base, "reaper_array") {
                return Err(MapError::GenericArray { token: token.to_owned() });
            }
            let j: usize = stars_end_exec(token, s);
            let nm: Option<String> = if j >= n {
                None
            } else if token.get_char(j) == ' ' {
                let e: usize = name_end_exec(token, j + 1);
                Some(finish_name(token.substring_char(j + 1, e).to_owned()))
            } else {
                let e: usize = name_end_exec(token, j);
                Some(finish_name(token.substring_char(j, e).to_owned()))
            };
            Ok((TypeRef::Opaque(base.to_owned()), nm))
        },
    }
}

} // verus!
