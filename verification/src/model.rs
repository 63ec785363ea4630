//! The canonical in-memory representation produced by the scanner: one
//! record per exported function, plus flat lists of opaque type names and
//! constant names, all in header order.
//!
//! The model is pure data.  Order is preserved exactly as declared, so
//! that emission is stable and diffable across regenerations; duplicate
//! opaque-type declarations pass through undeduplicated.

use vstd::prelude::*;
use vstd::string::*;

use crate::types::{
    spec_map_type, map_type, MapError, MapErrorView, TypeRef, TypeRefView,
};

verus! {

/// One declared parameter: its type and its resolved (non-empty,
/// reserved-word-rewritten) name.
#[derive(Debug, Clone, PartialEq, Eq)]
pub struct Param {
    pub ty: TypeRef,
    pub name: String,
}

#[verifier::ext_equal]
pub struct ParamView {
    pub ty: TypeRefView,
    pub name: Seq<char>,
}

impl View for Param {
    type V = ParamView;

    open spec fn view(&self) -> ParamView {
        ParamView { ty: self.ty@, name: self.name@ }
    }
}

/// One exported function: its bare name (library prefix stripped), its
/// return type, and its parameters in declared order.
#[derive(Debug, Clone, PartialEq, Eq)]
pub struct FuncRecord {
    pub name: String,
    pub ret: TypeRef,
    pub params: Vec<Param>,
}

#[verifier::ext_equal]
pub struct FuncRecordView {
    pub name: Seq<char>,
    pub ret: TypeRefView,
    pub params: Seq<ParamView>,
}

impl View for FuncRecord {
    type V = FuncRecordView;

    open spec fn view(&self) -> FuncRecordView {
        FuncRecordView {
            name: self.name@,
            ret: self.ret@,
            params: self.params@.map_values(|p: Param| p@),
        }
    }
}

/// The aggregate handed to the emitter: opaque types, constants and
/// functions, each in header order.
#[derive(Debug, Clone, PartialEq, Eq)]
pub struct BindingModel {
    pub opaque_types: Vec<String>,
    pub constants: Vec<String>,
    pub functions: Vec<FuncRecord>,
}

#[verifier::ext_equal]
pub struct BindingModelView {
    pub opaque_types: Seq<Seq<char>>,
    pub constants: Seq<Seq<char>>,
    pub functions: Seq<FuncRecordView>,
}

impl View for BindingModel {
    type V = BindingModelView;

    open spec fn view(&self) -> BindingModelView {
        BindingModelView {
            opaque_types: self.opaque_types.deep_view(),
            constants: self.constants.deep_view(),
            functions: self.functions@.map_values(|f: FuncRecord| f@),
        }
    }
}

impl BindingModel {
    /// The empty model.
    pub fn new() -> (m: BindingModel)
        ensures
            m@.opaque_types == Seq::<Seq<char>>::empty(),
            m@.constants == Seq::<Seq<char>>::empty(),
            m@.functions == Seq::<FuncRecordView>::empty(),
    {
        let m = BindingModel { opaque_types: Vec::new(), constants: Vec::new(), functions: Vec::new() };
        proof {
            assert(m@.opaque_types =~= Seq::<Seq<char>>::empty());
            assert(m@.constants =~= Seq::<Seq<char>>::empty());
            assert(m@.functions =~= Seq::<FuncRecordView>::empty());
        }
        m
    }
}

/// Mapping one parameter token: a token without a non-empty resolved
/// name is an error here, while a return-type token is allowed to lack
/// one.  This upholds the model invariant that every parameter carries
/// a usable name.
pub open spec fn spec_parse_param(tok: Seq<char>) -> Result<ParamView, MapErrorView> {
    match spec_map_type(tok) {
        Err(e) => Err(e),
        Ok((ty, nm)) => match nm {
            None => Err(MapErrorView::MissingName(tok)),
            Some(n) => if n.len() == 0 {
                Err(MapErrorView::MissingName(tok))
            } else {
                Ok(ParamView { ty, name: n })
            },
        },
    }
}

/// Mapping a whole parameter list.  When several tokens fail, the error
/// of the rightmost failing token is reported.
pub open spec fn spec_parse_params(toks: Seq<Seq<char>>) -> Result<Seq<ParamView>, MapErrorView>
    decreases toks.len(),
{
    if toks.len() == 0 {
        Ok(Seq::<ParamView>::empty())
    } else {
        match spec_parse_param(toks.last()) {
            Err(e) => Err(e),
            Ok(p) => match spec_parse_params(toks.drop_last()) {
                Err(e) => Err(e),
                Ok(ps) => Ok(ps.push(p)),
            },
        }
    }
}

/// Building one function record from its captured name, return-type token
/// and parameter tokens: parameters are mapped first, then the return
/// type, and the first failure aborts the record.
pub open spec fn spec_make_func(
    name: Seq<char>,
    ret_tok: Seq<char>,
    arg_toks: Seq<Seq<char>>,
) -> Result<FuncRecordView, MapErrorView> {
    match spec_parse_params(arg_toks) {
        Err(e) => Err(e),
        Ok(ps) => match spec_map_type(ret_tok) {
            Err(e) => Err(e),
            Ok((ty, _)) => Ok(FuncRecordView { name, ret: ty, params: ps }),
        },
    }
}

/// The mathematical image of the executable builder's result.
pub open spec fn func_result_view(r: Result<FuncRecord, MapError>) -> Result<
    FuncRecordView,
    MapErrorView,
> {
    match r {
        Ok(f) => Ok(f@),
        Err(e) => Err(e@),
    }
}

/// Maps one parameter token.
fn parse_param(tok: &str) -> (r: Result<Param, MapError>)
    ensures
        match r {
            Ok(p) => spec_parse_param(tok@) == Ok::<ParamView, MapErrorView>(p@),
            Err(e) => spec_parse_param(tok@) == Err::<ParamView, MapErrorView>(e@),
        },
{
    match map_type(tok) {
        Err(e) => Err(e),
        Ok((ty, nm)) => match nm {
            None => Err(MapError::MissingName { token: tok.to_owned() }),
            Some(n) => {
                if n.as_str().unicode_len() == 0 {
                    Err(MapError::MissingName { token: tok.to_owned() })
                } else {
                    Ok(Param { ty, name: n })
                }
            },
        },
    }
}

/// Builds one function record; the name must already carry no library
/// prefix.  The result is exactly [`spec_make_func`] of the tokens.
pub fn make_func_record(name: String, ret_tok: &str, arg_toks: &Vec<String>) -> (r: Result<
    FuncRecord,
    MapError,
>)
    ensures
        func_result_view(r) == spec_make_func(name@, ret_tok@, arg_toks.deep_view()),
{
    let ghost toks = arg_toks.deep_view();
    let mut params: Vec<Param> = Vec::new();
    let mut worst: Option<MapError> = None;
    let mut i: usize = 0;
    proof {
        assert(toks.take(0) =~= Seq::<Seq<char>>::empty());
        assert(params@.map_values(|p: Param| p@) =~= Seq::<ParamView>::empty());
    }
    while i < arg_toks.len()
        invariant
            i <= arg_toks.len(),
            toks == arg_toks.deep_view(),
            toks.len() == arg_toks.len(),
            match worst {
                None => spec_parse_params(toks.take(i as int)) == Ok::<_, MapErrorView>(
                    params@.map_values(|p: Param| p@),
                ),
                Some(e) => spec_parse_params(toks.take(i as int)) == Err::<Seq<ParamView>, _>(e@),
            },
        decreases arg_toks.len() - i,
    {
        let ghost pre = toks.take(i as int);
        let ghost cur = toks.take(i as int + 1);
        proof {
            assert(cur.drop_last() =~= pre);
            assert(cur.last() == toks[i as int]);
        }
        match parse_param(arg_toks[i].as_str()) {
            Ok(p) => {
                let ghost old_params = params@;
                match worst {
                    None => {
                        params.push(p);
                        proof {
                            assert(params@.map_values(|q: Param| q@) =~= old_params.map_values(
                                |q: Param| q@,
                            ).push(p@));
                        }
                    },
                    Some(_) => {},
                }
            },
            Err(e) => {
                worst = Some(e);
            },
        }
        i += 1;
    }
    proof {
        assert(toks.take(toks.len() as int) =~= toks);
    }
    match worst {
        Some(e) => Err(e),
        None => {
            match map_type(ret_tok) {
                Err(e) => Err(e),
                Ok((ty, _)) => Ok(FuncRecord { name, ret: ty, params }),
            }
        },
    }
}

} // verus!
