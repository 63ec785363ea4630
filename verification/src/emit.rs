//! The binding emitter: turns a [`BindingModel`] into the complete
//! source text of a typed wrapper unit.
//!
//! The unit holds one handle-type alias per opaque type (re-declaring
//! the same alias is harmless), a function-pointer table type with one
//! optional slot per function and a resolved-count field, a wrapper
//! object with one optional integer field per constant, a load operation
//! that resolves every symbol independently through a host-supplied
//! resolver and tolerates any individual miss, and one method per
//! function that forwards to the resolved pointer or fails naming the
//! function.  All raw-address-to-callable crossings in the emitted unit
//! go through one helper, so the native boundary is a single audited
//! choke point.
//!
//! Emission is a pure function of the model: the contract of
//! [`emit_bindings`] pins every character of the output, so regenerating
//! from an unchanged header reproduces byte-identical text.

use vstd::prelude::*;
use vstd::string::*;

use crate::model::{BindingModel, BindingModelView, FuncRecord, FuncRecordView, Param, ParamView};
use crate::scan::{scan_header, spec_scan, ScanError, ScanErrorView};
use crate::types::{TypeRef, TypeRefView};

verus! {

/// The native spelling of a type reference in the emitted unit.  An
/// opaque name stands for its own alias, declared as an untyped handle.
pub open spec fn native_text(t: TypeRefView) -> Seq<char> {
    match t {
        TypeRefView::Void => "()"@,
        TypeRefView::Int => "std::ffi::c_int"@,
        TypeRefView::IntPtr => "*mut std::ffi::c_int"@,
        TypeRefView::ConstCharPtr => "*const std::ffi::c_char"@,
        TypeRefView::CharPtr => "*mut std::ffi::c_char"@,
        TypeRefView::Bool => "bool"@,
        TypeRefView::BoolPtr => "*mut bool"@,
        TypeRefView::Double => "f64"@,
        TypeRefView::DoublePtr => "*mut f64"@,
        TypeRefView::Opaque(n) => n,
    }
}

/// Each item of `items` wrapped as `pre + item + post`, concatenated.
pub open spec fn wrapped_all(items: Seq<Seq<char>>, pre: Seq<char>, post: Seq<char>) -> Seq<char>
    decreases items.len(),
{
    if items.len() == 0 {
        Seq::<char>::empty()
    } else {
        wrapped_all(items.drop_last(), pre, post) + pre + items.last() + post
    }
}

/// Each item wrapped as `pre + item + mid + item + post`, concatenated.
pub open spec fn wrapped2_all(
    items: Seq<Seq<char>>,
    pre: Seq<char>,
    mid: Seq<char>,
    post: Seq<char>,
) -> Seq<char>
    decreases items.len(),
{
    if items.len() == 0 {
        Seq::<char>::empty()
    } else {
        wrapped2_all(items.drop_last(), pre, mid, post) + pre + items.last() + mid + items.last()
            + post
    }
}

/// The parameter types, comma-joined, for a slot's signature.
pub open spec fn joined_types(ps: Seq<ParamView>) -> Seq<char>
    decreases ps.len(),
{
    if ps.len() == 0 {
        Seq::<char>::empty()
    } else if ps.len() == 1 {
        native_text(ps[0].ty)
    } else {
        joined_types(ps.drop_last()) + ", "@ + native_text(ps.last().ty)
    }
}

/// The parameter names, comma-joined, for the forwarding call.
pub open spec fn joined_names(ps: Seq<ParamView>) -> Seq<char>
    decreases ps.len(),
{
    if ps.len() == 0 {
        Seq::<char>::empty()
    } else if ps.len() == 1 {
        ps[0].name
    } else {
        joined_names(ps.drop_last()) + ", "@ + ps.last().name
    }
}

/// The `, name: type` text of every parameter, for a method signature.
pub open spec fn params_sig(ps: Seq<ParamView>) -> Seq<char>
    decreases ps.len(),
{
    if ps.len() == 0 {
        Seq::<char>::empty()
    } else {
        params_sig(ps.drop_last()) + ", "@ + ps.last().name + ": "@ + native_text(ps.last().ty)
    }
}

/// The optional-slot type matching one function's exact signature.
pub open spec fn slot_type(f: FuncRecordView) -> Seq<char> {
    "Option<unsafe extern \"C\" fn("@ + joined_types(f.params) + ") -> "@ + native_text(f.ret)
        + ">"@
}

/// One slot declaration inside the function-pointer table type.
pub open spec fn slot_decl(f: FuncRecordView) -> Seq<char> {
    "    pub "@ + f.name + ": "@ + slot_type(f) + ",\n"@
}

/// The load statements for one function: resolve the fully-qualified
/// name, keep whatever came back, and count a hit.
pub open spec fn load_fn(f: FuncRecordView) -> Seq<char> {
    "        let "@ + f.name + ": "@ + slot_type(f) + " = unsafe { slot(resolve(\"ImGui_"@
        + f.name + "\")) };\n        if "@ + f.name
        + ".is_some() { loaded_count += 1; }\n"@
}

/// One wrapper method: it fails naming the function when the slot was
/// never resolved, and otherwise forwards every argument verbatim.
pub open spec fn method_text(f: FuncRecordView) -> Seq<char> {
    "    /// Forwards to the resolved native function, or fails naming\n    /// this function if its symbol was never resolved.  Validity of the\n    /// arguments at the native boundary is the caller's obligation.\n    pub unsafe fn "@
        + f.name + "(&self"@ + params_sig(f.params) + ") -> "@ + native_text(f.ret)
        + " {\n        match self.pointers."@ + f.name
        + " {\n            None => panic!(\"function not loaded: {}\", \""@ + f.name
        + "\"),\n            Some(f) => f("@ + joined_names(f.params)
        + "),\n        }\n    }\n\n"@
}

pub open spec fn slot_decls_text(fs: Seq<FuncRecordView>) -> Seq<char>
    decreases fs.len(),
{
    if fs.len() == 0 {
        Seq::<char>::empty()
    } else {
        slot_decls_text(fs.drop_last()) + slot_decl(fs.last())
    }
}

pub open spec fn load_fns_text(fs: Seq<FuncRecordView>) -> Seq<char>
    decreases fs.len(),
{
    if fs.len() == 0 {
        Seq::<char>::empty()
    } else {
        load_fns_text(fs.drop_last()) + load_fn(fs.last())
    }
}

pub open spec fn fn_ctor_items_text(fs: Seq<FuncRecordView>) -> Seq<char>
    decreases fs.len(),
{
    if fs.len() == 0 {
        Seq::<char>::empty()
    } else {
        fn_ctor_items_text(fs.drop_last()) + "                "@ + fs.last().name + ",\n"@
    }
}

pub open spec fn methods_text(fs: Seq<FuncRecordView>) -> Seq<char>
    decreases fs.len(),
{
    if fs.len() == 0 {
        Seq::<char>::empty()
    } else {
        methods_text(fs.drop_last()) + method_text(fs.last())
    }
}

/// The fixed opening of the emitted unit, ending in the one audited
/// helper that turns a resolved raw address into a typed callable.
pub open spec fn unit_header() -> Seq<char> {
    "//! Typed wrapper over a native function table: one alias per opaque\n//! type, one optional slot per function, and one method per function\n//! forwarding to the resolved pointer.\n#![allow(non_snake_case)]\n#![allow(non_camel_case_types)]\nuse std::ffi::c_void;\nuse std::mem::transmute_copy;\n\n/// The single crossing into native code: one resolved raw address\n/// becomes one typed callable slot, and null becomes an empty slot.\nunsafe fn slot<T: Copy>(addr: *mut c_void) -> Option<T> {\n    if addr.is_null() { None } else { Some(transmute_copy::<*mut c_void, T>(&addr)) }\n}\n\n"@
}

/// The whole emitted unit for a model: header, aliases, the pointer
/// table, the wrapper, its load operation, and one method per function,
/// each collection in model order.
pub open spec fn spec_emit(m: BindingModelView) -> Seq<char> {
    unit_header() + wrapped_all(m.opaque_types, "pub type "@, " = *mut c_void;\n"@)
        + "\n#[derive(Clone)]\npub struct FunctionPointers {\n    pub loaded_count: u32,\n"@
        + slot_decls_text(m.functions)
        + "}\n\n#[derive(Clone)]\npub struct ImGui {\n    pub pointers: FunctionPointers,\n"@
        + wrapped_all(m.constants, "    pub "@, ": Option<i32>,\n"@)
        + "}\n\nimpl ImGui {\n    /// Resolves every function and constant by its fully-qualified\n    /// name.  A symbol the host does not provide leaves its slot empty;\n    /// the load itself always succeeds.\n    pub fn load(resolve: &mut dyn FnMut(&str) -> *mut c_void) -> ImGui {\n        let mut loaded_count: u32 = 0;\n"@
        + load_fns_text(m.functions)
        + wrapped2_all(
        m.constants,
        "        let "@,
        ": Option<i32> = match unsafe { slot::<unsafe extern \"C\" fn() -> i32>(resolve(\"ImGui_"@,
        "\")) } { None => None, Some(f) => Some(unsafe { f() }) };\n"@,
    ) + "        ImGui {\n            pointers: FunctionPointers {\n                loaded_count,\n"@
        + fn_ctor_items_text(m.functions) + "            },\n"@
        + wrapped_all(m.constants, "            "@, ",\n"@) + "        }\n    }\n\n"@
        + methods_text(m.functions) + "}\n"@
}

/// Appends the native spelling of one type.
fn push_native(out: &mut String, t: &TypeRef)
    ensures
        final(out)@ == old(out)@ + native_text(t@),
{
    match t {
        TypeRef::Void => out.append("()"),
        TypeRef::Int => out.append("std::ffi::c_int"),
        TypeRef::IntPtr => out.append("*mut std::ffi::c_int"),
        TypeRef::ConstCharPtr => out.append("*const std::ffi::c_char"),
        TypeRef::CharPtr => out.append("*mut std::ffi::c_char"),
        TypeRef::Bool => out.append("bool"),
        TypeRef::BoolPtr => out.append("*mut bool"),
        TypeRef::Double => out.append("f64"),
        TypeRef::DoublePtr => out.append("*mut f64"),
        TypeRef::Opaque(n) => out.append(n.as_str()),
    }
}

/// Appends the comma-joined parameter types.
fn push_joined_types(out: &mut String, params: &Vec<Param>)
    ensures
        final(out)@ == old(out)@ + joined_types(params@.map_values(|p: Param| p@)),
{
    let ghost pv = params@.map_values(|p: Param| p@);
    let ghost base = out@;
    let mut i: usize = 0;
    proof {
        assert(pv.take(0) =~= Seq::<ParamView>::empty());
    }
    while i < params.len()
        invariant
            i <= params.len(),
            pv == params@.map_values(|p: Param| p@),
            pv.len() == params.len(),
            out@ == base + joined_types(pv.take(i as int)),
        decreases params.len() - i,
    {
        proof {
            assert(pv.take(i as int + 1).drop_last() =~= pv.take(i as int));
            assert(pv.take(i as int + 1).last() == pv[i as int]);
            assert(pv[i as int] == params@[i as int]@);
        }
        if i > 0 {
            out.append(", ");
        }
        push_native(out, &params[i].ty);
        proof {
            assert(out@ =~= base + joined_types(pv.take(i as int + 1)));
        }
        i += 1;
    }
    proof {
        assert(pv.take(pv.len() as int) =~= pv);
    }
}

/// Appends the comma-joined parameter names.
fn push_joined_names(out: &mut String, params: &Vec<Param>)
    ensures
        final(out)@ == old(out)@ + joined_names(params@.map_values(|p: Param| p@)),
{
    let ghost pv = params@.map_values(|p: Param| p@);
    let ghost base = out@;
    let mut i: usize = 0;
    proof {
        assert(pv.take(0) =~= Seq::<ParamView>::empty());
    }
    while i < params.len()
        invariant
            i <= params.len(),
            pv == params@.map_values(|p: Param| p@),
            pv.len() == params.len(),
            out@ == base + joined_names(pv.take(i as int)),
        decreases params.len() - i,
    {
        proof {
            assert(pv.take(i as int + 1).drop_last() =~= pv.take(i as int));
            assert(pv.take(i as int + 1).last() == pv[i as int]);
            assert(pv[i as int] == params@[i as int]@);
        }
        if i > 0 {
            out.append(", ");
        }
        out.append(params[i].name.as_str());
        proof {
            assert(out@ =~= base + joined_names(pv.take(i as int + 1)));
        }
        i += 1;
    }
    proof {
        assert(pv.take(pv.len() as int) =~= pv);
    }
}

/// Appends the `, name: type` signature text of every parameter.
fn push_params_sig(out: &mut String, params: &Vec<Param>)
    ensures
        final(out)@ == old(out)@ + params_sig(params@.map_values(|p: Param| p@)),
{
    let ghost pv = params@.map_values(|p: Param| p@);
    let ghost base = out@;
    let mut i: usize = 0;
    proof {
        assert(pv.take(0) =~= Seq::<ParamView>::empty());
    }
    while i < params.len()
        invariant
            i <= params.len(),
            pv == params@.map_values(|p: Param| p@),
            pv.len() == params.len(),
            out@ == base + params_sig(pv.take(i as int)),
        decreases params.len() - i,
    {
        proof {
            assert(pv.take(i as int + 1).drop_last() =~= pv.take(i as int));
            assert(pv.take(i as int + 1).last() == pv[i as int]);
            assert(pv[i as int] == params@[i as int]@);
        }
        out.append(", ");
        out.append(params[i].name.as_str());
        out.append(": ");
        push_native(out, &params[i].ty);
        proof {
            assert(out@ =~= base + params_sig(pv.take(i as int + 1)));
        }
        i += 1;
    }
    proof {
        assert(pv.take(pv.len() as int) =~= pv);
    }
}

/// Appends the optional-slot type of one function.
fn push_slot_type(out: &mut String, f: &FuncRecord)
    ensures
        final(out)@ == old(out)@ + slot_type(f@),
{
    let ghost base = out@;
    out.append("Option<unsafe extern \"C\" fn(");
    push_joined_types(out, &f.params);
    out.append(") -> ");
    push_native(out, &f.ret);
    out.append(">");
    proof {
        assert(out@ =~= base + slot_type(f@));
    }
}

/// Appends `pre + item + post` for every item.
fn push_wrapped(out: &mut String, items: &Vec<String>, pre: &str, post: &str)
    ensures
        final(out)@ == old(out)@ + wrapped_all(items.deep_view(), pre@, post@),
{
    let ghost iv = items.deep_view();
    let ghost base = out@;
    let mut i: usize = 0;
    proof {
        assert(iv.take(0) =~= Seq::<Seq<char>>::empty());
    }
    while i < items.len()
        invariant
            i <= items.len(),
            iv == items.deep_view(),
            iv.len() == items.len(),
            out@ == base + wrapped_all(iv.take(i as int), pre@, post@),
        decreases items.len() - i,
    {
        proof {
            assert(iv.take(i as int + 1).drop_last() =~= iv.take(i as int));
            assert(iv.take(i as int + 1).last() == iv[i as int]);
            assert(items[i as int]@ == iv[i as int]);
        }
        out.append(pre);
        out.append(items[i].as_str());
        out.append(post);
        proof {
            assert(out@ =~= base + wrapped_all(iv.take(i as int + 1), pre@, post@));
        }
        i += 1;
    }
    proof {
        assert(iv.take(iv.len() as int) =~= iv);
    }
}

/// Appends `pre + item + mid + item + post` for every item.
fn push_wrapped2(out: &mut String, items: &Vec<String>, pre: &str, mid: &str, post: &str)
    ensures
        final(out)@ == old(out)@ + wrapped2_all(items.deep_view(), pre@, mid@, post@),
{
    let ghost iv = items.deep_view();
    let ghost base = out@;
    let mut i: usize = 0;
    proof {
        assert(iv.take(0) =~= Seq::<Seq<char>>::empty());
    }
    while i < items.len()
        invariant
            i <= items.len(),
            iv == items.deep_view(),
            iv.len() == items.len(),
            out@ == base + wrapped2_all(iv.take(i as int), pre@, mid@, post@),
        decreases items.len() - i,
    {
        proof {
            assert(iv.take(i as int + 1).drop_last() =~= iv.take(i as int));
            assert(iv.take(i as int + 1).last() == iv[i as int]);
            assert(items[i as int]@ == iv[i as int]);
        }
        out.append(pre);
        out.append(items[i].as_str());
        out.append(mid);
        out.append(items[i].as_str());
        out.append(post);
        proof {
            assert(out@ =~= base + wrapped2_all(iv.take(i as int + 1), pre@, mid@, post@));
        }
        i += 1;
    }
    proof {
        assert(iv.take(iv.len() as int) =~= iv);
    }
}

/// Appends one slot declaration.
fn push_slot_decl(out: &mut String, f: &FuncRecord)
    ensures
        final(out)@ == old(out)@ + slot_decl(f@),
{
    let ghost base = out@;
    out.append("    pub ");
    out.append(f.name.as_str());
    out.append(": ");
    push_slot_type(out, f);
    out.append(",\n");
    proof {
        assert(out@ =~= base + slot_decl(f@));
    }
}

/// Appends the load statements of one function.
fn push_load_fn(out: &mut String, f: &FuncRecord)
    ensures
        final(out)@ == old(out)@ + load_fn(f@),
{
    let ghost base = out@;
    out.append("        let ");
    out.append(f.name.as_str());
    out.append(": ");
    push_slot_type(out, f);
    out.append(" = unsafe { slot(resolve(\"ImGui_");
    out.append(f.name.as_str());
    out.append("\")) };\n        if ");
    out.append(f.name.as_str());
    out.append(".is_some() { loaded_count += 1; }\n");
    proof {
        assert(out@ =~= base + load_fn(f@));
    }
}

/// Appends one wrapper method.
fn push_method(out: &mut String, f: &FuncRecord)
    ensures
        final(out)@ == old(out)@ + method_text(f@),
{
    let ghost base = out@;
    out.append(
        "    /// Forwards to the resolved native function, or fails naming\n    /// this function if its symbol was never resolved.  Validity of the\n    /// arguments at the native boundary is the caller's obligation.\n    pub unsafe fn ",
    );
    out.append(f.name.as_str());
    out.append("(&self");
    push_params_sig(out, &f.params);
    out.append(") -> ");
    push_native(out, &f.ret);
    out.append(" {\n        match self.pointers.");
    out.append(f.name.as_str());
    out.append(" {\n            None => panic!(\"function not loaded: {}\", \"");
    out.append(f.name.as_str());
    out.append("\"),\n            Some(f) => f(");
    push_joined_names(out, &f.params);
    out.append("),\n        }\n    }\n\n");
    proof {
        assert(out@ =~= base + method_text(f@));
    }
}

/// Appends one text block per function record, in model order.
#[allow(rustdoc::private_intra_doc_links)]
fn push_fn_blocks(out: &mut String, fs: &Vec<FuncRecord>, which: u8)
    requires
        which < 4,
    ensures
        ({
            let fv = fs@.map_values(|f: FuncRecord| f@);
            final(out)@ == old(out)@ + (if which == 0 {
                slot_decls_text(fv)
            } else if which == 1 {
                load_fns_text(fv)
            } else if which == 2 {
                fn_ctor_items_text(fv)
            } else {
                methods_text(fv)
            })
        }),
{
    let ghost fv = fs@.map_values(|f: FuncRecord| f@);
    let ghost base = out@;
    let mut i: usize = 0;
    proof {
        assert(fv.take(0) =~= Seq::<FuncRecordView>::empty());
    }
    while i < fs.len()
        invariant
            i <= fs.len(),
            which < 4,
            fv == fs@.map_values(|f: FuncRecord| f@),
            fv.len() == fs.len(),
            out@ == base + (if which == 0 {
                slot_decls_text(fv.take(i as int))
            } else if which == 1 {
                load_fns_text(fv.take(i as int))
            } else if which == 2 {
                fn_ctor_items_text(fv.take(i as int))
            } else {
                methods_text(fv.take(i as int))
            }),
        decreases fs.len() - i,
    {
        proof {
            assert(fv.take(i as int + 1).drop_last() =~= fv.take(i as int));
            assert(fv.take(i as int + 1).last() == fv[i as int]);
            assert(fv[i as int] == fs@[i as int]@);
        }
        if which == 0 {
            push_slot_decl(out, &fs[i]);
        } else if which == 1 {
            push_load_fn(out, &fs[i]);
        } else if which == 2 {
            out.append("                ");
            out.append(fs[i].name.as_str());
            out.append(",\n");
            proof {
                assert(out@ =~= base + fn_ctor_items_text(fv.take(i as int + 1)));
            }
        } else {
            push_method(out, &fs[i]);
        }
        i += 1;
    }
    proof {
        assert(fv.take(fv.len() as int) =~= fv);
    }
}

/// Emits the complete wrapper unit for the model.  Every character of
/// the result is a function of the model alone: [`spec_emit`] of it.
pub fn emit_bindings(model: &BindingModel) -> (r: String)
    ensures
        r@ == spec_emit(model@),
{
    let mut out: String = String::new();
    out.append(
        "//! Typed wrapper over a native function table: one alias per opaque\n//! type, one optional slot per function, and one method per function\n//! forwarding to the resolved pointer.\n#![allow(non_snake_case)]\n#![allow(non_camel_case_types)]\nuse std::ffi::c_void;\nuse std::mem::transmute_copy;\n\n/// The single crossing into native code: one resolved raw address\n/// becomes one typed callable slot, and null becomes an empty slot.\nunsafe fn slot<T: Copy>(addr: *mut c_void) -> Option<T> {\n    if addr.is_null() { None } else { Some(transmute_copy::<*mut c_void, T>(&addr)) }\n}\n\n",
    );
    push_wrapped(&mut out, &model.opaque_types, "pub type ", " = *mut c_void;\n");
    out.append("\n#[derive(Clone)]\npub struct FunctionPointers {\n    pub loaded_count: u32,\n");
    push_fn_blocks(&mut out, &model.functions, 0);
    out.append("}\n\n#[derive(Clone)]\npub struct ImGui {\n    pub pointers: FunctionPointers,\n");
    push_wrapped(&mut out, &model.constants, "    pub ", ": Option<i32>,\n");
    out.append(
        "}\n\nimpl ImGui {\n    /// Resolves every function and constant by its fully-qualified\n    /// name.  A symbol the host does not provide leaves its slot empty;\n    /// the load itself always succeeds.\n    pub fn load(resolve: &mut dyn FnMut(&str) -> *mut c_void) -> ImGui {\n        let mut loaded_count: u32 = 0;\n",
    );
    push_fn_blocks(&mut out, &model.functions, 1);
    push_wrapped2(
        &mut out,
        &model.constants,
        "        let ",
        ": Option<i32> = match unsafe { slot::<unsafe extern \"C\" fn() -> i32>(resolve(\"ImGui_",
        "\")) } { None => None, Some(f) => Some(unsafe { f() }) };\n",
    );
    out.append(
        "        ImGui {\n            pointers: FunctionPointers {\n                loaded_count,\n",
    );
    push_fn_blocks(&mut out, &model.functions, 2);
    out.append("            },\n");
    push_wrapped(&mut out, &model.constants, "            ", ",\n");
    out.append("        }\n    }\n\n");
    push_fn_blocks(&mut out, &model.functions, 3);
    out.append("}\n");
    proof {
        assert(out@ =~= spec_emit(model@));
    }
    out
}

/// What the whole pipeline produces for a header text: the emitted unit
/// for the scanned model, or the scanner's first fatal error.
pub open spec fn spec_generate(text: Seq<char>) -> Result<Seq<char>, ScanErrorView> {
    match spec_scan(text) {
        Ok(m) => Ok(spec_emit(m)),
        Err(e) => Err(e),
    }
}

/// Runs the whole pipeline: scans the header text and emits the wrapper
/// unit.  The result is exactly [`spec_generate`] of the text, so equal
/// header texts always produce byte-identical output.
pub fn generate_bindings(text: &str) -> (r: Result<String, ScanError>)
    ensures
        match r {
            Ok(s) => spec_generate(text@) == Ok::<Seq<char>, ScanErrorView>(s@),
            Err(e) => spec_generate(text@) == Err::<Seq<char>, ScanErrorView>(e@),
        },
{
    match scan_header(text) {
        Ok(m) => Ok(emit_bindings(&m)),
        Err(e) => Err(e),
    }
}

} // verus!
