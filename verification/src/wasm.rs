//! The calls that the plugin makes into wasmtime, each behind a wrapper whose
//! contract states what wasmtime's source and documentation promise of it.
//!
//! A [`LoadedModule`] keeps a store together with the instance created in it
//! and the exports looked up on that instance. Its fields are private to this
//! file and only the wrappers below build or touch them, so a store is never
//! paired with an instance, memory or function that it does not own (wasmtime
//! panics on such a pairing).
use crate::values::{NumValue, ValueKind};
use vstd::prelude::*;

verus! {

/// A call that the plugin asked wasmtime to make into a module's function,
/// with what came back. A call that wasmtime refused before running any code
/// (arguments that do not match the signature) is logged as failed too.
pub enum GuestCall {
    /// `wasm_alloc(size)`; the offset it answered, `None` when it trapped.
    Alloc { size: u32, answered: Option<u32> },
    /// `wasm_dealloc(offset, size)`; whether it returned without trapping.
    Dealloc { offset: u32, size: u32, completed: bool },
    /// `abi_version()`; what it answered, `None` when it trapped.
    Version { answered: Option<u32> },
    /// The export `name`, called with `params`; its results, `None` when the
    /// call failed (refused, or trapped).
    Export { name: Seq<char>, params: Seq<NumValue>, results: Option<Seq<Option<NumValue>>> },
}

/// What the library knows of a loaded module.
pub struct ModuleModel {
    /// The bytes that the module was compiled from.
    pub source: Seq<u8>,
    /// The bytes of its bound linear memory.
    pub memory: Seq<u8>,
    /// The names under which its memory, allocator, deallocator and version
    /// function were bound, if they were.
    pub memory_export: Option<Seq<char>>,
    pub alloc_export: Option<Seq<char>>,
    pub dealloc_export: Option<Seq<char>>,
    pub version_export: Option<Seq<char>>,
    /// The name of the exported function selected for a call, and its
    /// parameter and result types.
    pub selected: Option<Seq<char>>,
    pub selected_params: Seq<ValueKind>,
    pub selected_results: Seq<ValueKind>,
    /// The calls made into the module's code through this library, in order.
    pub calls: Seq<GuestCall>,
}

/// A module instantiated in a store of its own, with the exports bound on it.
pub struct LoadedModule {
    store: wasmtime::Store<()>,
    instance: wasmtime::Instance,
    memory: Option<wasmtime::Memory>,
    fn_alloc: Option<wasmtime::TypedFunc<u32, u32>>,
    fn_dealloc: Option<wasmtime::TypedFunc<(u32, u32), ()>>,
    fn_version: Option<wasmtime::TypedFunc<(), u32>>,
    selected: Option<wasmtime::Func>,
}

/// The state of `m` as far as the library knows it: the bytes of its linear
/// memory as wasmtime's `Memory::data` hands them out, the exports bound on
/// it, and the calls made into its code.
pub uninterp spec fn module_state(m: LoadedModule) -> ModuleModel;

/// The bytes that a module was compiled from by `wasmtime::Module::new`.
pub uninterp spec fn module_source(module: wasmtime::Module) -> Seq<u8>;

/// Whether the module compiled from `source` exports a memory under `name`,
/// as `wasmtime::Instance::get_memory` finds it (an export of that name that
/// is a memory).
pub uninterp spec fn exports_memory(source: Seq<u8>, name: Seq<char>) -> bool;

/// The parameter and result types of the function that the module compiled
/// from `source` exports under `name` (as `Func::ty` gives them, told apart
/// as far as calls care), or `None` when it exports no function of that name
/// (as `wasmtime::Instance::get_func` finds it).
pub uninterp spec fn export_signature(source: Seq<u8>, name: Seq<char>) -> Option<
    (Seq<ValueKind>, Seq<ValueKind>),
>;

/// Whether the module compiled from `source` exports a function of exactly
/// these numeric parameter and result types under `name`.
pub open spec fn exports_typed(
    source: Seq<u8>,
    name: Seq<char>,
    params: Seq<ValueKind>,
    results: Seq<ValueKind>,
) -> bool {
    export_signature(source, name) == Some((params, results))
}

/// Whether `bytes` is valid UTF-8, and the text it holds, as
/// `std::str::from_utf8` decides.
pub uninterp spec fn utf8_text(bytes: Seq<u8>) -> Option<Seq<char>>;

/// `s` with `data` written over it from `offset` on.
pub open spec fn splice(s: Seq<u8>, offset: int, data: Seq<u8>) -> Seq<u8> {
    s.subrange(0, offset) + data + s.subrange(offset + data.len(), s.len() as int)
}

/// `b` keeps everything of `a` but the memory bytes and the call log.
pub open spec fn same_bindings(a: ModuleModel, b: ModuleModel) -> bool {
    &&& b.source == a.source
    &&& b.memory_export == a.memory_export
    &&& b.alloc_export == a.alloc_export
    &&& b.dealloc_export == a.dealloc_export
    &&& b.version_export == a.version_export
    &&& b.selected == a.selected
    &&& b.selected_params == a.selected_params
    &&& b.selected_results == a.selected_results
}

/// `b` is `a` after one call into a module's function, as `call`, whether
/// its code ran or wasmtime refused the call: the bindings are kept, the call
/// is logged, and the linear memory did not shrink (WASM memories only grow).
pub open spec fn ran_guest(a: ModuleModel, b: ModuleModel, call: GuestCall) -> bool {
    &&& same_bindings(a, b)
    &&& b.calls == a.calls.push(call)
    &&& b.memory.len() >= a.memory.len()
}

/// `wasmtime::Module::new`: compiles (and validates) a module from its
/// binary or text form. Whether it succeeds is not stated.
#[verifier::external_body]
pub(crate) fn compile_module(engine: &wasmtime::Engine, bytes: &[u8]) -> (r: Result<
    wasmtime::Module,
    wasmtime::Error,
>)
    ensures
        r matches Ok(module) ==> module_source(module) == bytes@,
{
    wasmtime::Module::new(engine, bytes)
}

/// `wasmtime::Store::new`: a fresh store with no host data.
#[verifier::external_body]
pub(crate) fn new_store(engine: &wasmtime::Engine) -> wasmtime::Store<()> {
    wasmtime::Store::new(engine, ())
}

/// `wasmtime::Instance::new` with no imports: instantiates `module` in
/// `store` (running its start function) and keeps the two together, with no
/// export bound yet. Whether it succeeds is not stated (it fails when the
/// module has imports, when its start function traps, or on resource limits).
#[verifier::external_body]
pub(crate) fn instantiate(store: wasmtime::Store<()>, module: &wasmtime::Module) -> (r: Result<
    LoadedModule,
    wasmtime::Error,
>)
    ensures
        r matches Ok(m) ==> {
            let s = module_state(m);
            &&& s.source == module_source(*module)
            &&& s.memory_export is None && s.alloc_export is None && s.dealloc_export is None
            &&& s.version_export is None && s.selected is None
            &&& s.calls == Seq::<GuestCall>::empty()
        },
{
    let mut store = store;
    let instance = wasmtime::Instance::new(&mut store, module, &[])?;
    let (memory, fn_alloc, fn_dealloc, fn_version, selected) = (None, None, None, None, None);
    Ok(LoadedModule { store, instance, memory, fn_alloc, fn_dealloc, fn_version, selected })
}

/// `wasmtime::Instance::get_memory`: binds the memory exported under `name`,
/// if there is such an export and it is a memory.
#[verifier::external_body]
pub(crate) fn bind_memory(m: &mut LoadedModule, name: &str) -> (found: bool)
    ensures
        found == exports_memory(module_state(*old(m)).source, name@),
        found ==> module_state(*final(m)) == (ModuleModel {
            memory_export: Some(name@),
            memory: module_state(*final(m)).memory,
            ..module_state(*old(m))
        }),
        !found ==> module_state(*final(m)) == module_state(*old(m)),
{
    match m.instance.get_memory(&mut m.store, name) {
        Some(memory) => {
            m.memory = Some(memory);
            true
        },
        None => false,
    }
}

/// `wasmtime::Instance::get_typed_func::<u32, u32>`: binds the allocator
/// exported under `name`, if there is a function of that signature.
#[verifier::external_body]
pub(crate) fn bind_alloc(m: &mut LoadedModule, name: &str) -> (r: Result<(), wasmtime::Error>)
    ensures
        r is Ok <==> exports_typed(
            module_state(*old(m)).source,
            name@,
            seq![ValueKind::I32],
            seq![ValueKind::I32],
        ),
        r is Ok ==> module_state(*final(m)) == (ModuleModel {
            alloc_export: Some(name@),
            ..module_state(*old(m))
        }),
        r is Err ==> module_state(*final(m)) == module_state(*old(m)),
{
    m.fn_alloc = Some(m.instance.get_typed_func::<u32, u32>(&mut m.store, name)?);
    Ok(())
}

/// `wasmtime::Instance::get_typed_func::<(u32, u32), ()>`: binds the
/// deallocator exported under `name`, if there is a function of that
/// signature.
#[verifier::external_body]
pub(crate) fn bind_dealloc(m: &mut LoadedModule, name: &str) -> (r: Result<(), wasmtime::Error>)
    ensures
        r is Ok <==> exports_typed(
            module_state(*old(m)).source,
            name@,
            seq![ValueKind::I32, ValueKind::I32],
            Seq::<ValueKind>::empty(),
        ),
        r is Ok ==> module_state(*final(m)) == (ModuleModel {
            dealloc_export: Some(name@),
            ..module_state(*old(m))
        }),
        r is Err ==> module_state(*final(m)) == module_state(*old(m)),
{
    m.fn_dealloc = Some(m.instance.get_typed_func::<(u32, u32), ()>(&mut m.store, name)?);
    Ok(())
}

/// `wasmtime::Instance::get_typed_func::<(), u32>`: binds the version
/// function exported under `name`, if there is a function of that signature.
#[verifier::external_body]
pub(crate) fn bind_version(m: &mut LoadedModule, name: &str) -> (r: Result<(), wasmtime::Error>)
    ensures
        r is Ok <==> exports_typed(
            module_state(*old(m)).source,
            name@,
            Seq::<ValueKind>::empty(),
            seq![ValueKind::I32],
        ),
        r is Ok ==> module_state(*final(m)) == (ModuleModel {
            version_export: Some(name@),
            ..module_state(*old(m))
        }),
        r is Err ==> module_state(*final(m)) == module_state(*old(m)),
{
    m.fn_version = Some(m.instance.get_typed_func::<(), u32>(&mut m.store, name)?);
    Ok(())
}

/// `wasmtime::TypedFunc::<u32, u32>::call` on the bound allocator: runs it
/// with `size`; what it answers, and whether it traps, is not stated.
#[verifier::external_body]
pub(crate) fn call_alloc(m: &mut LoadedModule, size: u32) -> (r: Result<u32, wasmtime::Error>)
    requires
        module_state(*old(m)).alloc_export is Some,
    ensures
        ran_guest(
            module_state(*old(m)),
            module_state(*final(m)),
            GuestCall::Alloc { size, answered: r.ok() },
        ),
{
    m.fn_alloc.as_ref().unwrap().call(&mut m.store, size)
}

/// `wasmtime::TypedFunc::<(u32, u32), ()>::call` on the bound deallocator:
/// runs it with `(offset, size)`; whether it traps is not stated.
#[verifier::external_body]
pub(crate) fn call_dealloc(m: &mut LoadedModule, offset: u32, size: u32) -> (r: Result<
    (),
    wasmtime::Error,
>)
    requires
        module_state(*old(m)).dealloc_export is Some,
    ensures
        ran_guest(
            module_state(*old(m)),
            module_state(*final(m)),
            GuestCall::Dealloc { offset, size, completed: r is Ok },
        ),
{
    m.fn_dealloc.as_ref().unwrap().call(&mut m.store, (offset, size))
}

/// `wasmtime::TypedFunc::<(), u32>::call` on the bound version function;
/// what it answers, and whether it traps, is not stated.
#[verifier::external_body]
pub(crate) fn call_version(m: &mut LoadedModule) -> (r: Result<u32, wasmtime::Error>)
    requires
        module_state(*old(m)).version_export is Some,
    ensures
        ran_guest(
            module_state(*old(m)),
            module_state(*final(m)),
            GuestCall::Version { answered: r.ok() },
        ),
{
    m.fn_version.as_ref().unwrap().call(&mut m.store, ())
}

/// `wasmtime::Instance::get_func`: selects the function exported under
/// `name`, if there is such an export and it is a function; its signature is
/// recorded with it.
#[verifier::external_body]
pub(crate) fn select_export(m: &mut LoadedModule, name: &str) -> (found: bool)
    ensures
        found == export_signature(module_state(*old(m)).source, name@) is Some,
        found ==> module_state(*final(m)) == (ModuleModel {
            selected: Some(name@),
            selected_params: export_signature(module_state(*old(m)).source, name@).unwrap().0,
            selected_results: export_signature(module_state(*old(m)).source, name@).unwrap().1,
            ..module_state(*old(m))
        }),
        !found ==> module_state(*final(m)) == module_state(*old(m)),
{
    match m.instance.get_func(&mut m.store, name) {
        Some(f) => {
            m.selected = Some(f);
            true
        },
        None => false,
    }
}

/// `wasmtime::Func::ty` and `FuncType::params` of the selected function:
/// its parameter types, told apart as far as calls care.
#[verifier::external_body]
pub(crate) fn selected_param_kinds(m: &LoadedModule) -> (kinds: Vec<ValueKind>)
    requires
        module_state(*m).selected is Some,
    ensures
        kinds@ == module_state(*m).selected_params,
{
    m.selected.as_ref().unwrap().ty(&m.store).params().map(|t| kind_of(&t)).collect()
}

/// `wasmtime::Func::ty` and `FuncType::results` of the selected function:
/// its result types, told apart as far as calls care.
#[verifier::external_body]
pub(crate) fn selected_result_kinds(m: &LoadedModule) -> (kinds: Vec<ValueKind>)
    requires
        module_state(*m).selected is Some,
    ensures
        kinds@ == module_state(*m).selected_results,
{
    m.selected.as_ref().unwrap().ty(&m.store).results().map(|t| kind_of(&t)).collect()
}

/// `wasmtime::Func::call` on the selected function: runs it with `params`
/// and result slots holding `initial`, and hands back what the slots hold
/// after the call (the function's results). What it answers, and whether it
/// fails (a trap, or values that do not match the signature), is not stated.
#[verifier::external_body]
pub(crate) fn call_selected(m: &mut LoadedModule, params: &[NumValue], initial: &[NumValue]) -> (r:
    Result<Vec<Option<NumValue>>, wasmtime::Error>)
    requires
        module_state(*old(m)).selected is Some,
    ensures
        ran_guest(
            module_state(*old(m)),
            module_state(*final(m)),
            GuestCall::Export {
                name: module_state(*old(m)).selected.unwrap(),
                params: params@,
                results: match r {
                    Ok(v) => Some(v@),
                    Err(_) => None,
                },
            },
        ),
        r matches Ok(v) ==> v@.len() == initial@.len(),
{
    let ps: Vec<wasmtime::Val> = params.iter().map(val_of).collect();
    let mut rs: Vec<wasmtime::Val> = initial.iter().map(val_of).collect();
    m.selected.as_ref().unwrap().call(&mut m.store, &ps, &mut rs)?;
    Ok(rs.iter().map(num_of).collect())
}

/// Tells the variants of `wasmtime::ValType` apart: the four numeric types,
/// and `Other` for `v128` and references.
#[verifier::external_body]
fn kind_of(t: &wasmtime::ValType) -> ValueKind {
    match t {
        wasmtime::ValType::I32 => ValueKind::I32,
        wasmtime::ValType::I64 => ValueKind::I64,
        wasmtime::ValType::F32 => ValueKind::F32,
        wasmtime::ValType::F64 => ValueKind::F64,
        _ => ValueKind::Other,
    }
}

/// Builds the `wasmtime::Val` variant that holds `v` (float bits as bits).
#[verifier::external_body]
fn val_of(v: &NumValue) -> wasmtime::Val {
    match *v {
        NumValue::I32(x) => wasmtime::Val::I32(x),
        NumValue::I64(x) => wasmtime::Val::I64(x),
        NumValue::F32(b) => wasmtime::Val::F32(b),
        NumValue::F64(b) => wasmtime::Val::F64(b),
    }
}

/// Tells the variants of `wasmtime::Val` apart: the four numeric ones with
/// their payload, `None` for `v128` and references.
#[verifier::external_body]
fn num_of(v: &wasmtime::Val) -> Option<NumValue> {
    match v {
        wasmtime::Val::I32(x) => Some(NumValue::I32(*x)),
        wasmtime::Val::I64(x) => Some(NumValue::I64(*x)),
        wasmtime::Val::F32(b) => Some(NumValue::F32(*b)),
        wasmtime::Val::F64(b) => Some(NumValue::F64(*b)),
        _ => None,
    }
}

/// `wasmtime::Memory::write` on the bound memory: writes `data` at `offset`
/// when it fits in the memory, and fails leaving the module as it was when
/// it does not.
#[verifier::external_body]
pub(crate) fn memory_write(m: &mut LoadedModule, offset: usize, data: &[u8]) -> (r: Result<
    (),
    wasmtime::MemoryAccessError,
>)
    requires
        module_state(*old(m)).memory_export is Some,
    ensures
        r is Ok <==> offset + data@.len() <= module_state(*old(m)).memory.len(),
        r is Ok ==> module_state(*final(m)) == (ModuleModel {
            memory: splice(module_state(*old(m)).memory, offset as int, data@),
            ..module_state(*old(m))
        }),
        r is Err ==> module_state(*final(m)) == module_state(*old(m)),
{
    m.memory.as_ref().unwrap().write(&mut m.store, offset, data)
}

/// `wasmtime::Memory::data` on the bound memory: its bytes.
#[verifier::external_body]
pub(crate) fn memory_data(m: &LoadedModule) -> (r: &[u8])
    requires
        module_state(*m).memory_export is Some,
    ensures
        r@ == module_state(*m).memory,
{
    m.memory.as_ref().unwrap().data(&m.store)
}

/// `std::str::from_utf8`: the text that `bytes` holds, when it is UTF-8.
#[verifier::external_body]
pub(crate) fn text_from_utf8(bytes: &[u8]) -> (r: Option<&str>)
    ensures
        r is Some <==> utf8_text(bytes@) is Some,
        r matches Some(s) ==> utf8_text(bytes@) == Some(s@),
{
    std::str::from_utf8(bytes).ok()
}

} // verus!
