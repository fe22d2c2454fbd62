//! The plugin's side of the boundary: the modules it has loaded, each under a
//! handle, and what each request on a handle does and answers.
use crate::handles::{first_free, first_free_is_first_empty, freed, in_range, inserted, lookup, HandleTable};
use crate::types::{
    code_of, ErrorCode, ABI_VERSION, FN_ABI_VERSION, FN_ALLOC, FN_DEALLOC, MEMORY_EXPORT,
};
use crate::values::{args_for, call_args, initial_results, raw_results, reported, ValueKind};
use crate::wasm::{
    bind_alloc, bind_dealloc, bind_memory, bind_version, call_alloc, call_dealloc, call_selected,
    call_version, compile_module, export_signature, exports_memory, exports_typed, instantiate, memory_data, memory_write, module_state, new_store,
    ran_guest, same_bindings, select_export, selected_param_kinds, selected_result_kinds, splice,
    text_from_utf8, utf8_text, GuestCall, LoadedModule, ModuleModel,
};
use vstd::prelude::*;

verus! {

/// Whether a module has the exports every request relies on bound: its
/// memory, its allocator and its deallocator.
pub open spec fn ready(s: ModuleModel) -> bool {
    &&& s.memory_export is Some
    &&& s.alloc_export is Some
    &&& s.dealloc_export is Some
}

/// `b` keeps what `a` was loaded from and the exports bound on it, and its
/// linear memory did not shrink.
pub open spec fn same_module(a: ModuleModel, b: ModuleModel) -> bool {
    &&& b.source == a.source
    &&& b.memory_export == a.memory_export
    &&& b.alloc_export == a.alloc_export
    &&& b.dealloc_export == a.dealloc_export
    &&& b.version_export == a.version_export
    &&& b.memory.len() >= a.memory.len()
}

/// Whether `s` is a module loaded from `bytes`: its memory, allocator and
/// deallocator are the exports `memory`, `wasm_alloc` and `wasm_dealloc`,
/// and the only call into its code was `abi_version`, once, when it exports
/// one, answering the host's version or trapping.
pub open spec fn loaded_from(s: ModuleModel, bytes: Seq<u8>) -> bool {
    &&& s.source == bytes
    &&& s.memory_export == Some(MEMORY_EXPORT@)
    &&& s.alloc_export == Some(FN_ALLOC@)
    &&& s.dealloc_export == Some(FN_DEALLOC@)
    &&& s.selected is None
    &&& match s.version_export {
        None => s.calls == Seq::<GuestCall>::empty(),
        Some(name) => name == FN_ABI_VERSION@ && s.calls.len() == 1 && match s.calls[0] {
            GuestCall::Version { answered } => answered is None || answered == Some(ABI_VERSION),
            _ => false,
        },
    }
}

/// Whether the module compiled from `src` exports `wasm_alloc: (i32) -> i32`.
pub open spec fn has_allocator(src: Seq<u8>) -> bool {
    exports_typed(src, FN_ALLOC@, seq![ValueKind::I32], seq![ValueKind::I32])
}

/// Whether the module compiled from `src` exports `wasm_dealloc: (i32, i32) -> ()`.
pub open spec fn has_deallocator(src: Seq<u8>) -> bool {
    exports_typed(src, FN_DEALLOC@, seq![ValueKind::I32, ValueKind::I32], Seq::<ValueKind>::empty())
}

/// Whether the module compiled from `src` exports `abi_version: () -> i32`.
pub open spec fn has_version(src: Seq<u8>) -> bool {
    exports_typed(src, FN_ABI_VERSION@, Seq::<ValueKind>::empty(), seq![ValueKind::I32])
}

/// Whether the module compiled from `src` follows the module convention: it
/// exports its memory as `memory`, and its allocator and deallocator.
pub open spec fn follows_convention(src: Seq<u8>) -> bool {
    &&& exports_memory(src, MEMORY_EXPORT@)
    &&& has_allocator(src)
    &&& has_deallocator(src)
}

/// Why a module could not be loaded, step by step in the order they are
/// taken.
#[derive(Clone, Copy, Debug, PartialEq, Eq, Structural)]
pub enum LoadFailure {
    /// The bytes do not compile as a WASM module.
    NotCompiled,
    /// Instantiating it with no imports failed (it has imports, its start
    /// function trapped, or a resource limit was hit).
    NotInstantiated,
    /// It exports no memory named `memory`.
    NoMemory,
    /// It exports no `wasm_alloc` of type `(i32) -> i32`.
    NoAllocator,
    /// It exports no `wasm_dealloc` of type `(i32, i32) -> ()`.
    NoDeallocator,
    /// Its `abi_version` answered another version than the host's.
    VersionMismatch(u32),
}

/// Whether `f` is one of the first two steps, compiling and instantiating,
/// which wasmtime decides on more than the module's exports.
pub open spec fn failed_early(f: LoadFailure) -> bool {
    f is NotCompiled || f is NotInstantiated
}

/// What a load failure tells of the module compiled from `src`: each later
/// step fails only when the steps before it passed.
pub open spec fn failure_explained(f: LoadFailure, src: Seq<u8>) -> bool {
    match f {
        LoadFailure::NotCompiled => true,
        LoadFailure::NotInstantiated => true,
        LoadFailure::NoMemory => !exports_memory(src, MEMORY_EXPORT@),
        LoadFailure::NoAllocator => exports_memory(src, MEMORY_EXPORT@) && !has_allocator(src),
        LoadFailure::NoDeallocator => exports_memory(src, MEMORY_EXPORT@) && has_allocator(src)
            && !has_deallocator(src),
        LoadFailure::VersionMismatch(v) => follows_convention(src) && has_version(src) && v
            != ABI_VERSION,
    }
}

/// The status code that answers each load failure: the module is invalid
/// when it does not compile, instantiate or export its memory; its allocator
/// exports are missing functions; its version does not match.
pub open spec fn failure_code(f: LoadFailure) -> ErrorCode {
    match f {
        LoadFailure::NotCompiled => ErrorCode::InvalidModule,
        LoadFailure::NotInstantiated => ErrorCode::InvalidModule,
        LoadFailure::NoMemory => ErrorCode::InvalidModule,
        LoadFailure::NoAllocator => ErrorCode::FunctionNotFound,
        LoadFailure::NoDeallocator => ErrorCode::FunctionNotFound,
        LoadFailure::VersionMismatch(_) => ErrorCode::AbiMismatch,
    }
}

/// The status code that answers a load failure (see [`failure_code`]).
pub fn load_error_code(f: LoadFailure) -> (e: ErrorCode)
    ensures
        e == failure_code(f),
{
    match f {
        LoadFailure::NotCompiled => ErrorCode::InvalidModule,
        LoadFailure::NotInstantiated => ErrorCode::InvalidModule,
        LoadFailure::NoMemory => ErrorCode::InvalidModule,
        LoadFailure::NoAllocator => ErrorCode::FunctionNotFound,
        LoadFailure::NoDeallocator => ErrorCode::FunctionNotFound,
        LoadFailure::VersionMismatch(_) => ErrorCode::AbiMismatch,
    }
}

/// Whether a module that reports the boundary version `reported` (`None`:
/// it exports no working `abi_version`) may be loaded.
pub fn check_module_version(reported: Option<u32>) -> (r: Result<(), ErrorCode>)
    ensures
        r is Ok <==> (reported is None || reported == Some(ABI_VERSION)),
        r matches Err(e) ==> e == ErrorCode::AbiMismatch,
{
    match reported {
        Some(v) => {
            if v != ABI_VERSION {
                Err(ErrorCode::AbiMismatch)
            } else {
                Ok(())
            }
        },
        None => Ok(()),
    }
}

/// Whether `s` is a module just instantiated: nothing bound, nothing called.
pub open spec fn fresh(s: ModuleModel) -> bool {
    &&& s.memory_export is None
    &&& s.alloc_export is None
    &&& s.dealloc_export is None
    &&& s.version_export is None
    &&& s.selected is None
    &&& s.calls == Seq::<GuestCall>::empty()
}

/// What the module's `abi_version` answered when it was checked: `None`
/// when it was not called or trapped.
pub open spec fn answered_version(s: ModuleModel) -> Option<u32> {
    if s.calls.len() > 0 {
        match s.calls[0] {
            GuestCall::Version { answered } => answered,
            _ => None,
        }
    } else {
        None
    }
}

/// Whether the version check lets the module in: `abi_version` was not
/// called, trapped, or answered the host's version.
pub open spec fn version_accepted(s: ModuleModel) -> bool {
    answered_version(s) is None || answered_version(s) == Some(ABI_VERSION)
}

/// What binding the exports of a module compiled from `src` left in its
/// state `s`, ending with `failure` (`None`: the module is ready):
/// - it fails exactly when the module does not follow the convention or its
///   `abi_version` answered another version than the host's;
/// - each failure names the first step that failed, and a version mismatch
///   carries what `abi_version` answered;
/// - `abi_version` was called once exactly when the module follows the
///   convention and exports `abi_version: () -> i32`; no other code ran.
pub open spec fn bind_outcome(src: Seq<u8>, s: ModuleModel, failure: Option<LoadFailure>) -> bool {
    &&& s.source == src
    &&& s.selected is None
    &&& (failure is None <==> follows_convention(src) && version_accepted(s))
    &&& failure matches Some(f) ==> !failed_early(f) && failure_explained(f, src)
    &&& failure matches Some(LoadFailure::VersionMismatch(v)) ==> answered_version(s) == Some(v)
    &&& follows_convention(src) ==> (s.version_export is Some <==> has_version(src))
    &&& (follows_convention(src) && has_version(src)) ==> (s.calls.len() == 1
        && s.calls[0] is Version)
    &&& !(follows_convention(src) && has_version(src)) ==> s.calls.len() == 0
    &&& failure is None ==> loaded_from(s, src)
}

/// Binds the `memory`, `wasm_alloc` and `wasm_dealloc` exports of a module
/// just instantiated, and checks the boundary version it reports through
/// `abi_version`, if it exports one. The first step that fails ends the
/// binding; the module is handed back with the failure.
pub fn bind_exports(m: LoadedModule) -> (r: Result<LoadedModule, (LoadFailure, LoadedModule)>)
    requires
        fresh(module_state(m)),
    ensures
        r matches Ok(b) ==> bind_outcome(module_state(m).source, module_state(b), None),
        r matches Err((f, b)) ==> bind_outcome(module_state(m).source, module_state(b), Some(f)),
{
    let mut m = m;
    if !bind_memory(&mut m, MEMORY_EXPORT) {
        return Err((LoadFailure::NoMemory, m));
    }
    match bind_alloc(&mut m, FN_ALLOC) {
        Ok(()) => {},
        Err(_) => return Err((LoadFailure::NoAllocator, m)),
    }
    match bind_dealloc(&mut m, FN_DEALLOC) {
        Ok(()) => {},
        Err(_) => return Err((LoadFailure::NoDeallocator, m)),
    }
    let reported = match bind_version(&mut m, FN_ABI_VERSION) {
        Ok(()) => match call_version(&mut m) {
            Ok(v) => Some(v),
            Err(_) => None,
        },
        Err(_) => None,
    };
    proof {
        if module_state(m).version_export is Some {
            assert(module_state(m).calls =~= seq![GuestCall::Version { answered: reported }]);
        }
    }
    match (check_module_version(reported), reported) {
        (Err(_), Some(v)) => return Err((LoadFailure::VersionMismatch(v), m)),
        _ => {},
    }
    Ok(m)
}

/// Compiles `bytes`, instantiates the module with no imports, and binds its
/// exports (see [`bind_exports`]). A failure to compile or instantiate comes
/// with no module; a later failure comes with the module as binding left it.
pub fn load_module(engine: &wasmtime::Engine, bytes: &[u8]) -> (r: Result<
    LoadedModule,
    (LoadFailure, Option<LoadedModule>),
>)
    ensures
        r matches Ok(m) ==> bind_outcome(bytes@, module_state(m), None),
        r matches Err((f, None)) ==> failed_early(f),
        r matches Err((f, Some(m))) ==> bind_outcome(bytes@, module_state(m), Some(f)),
{
    let module = match compile_module(engine, bytes) {
        Ok(module) => module,
        Err(_) => return Err((LoadFailure::NotCompiled, None)),
    };
    let m = match instantiate(new_store(engine), &module) {
        Ok(m) => m,
        Err(_) => return Err((LoadFailure::NotInstantiated, None)),
    };
    match bind_exports(m) {
        Ok(m) => Ok(m),
        Err((f, m)) => Err((f, Some(m))),
    }
}

/// What a call of `wasm_alloc(size)` left behind: the offset it answered,
/// or 0 when it trapped.
pub open spec fn alloc_logged(a: ModuleModel, b: ModuleModel, size: u32, offset: u32) -> bool {
    ||| ran_guest(a, b, GuestCall::Alloc { size, answered: Some(offset) })
    ||| offset == 0 && ran_guest(a, b, GuestCall::Alloc { size, answered: None })
}

/// What a call of the export `name` with the raw arguments `args`, for a
/// caller with room for `n_results` values, left behind and answered: when
/// there is no such exported function, nothing ran and the answer is
/// `FunctionNotFound`; otherwise the function was called once with the
/// arguments converted to its parameter types, and the answer is its results
/// as `i64`s, or `CallFailed` when the call failed.
pub open spec fn call_answered(
    a: ModuleModel,
    b: ModuleModel,
    name: Seq<char>,
    args: Seq<i64>,
    n_results: u32,
    r: Result<Vec<i64>, ErrorCode>,
) -> bool {
    ||| r == Err::<Vec<i64>, ErrorCode>(ErrorCode::FunctionNotFound) && b == a && export_signature(
        a.source,
        name,
    ) is None
    ||| {
        &&& export_signature(a.source, name) is Some
        &&& b.selected_params == export_signature(a.source, name).unwrap().0
        &&& same_module(a, b)
        &&& b.selected == Some(name)
        &&& b.calls.len() == a.calls.len() + 1
        &&& b.calls.drop_last() == a.calls
        &&& match b.calls.last() {
            GuestCall::Export { name: called, params, results } => {
                &&& called == name
                &&& params == args_for(b.selected_params, args)
                &&& match results {
                    None => r == Err::<Vec<i64>, ErrorCode>(ErrorCode::CallFailed),
                    Some(vals) => match r {
                        Ok(v) => v@ == reported(vals, n_results),
                        Err(_) => false,
                    },
                }
            },
            _ => false,
        }
    }
}

fn alloc_on(m: &mut LoadedModule, size: u32) -> (offset: u32)
    requires
        ready(module_state(*old(m))),
    ensures
        alloc_logged(module_state(*old(m)), module_state(*final(m)), size, offset),
{
    match call_alloc(m, size) {
        Ok(v) => v,
        Err(_) => 0,
    }
}

fn dealloc_on(m: &mut LoadedModule, offset: u32, size: u32) -> (rc: i32)
    requires
        ready(module_state(*old(m))),
    ensures
        ran_guest(
            module_state(*old(m)),
            module_state(*final(m)),
            GuestCall::Dealloc { offset, size, completed: rc == code_of(ErrorCode::Success) },
        ),
        rc == code_of(ErrorCode::Success) || rc == code_of(ErrorCode::CallFailed),
{
    match call_dealloc(m, offset, size) {
        Ok(()) => ErrorCode::Success.code(),
        Err(_) => ErrorCode::CallFailed.code(),
    }
}

fn call_on(m: &mut LoadedModule, name: &str, args: &[i64], n_results: u32) -> (r: Result<
    Vec<i64>,
    ErrorCode,
>)
    requires
        ready(module_state(*old(m))),
    ensures
        call_answered(module_state(*old(m)), module_state(*final(m)), name@, args@, n_results, r),
{
    if !select_export(m, name) {
        return Err(ErrorCode::FunctionNotFound);
    }
    let param_kinds = selected_param_kinds(m);
    let result_kinds = selected_result_kinds(m);
    let params = call_args(&param_kinds, args);
    let initial = initial_results(&result_kinds);
    let answer = call_selected(m, params.as_slice(), initial.as_slice());
    proof {
        assert(module_state(*m).calls.drop_last() =~= module_state(*old(m)).calls);
    }
    match answer {
        Ok(vals) => Ok(raw_results(&vals, n_results)),
        Err(_) => Err(ErrorCode::CallFailed),
    }
}

/// `new` is `old` with the module under `handle` replaced by one that is
/// still loaded; every other slot is as it was.
pub open spec fn only_module_changed(
    old: Seq<Option<LoadedModule>>,
    new: Seq<Option<LoadedModule>>,
    handle: i64,
) -> bool {
    &&& in_range(old, handle)
    &&& new[handle as int] is Some
    &&& new == old.update(handle as int, new[handle as int])
}

/// The linear memory of the module under `handle` in the slots `s`.
pub open spec fn memory_of(s: Seq<Option<LoadedModule>>, handle: i64) -> Option<Seq<u8>> {
    match lookup(s, handle) {
        Some(m) => Some(module_state(m).memory),
        None => None,
    }
}

/// Whether every module in the slots `s` is ready for requests.
pub open spec fn all_ready(s: Seq<Option<LoadedModule>>) -> bool {
    forall|i: int| 0 <= i < s.len() && (#[trigger] s[i]) is Some ==> ready(module_state(s[i].unwrap()))
}

proof fn all_ready_after_update(s: Seq<Option<LoadedModule>>, i: int, x: Option<LoadedModule>)
    requires
        all_ready(s),
        0 <= i < s.len(),
        x matches Some(m) ==> ready(module_state(m)),
    ensures
        all_ready(s.update(i, x)),
{
    assert forall|j: int| 0 <= j < s.update(i, x).len() && (#[trigger] s.update(i, x)[j]) is Some
        implies ready(module_state(s.update(i, x)[j].unwrap())) by {
        if j != i {
            assert(s.update(i, x)[j] == s[j]);
        }
    }
}

proof fn all_ready_after_insert(s: Seq<Option<LoadedModule>>, m: LoadedModule)
    requires
        all_ready(s),
        ready(module_state(m)),
    ensures
        all_ready(inserted(s, m)),
{
    first_free_is_first_empty(s);
    if first_free(s) < s.len() {
        all_ready_after_update(s, first_free(s), Some(m));
    } else {
        let t = inserted(s, m);
        assert forall|j: int| 0 <= j < t.len() && (#[trigger] t[j]) is Some implies ready(
            module_state(t[j].unwrap()),
        ) by {
            if j < s.len() {
                assert(t[j] == s[j]);
            }
        }
    }
}

proof fn freed_keeps_slots<T>(s: Seq<Option<T>>, handle: i64)
    requires
        lookup(s, handle) is None,
    ensures
        freed(s, handle) == s,
{
    if in_range(s, handle) {
        assert(freed(s, handle) =~= s);
    }
}

/// What a load attempt did: the bytes it was given, how it failed (if it
/// did), and the state its module was left in once instantiated (none when
/// compiling or instantiating failed).
pub struct LoadAttempt {
    pub bytes: Seq<u8>,
    pub failure: Option<LoadFailure>,
    pub module: Option<ModuleModel>,
}

/// Whether the module state `s` shows `abi_version` answering a version
/// other than the host's.
pub open spec fn version_refused(s: Option<ModuleModel>) -> bool {
    match s {
        Some(state) => match answered_version(state) {
            Some(v) => v != ABI_VERSION,
            None => false,
        },
        None => false,
    }
}

/// What a load attempt tells: a failure to compile or instantiate leaves no
/// module; otherwise the binding ended as [`bind_outcome`] says.
pub open spec fn attempt_explained(a: LoadAttempt) -> bool {
    match a.module {
        None => a.failure matches Some(f) && failed_early(f),
        Some(s) => bind_outcome(a.bytes, s, a.failure),
    }
}

/// The plugin's state: the engine that compiles modules, the table of
/// loaded modules, each ready for requests, and (as ghost state) what the
/// last load attempt did.
pub struct PluginState {
    engine: wasmtime::Engine,
    modules: HandleTable<LoadedModule>,
    last_load: Ghost<Option<LoadAttempt>>,
}

impl PluginState {
    /// The slots of the module table.
    pub closed spec fn slots(self) -> Seq<Option<LoadedModule>> {
        self.modules@
    }

    /// What the last load attempt did, if there was one.
    pub closed spec fn last_load(self) -> Option<LoadAttempt> {
        self.last_load@
    }

    /// Every loaded module has its memory and allocator exports bound.
    #[verifier::type_invariant]
    closed spec fn modules_ready(self) -> bool {
        all_ready(self.modules@)
    }

    /// A plugin with no modules loaded, compiling modules with `engine` (the
    /// plugin's C ABI passes wasmtime's default engine).
    pub fn new(engine: wasmtime::Engine) -> (p: PluginState)
        ensures
            p.slots() == Seq::<Option<LoadedModule>>::empty(),
    {
        PluginState { engine, modules: HandleTable::new(), last_load: Ghost(None) }
    }

    /// The number of slots in the module table, taken or empty.
    pub fn slot_count(&self) -> (n: usize)
        ensures
            n == self.slots().len(),
    {
        self.modules.slot_count()
    }

    /// Loads a module from `bytes`: a handle (the first empty slot) when it
    /// loads, the negative code of why it did not otherwise (see
    /// [`load_module`] and [`failure_code`]).
    pub fn load(&mut self, bytes: &[u8]) -> (h: i64)
        requires
            old(self).slots().len() < i64::MAX,
        ensures
            final(self).last_load() matches Some(a) && a.bytes == bytes@ && attempt_explained(a)
                && (a.failure is None <==> h >= 0) && (a.failure matches Some(f) ==> h == code_of(
                failure_code(f),
            )),
            h >= 0 ==> h == first_free(old(self).slots()) && (lookup(final(self).slots(), h) matches Some(m)
                && final(self).slots() == inserted(old(self).slots(), m) && final(self).last_load().unwrap().module == Some(module_state(m)) && loaded_from(
                module_state(m),
                bytes@,
            )),
            h < 0 ==> final(self).slots() == old(self).slots() && (h == code_of(
                ErrorCode::InvalidModule,
            ) || h == code_of(ErrorCode::FunctionNotFound) || h == code_of(
                ErrorCode::AbiMismatch,
            )),
            h >= 0 ==> follows_convention(bytes@),
            !exports_memory(bytes@, MEMORY_EXPORT@) ==> h == code_of(ErrorCode::InvalidModule),
            exports_memory(bytes@, MEMORY_EXPORT@) && !follows_convention(bytes@) ==> (h == code_of(
                ErrorCode::InvalidModule,
            ) || h == code_of(ErrorCode::FunctionNotFound)),
            h == code_of(ErrorCode::FunctionNotFound) ==> exports_memory(bytes@, MEMORY_EXPORT@)
                && !follows_convention(bytes@),
            h == code_of(ErrorCode::AbiMismatch) ==> follows_convention(bytes@) && has_version(bytes@)
                && version_refused(final(self).last_load().unwrap().module),
    {
        proof {
            use_type_invariant(&*self);
        }
        match load_module(&self.engine, bytes) {
            Ok(m) => {
                let ghost attempt = LoadAttempt {
                    bytes: bytes@,
                    failure: None,
                    module: Some(module_state(m)),
                };
                let mut table = HandleTable::new();
                std::mem::swap(&mut table, &mut self.modules);
                proof {
                    all_ready_after_insert(table@, m);
                }
                let h = table.insert(m);
                self.modules = table;
                self.last_load = Ghost(Some(attempt));
                h
            },
            Err((f, module)) => {
                let ghost attempt = LoadAttempt {
                    bytes: bytes@,
                    failure: Some(f),
                    module: match module {
                        Some(m) => Some(module_state(m)),
                        None => None,
                    },
                };
                self.last_load = Ghost(Some(attempt));
                load_error_code(f).code() as i64
            },
        }
    }

    /// Runs the module's allocator `wasm_alloc(size)`: the offset it
    /// answered, or 0 when there is no such module or the allocator trapped.
    pub fn allocate(&mut self, handle: i64, size: u32) -> (offset: u32)
        ensures
            lookup(old(self).slots(), handle) is None ==> offset == 0 && final(self).slots() == old(
                self,
            ).slots(),
            lookup(old(self).slots(), handle) matches Some(m) ==> only_module_changed(
                old(self).slots(),
                final(self).slots(),
                handle,
            ) && alloc_logged(
                module_state(m),
                module_state(final(self).slots()[handle as int].unwrap()),
                size,
                offset,
            ),
    {
        proof {
            use_type_invariant(&*self);
        }
        let mut table = HandleTable::new();
        std::mem::swap(&mut table, &mut self.modules);
        let ghost before = table@;
        let offset = match table.take(handle) {
            Some(mut m) => {
                let o = alloc_on(&mut m, size);
                table.restore(handle, m);
                proof {
                    all_ready_after_update(before, handle as int, Some(m));
                    assert(table@ =~= before.update(handle as int, table@[handle as int]));
                }
                o
            },
            None => {
                proof {
                    freed_keeps_slots(before, handle);
                }
                0
            },
        };
        self.modules = table;
        offset
    }

    /// Writes `data` into the module's linear memory at `offset`.
    pub fn write(&mut self, handle: i64, offset: u32, data: &[u8]) -> (rc: i32)
        ensures
            lookup(old(self).slots(), handle) is None ==> rc == code_of(ErrorCode::InvalidHandle)
                && final(self).slots() == old(self).slots(),
            lookup(old(self).slots(), handle) matches Some(m) ==> {
                let s = module_state(m);
                let s2 = module_state(final(self).slots()[handle as int].unwrap());
                &&& only_module_changed(old(self).slots(), final(self).slots(), handle)
                &&& offset + data@.len() <= s.memory.len() ==> rc == code_of(ErrorCode::Success)
                    && s2 == (ModuleModel { memory: splice(s.memory, offset as int, data@), ..s })
                &&& offset + data@.len() > s.memory.len() ==> rc == code_of(
                    ErrorCode::MemoryAccessError,
                ) && s2 == s
            },
    {
        proof {
            use_type_invariant(&*self);
        }
        let mut table = HandleTable::new();
        std::mem::swap(&mut table, &mut self.modules);
        let ghost before = table@;
        let rc = match table.take(handle) {
            Some(mut m) => {
                let written = memory_write(&mut m, offset as usize, data);
                table.restore(handle, m);
                proof {
                    all_ready_after_update(before, handle as int, Some(m));
                    assert(table@ =~= before.update(handle as int, table@[handle as int]));
                }
                match written {
                    Ok(()) => ErrorCode::Success.code(),
                    Err(_) => ErrorCode::MemoryAccessError.code(),
                }
            },
            None => {
                proof {
                    freed_keeps_slots(before, handle);
                }
                ErrorCode::InvalidHandle.code()
            },
        };
        self.modules = table;
        rc
    }

    /// The bytes of the module's linear memory, for reading in place.
    pub fn memory_data(&self, handle: i64) -> (r: Option<&[u8]>)
        ensures
            r is Some <==> memory_of(self.slots(), handle) is Some,
            r matches Some(bytes) ==> memory_of(self.slots(), handle) == Some(bytes@),
    {
        proof {
            use_type_invariant(self);
        }
        match self.modules.get(handle) {
            Some(m) => Some(memory_data(m)),
            None => None,
        }
    }

    /// The size in bytes of the module's linear memory, or 0 when there is
    /// no such module.
    pub fn memory_len(&self, handle: i64) -> (n: usize)
        ensures
            memory_of(self.slots(), handle) matches Some(mem) ==> n == mem.len(),
            memory_of(self.slots(), handle) is None ==> n == 0,
    {
        match self.memory_data(handle) {
            Some(bytes) => bytes.len(),
            None => 0,
        }
    }

    /// Calls the module's export `name` (UTF-8 bytes) with the raw arguments
    /// `args`, and answers at most `n_results` of its results as `i64`s.
    pub fn call(&mut self, handle: i64, name: &[u8], args: &[i64], n_results: u32) -> (r: Result<
        Vec<i64>,
        ErrorCode,
    >)
        ensures
            utf8_text(name@) is None ==> r == Err::<Vec<i64>, ErrorCode>(
                ErrorCode::FunctionNotFound,
            ) && final(self).slots() == old(self).slots(),
            utf8_text(name@) is Some && lookup(old(self).slots(), handle) is None ==> r == Err::<
                Vec<i64>,
                ErrorCode,
            >(ErrorCode::InvalidHandle) && final(self).slots() == old(self).slots(),
            utf8_text(name@) matches Some(text) ==> (lookup(old(self).slots(), handle) matches Some(m)
                ==> (r == Err::<Vec<i64>, ErrorCode>(ErrorCode::FunctionNotFound) <==> export_signature(
                module_state(m).source,
                text,
            ) is None)),
            utf8_text(name@) matches Some(text) ==> (lookup(old(self).slots(), handle) matches Some(m)
                ==> only_module_changed(old(self).slots(), final(self).slots(), handle)
                && call_answered(
                module_state(m),
                module_state(final(self).slots()[handle as int].unwrap()),
                text,
                args@,
                n_results,
                r,
            )),
    {
        proof {
            use_type_invariant(&*self);
        }
        let text = match text_from_utf8(name) {
            Some(t) => t,
            None => return Err(ErrorCode::FunctionNotFound),
        };
        let mut table = HandleTable::new();
        std::mem::swap(&mut table, &mut self.modules);
        let ghost before = table@;
        let r = match table.take(handle) {
            Some(mut m) => {
                let r = call_on(&mut m, text, args, n_results);
                table.restore(handle, m);
                proof {
                    all_ready_after_update(before, handle as int, Some(m));
                    assert(table@ =~= before.update(handle as int, table@[handle as int]));
                }
                r
            },
            None => {
                proof {
                    freed_keeps_slots(before, handle);
                }
                Err(ErrorCode::InvalidHandle)
            },
        };
        self.modules = table;
        r
    }

    /// Runs the module's `wasm_dealloc(offset, size)`: 0 when it returned,
    /// `CallFailed` when it trapped.
    pub fn dealloc(&mut self, handle: i64, offset: u32, size: u32) -> (rc: i32)
        ensures
            lookup(old(self).slots(), handle) is None ==> rc == code_of(ErrorCode::InvalidHandle)
                && final(self).slots() == old(self).slots(),
            lookup(old(self).slots(), handle) matches Some(m) ==> only_module_changed(
                old(self).slots(),
                final(self).slots(),
                handle,
            ) && ran_guest(
                module_state(m),
                module_state(final(self).slots()[handle as int].unwrap()),
                GuestCall::Dealloc { offset, size, completed: rc == code_of(ErrorCode::Success) },
            ) && (rc == code_of(ErrorCode::Success) || rc == code_of(ErrorCode::CallFailed)),
    {
        proof {
            use_type_invariant(&*self);
        }
        let mut table = HandleTable::new();
        std::mem::swap(&mut table, &mut self.modules);
        let ghost before = table@;
        let rc = match table.take(handle) {
            Some(mut m) => {
                let rc = dealloc_on(&mut m, offset, size);
                table.restore(handle, m);
                proof {
                    all_ready_after_update(before, handle as int, Some(m));
                    assert(table@ =~= before.update(handle as int, table@[handle as int]));
                }
                rc
            },
            None => {
                proof {
                    freed_keeps_slots(before, handle);
                }
                ErrorCode::InvalidHandle.code()
            },
        };
        self.modules = table;
        rc
    }

    /// Unloads the module under `handle`; its slot becomes free for the next
    /// load. Nothing happens for a handle out of range.
    pub fn free(&mut self, handle: i64)
        ensures
            final(self).slots() == freed(old(self).slots(), handle),
    {
        proof {
            use_type_invariant(&*self);
        }
        let mut table = HandleTable::new();
        std::mem::swap(&mut table, &mut self.modules);
        proof {
            if in_range(table@, handle) {
                all_ready_after_update(table@, handle as int, None);
            }
        }
        table.free(handle);
        self.modules = table;
    }
}

/// No request shrinks a module's linear memory: an allocation, a call of an
/// export or of the deallocator leaves it at least as long as it was (WASM
/// memories only grow), and a write keeps its length.
pub proof fn memory_never_shrinks(
    a: ModuleModel,
    b: ModuleModel,
    size: u32,
    offset: u32,
    name: Seq<char>,
    args: Seq<i64>,
    n_results: u32,
    r: Result<Vec<i64>, ErrorCode>,
    completed: bool,
)
    requires
        alloc_logged(a, b, size, offset) || call_answered(a, b, name, args, n_results, r)
            || ran_guest(a, b, GuestCall::Dealloc { offset, size, completed }),
    ensures
        b.memory.len() >= a.memory.len(),
{
}

/// What a successful write leaves in a memory: the written bytes read back
/// at their offset, every other byte as it was, and the size unchanged.
pub proof fn written_bytes_read_back(mem: Seq<u8>, offset: int, data: Seq<u8>)
    requires
        0 <= offset,
        offset + data.len() <= mem.len(),
    ensures
        splice(mem, offset, data).len() == mem.len(),
        splice(mem, offset, data).subrange(offset, offset + data.len()) == data,
        forall|i: int|
            0 <= i < mem.len() && !(offset <= i < offset + data.len()) ==> #[trigger] splice(
                mem,
                offset,
                data,
            )[i] == mem[i],
{
    assert(splice(mem, offset, data).subrange(offset, offset + data.len()) =~= data);
}

} // verus!
