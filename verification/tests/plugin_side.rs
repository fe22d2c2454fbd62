use zenwasm::plugin::{check_module_version, load_error_code, load_module, LoadFailure, PluginState};
use zenwasm::types::ErrorCode;
use zenwasm::values::{call_args, initial_results, raw_results, NumValue, ValueKind};

const MODULE: &str = r#"
(module
  (memory (export "memory") 1)
  (global $next (mut i32) (i32.const 1024))
  (global $freed (mut i32) (i32.const 0))
  (func (export "wasm_alloc") (param $size i32) (result i32)
    (local $p i32)
    (local.set $p (global.get $next))
    (global.set $next (i32.add (global.get $next) (local.get $size)))
    (local.get $p))
  (func (export "wasm_dealloc") (param i32 i32)
    (global.set $freed (i32.add (global.get $freed) (local.get 1))))
  (func (export "freed") (result i32) (global.get $freed))
  (func (export "add") (param i32 i64) (result i64)
    (i64.add (i64.extend_i32_s (local.get 0)) (local.get 1)))
  (func (export "pair") (param i32 i32) (result i32 i32) (local.get 1) (local.get 0))
  (func (export "bits") (param f32 f64) (result f32 f64) (local.get 0) (local.get 1))
  (func (export "boom") unreachable)
  (func (export "grow") (result i32) (memory.grow (i32.const 1)))
  (func (export "poke") (param i32 i32) (i32.store8 (local.get 0) (local.get 1)))
)
"#;

const MODULE_V1: &str = r#"
(module
  (memory (export "memory") 1)
  (func (export "wasm_alloc") (param i32) (result i32) (i32.const 8))
  (func (export "wasm_dealloc") (param i32 i32))
  (func (export "abi_version") (result i32) (i32.const 1)))
"#;

const MODULE_V2: &str = r#"
(module
  (memory (export "memory") 1)
  (func (export "wasm_alloc") (param i32) (result i32) (i32.const 8))
  (func (export "wasm_dealloc") (param i32 i32))
  (func (export "abi_version") (result i32) (i32.const 2)))
"#;

const NO_ALLOC: &str = r#"
(module
  (memory (export "memory") 1)
  (func (export "wasm_dealloc") (param i32 i32)))
"#;

const NO_MEMORY: &str = r#"
(module
  (func (export "wasm_alloc") (param i32) (result i32) (i32.const 8))
  (func (export "wasm_dealloc") (param i32 i32)))
"#;

/// An engine whose memories reserve little address space, so that tests run
/// under tight address-space limits.
fn engine() -> wasmtime::Engine {
    let mut config = wasmtime::Config::new();
    config
        .memory_reservation(1 << 24)
        .memory_guard_size(1 << 16)
        .memory_reservation_for_growth(1 << 20);
    wasmtime::Engine::new(&config).unwrap()
}

const NO_DEALLOC: &str = r#"
(module
  (memory (export "memory") 1)
  (func (export "wasm_alloc") (param i32) (result i32) (i32.const 8))
  (func (export "wasm_dealloc") (param i64 i32)))
"#;

const WITH_IMPORT: &str = r#"
(module
  (import "env" "f" (func))
  (memory (export "memory") 1)
  (func (export "wasm_alloc") (param i32) (result i32) (i32.const 8))
  (func (export "wasm_dealloc") (param i32 i32)))
"#;

const VERSION_TRAPS: &str = r#"
(module
  (memory (export "memory") 1)
  (func (export "wasm_alloc") (param i32) (result i32) (i32.const 8))
  (func (export "wasm_dealloc") (param i32 i32))
  (func (export "abi_version") (result i32) unreachable))
"#;

const VERSION_MISTYPED: &str = r#"
(module
  (memory (export "memory") 1)
  (func (export "wasm_alloc") (param i32) (result i32) (i32.const 8))
  (func (export "wasm_dealloc") (param i32 i32))
  (func (export "abi_version") (result i64) (i64.const 2)))
"#;

const ALLOC_MISTYPED: &str = r#"
(module
  (memory (export "memory") 1)
  (func (export "wasm_alloc") (param i64) (result i32) (i32.const 8))
  (func (export "wasm_dealloc") (param i32 i32)))
"#;

fn plugin() -> PluginState {
    PluginState::new(engine())
}

#[test]
fn load_gives_handles_in_order() {
    let mut p = plugin();
    assert_eq!(p.load(MODULE.as_bytes()), 0);
    assert_eq!(p.load(MODULE.as_bytes()), 1);
    assert_eq!(p.slot_count(), 2);
}

#[test]
fn load_errors() {
    let mut p = plugin();
    assert_eq!(p.load(&[0, 0, 0, 0]), ErrorCode::InvalidModule.code() as i64);
    assert_eq!(p.load(NO_MEMORY.as_bytes()), ErrorCode::InvalidModule.code() as i64);
    assert_eq!(p.load(NO_ALLOC.as_bytes()), ErrorCode::FunctionNotFound.code() as i64);
    assert_eq!(p.load(MODULE_V2.as_bytes()), ErrorCode::AbiMismatch.code() as i64);
    assert_eq!(p.slot_count(), 0);
    assert_eq!(p.load(MODULE_V1.as_bytes()), 0);
}

#[test]
fn module_version_check() {
    assert_eq!(check_module_version(None), Ok(()));
    assert_eq!(check_module_version(Some(1)), Ok(()));
    assert_eq!(check_module_version(Some(2)), Err(ErrorCode::AbiMismatch));
}

#[test]
fn write_then_read_in_place() {
    let mut p = plugin();
    let h = p.load(MODULE.as_bytes());
    let off = p.allocate(h, 4);
    assert_eq!(off, 1024);
    assert_eq!(p.allocate(h, 4), 1028);
    assert_eq!(p.write(h, off, &[9, 8, 7, 6]), 0);
    let mem = p.memory_data(h).unwrap();
    assert_eq!(&mem[1024..1028], &[9, 8, 7, 6]);
    assert_eq!(p.memory_len(h), 65536);
}

#[test]
fn write_past_the_end_fails_and_changes_nothing() {
    let mut p = plugin();
    let h = p.load(MODULE.as_bytes());
    assert_eq!(p.write(h, 65534, &[1, 2, 3]), ErrorCode::MemoryAccessError.code());
    assert_eq!(p.memory_data(h).unwrap()[65534..], [0, 0]);
    assert_eq!(p.write(h, 65533, &[1, 2, 3]), 0);
    assert_eq!(p.memory_data(h).unwrap()[65533..], [1, 2, 3]);
}

#[test]
fn freed_handle_is_invalid_and_reused() {
    let mut p = plugin();
    let a = p.load(MODULE.as_bytes());
    let b = p.load(MODULE.as_bytes());
    p.free(a);
    assert_eq!(p.write(a, 0, &[1]), ErrorCode::InvalidHandle.code());
    assert_eq!(p.allocate(a, 4), 0);
    assert_eq!(p.dealloc(a, 0, 4), ErrorCode::InvalidHandle.code());
    assert_eq!(p.memory_len(a), 0);
    assert!(p.memory_data(a).is_none());
    assert_eq!(p.call(a, b"add", &[1, 2], 1), Err(ErrorCode::InvalidHandle));
    assert_eq!(p.memory_len(b), 65536);
    assert_eq!(p.load(MODULE.as_bytes()), a);
}

#[test]
fn unknown_handles() {
    let mut p = plugin();
    assert_eq!(p.write(-1, 0, &[1]), ErrorCode::InvalidHandle.code());
    assert_eq!(p.allocate(3, 4), 0);
    assert_eq!(p.call(0, b"x", &[], 0), Err(ErrorCode::InvalidHandle));
    p.free(-1);
    p.free(100);
    assert_eq!(p.slot_count(), 0);
}

#[test]
fn call_converts_arguments_and_results() {
    let mut p = plugin();
    let h = p.load(MODULE.as_bytes());
    assert_eq!(p.call(h, b"add", &[-5, 7], 1), Ok(vec![2]));
    // the i32 parameter takes the low 32 bits of its argument
    assert_eq!(p.call(h, b"add", &[(1i64 << 32) + 1, 1], 1), Ok(vec![2]));
    // missing arguments are zero, extra ones dropped
    assert_eq!(p.call(h, b"add", &[], 1), Ok(vec![0]));
    assert_eq!(p.call(h, b"add", &[1, 2, 3, 4], 1), Ok(vec![3]));
    // results beyond the caller's room are dropped
    assert_eq!(p.call(h, b"pair", &[1, 2], 1), Ok(vec![2]));
    assert_eq!(p.call(h, b"pair", &[1, 2], 5), Ok(vec![2, 1]));
    assert_eq!(p.call(h, b"pair", &[1, 2], 0), Ok(vec![]));
    // floats travel as their bits
    let f = 1.5f32.to_bits() as i64;
    let d = (-2.25f64).to_bits() as i64;
    assert_eq!(p.call(h, b"bits", &[f, d], 2), Ok(vec![f, d]));
}

#[test]
fn call_errors() {
    let mut p = plugin();
    let h = p.load(MODULE.as_bytes());
    assert_eq!(p.call(h, b"missing", &[], 1), Err(ErrorCode::FunctionNotFound));
    assert_eq!(p.call(h, b"memory", &[], 1), Err(ErrorCode::FunctionNotFound));
    assert_eq!(p.call(h, &[0xff, 0xfe], &[], 1), Err(ErrorCode::FunctionNotFound));
    assert_eq!(p.call(h, b"boom", &[], 1), Err(ErrorCode::CallFailed));
}

#[test]
fn calls_act_on_linear_memory() {
    let mut p = plugin();
    let h = p.load(MODULE.as_bytes());
    assert_eq!(p.call(h, b"poke", &[100, 0x1ff], 0), Ok(vec![]));
    assert_eq!(p.memory_data(h).unwrap()[100], 0xff);
}

#[test]
fn dealloc_runs_the_module_allocator() {
    let mut p = plugin();
    let h = p.load(MODULE.as_bytes());
    assert_eq!(p.dealloc(h, 1024, 16), 0);
    assert_eq!(p.dealloc(h, 2048, 4), 0);
    assert_eq!(p.call(h, b"freed", &[], 1), Ok(vec![20]));
}

#[test]
fn argument_conversion_rules() {
    let kinds = vec![ValueKind::I32, ValueKind::I64, ValueKind::F32, ValueKind::F64, ValueKind::Other];
    let v = call_args(&kinds, &[-1, -1, -1]);
    assert_eq!(
        v,
        vec![
            NumValue::I32(-1),
            NumValue::I64(-1),
            NumValue::F32(u32::MAX),
            NumValue::F64(0),
            NumValue::I32(0)
        ]
    );
    assert_eq!(
        initial_results(&kinds),
        vec![NumValue::I32(0), NumValue::I64(0), NumValue::F32(0), NumValue::F64(0), NumValue::I32(0)]
    );
}

#[test]
fn result_conversion_rules() {
    let vals = vec![
        Some(NumValue::I32(-3)),
        Some(NumValue::F32(0xffff_ffff)),
        Some(NumValue::F64(u64::MAX)),
        None,
        Some(NumValue::I64(9)),
    ];
    assert_eq!(raw_results(&vals, 10), vec![-3, 0xffff_ffff, -1, 0, 9]);
    assert_eq!(raw_results(&vals, 2), vec![-3, 0xffff_ffff]);
    assert_eq!(raw_results(&vals, 0), Vec::<i64>::new());
}

#[test]
fn load_failures_step_by_step() {
    let e = engine();
    assert_eq!(load_module(&e, &[0, 0, 0, 0]).err().map(|e| e.0), Some(LoadFailure::NotCompiled));
    assert_eq!(load_module(&e, WITH_IMPORT.as_bytes()).err().map(|e| e.0), Some(LoadFailure::NotInstantiated));
    assert_eq!(load_module(&e, NO_MEMORY.as_bytes()).err().map(|e| e.0), Some(LoadFailure::NoMemory));
    assert_eq!(load_module(&e, NO_ALLOC.as_bytes()).err().map(|e| e.0), Some(LoadFailure::NoAllocator));
    assert_eq!(load_module(&e, NO_DEALLOC.as_bytes()).err().map(|e| e.0), Some(LoadFailure::NoDeallocator));
    assert_eq!(load_module(&e, MODULE_V2.as_bytes()).err().map(|e| e.0), Some(LoadFailure::VersionMismatch(2)));
    assert!(load_module(&e, MODULE_V1.as_bytes()).is_ok());
    assert!(load_module(&e, VERSION_TRAPS.as_bytes()).is_ok());
    // failures after instantiation hand the module back; earlier ones do not
    assert!(load_module(&e, &[0, 0, 0, 0]).err().unwrap().1.is_none());
    assert!(load_module(&e, NO_ALLOC.as_bytes()).err().unwrap().1.is_some());
}

#[test]
fn load_failure_codes() {
    assert_eq!(load_error_code(LoadFailure::NotCompiled), ErrorCode::InvalidModule);
    assert_eq!(load_error_code(LoadFailure::NotInstantiated), ErrorCode::InvalidModule);
    assert_eq!(load_error_code(LoadFailure::NoMemory), ErrorCode::InvalidModule);
    assert_eq!(load_error_code(LoadFailure::NoAllocator), ErrorCode::FunctionNotFound);
    assert_eq!(load_error_code(LoadFailure::NoDeallocator), ErrorCode::FunctionNotFound);
    assert_eq!(load_error_code(LoadFailure::VersionMismatch(9)), ErrorCode::AbiMismatch);
    let mut p = plugin();
    assert_eq!(p.load(WITH_IMPORT.as_bytes()), -1);
    assert_eq!(p.load(NO_DEALLOC.as_bytes()), -4);
}

#[test]
fn memory_only_grows() {
    let mut p = plugin();
    let h = p.load(MODULE.as_bytes());
    let before = p.memory_len(h);
    p.allocate(h, 100);
    p.call(h, b"add", &[1, 2], 1).unwrap();
    p.dealloc(h, 1024, 100);
    assert!(p.memory_len(h) >= before);
    assert_eq!(p.call(h, b"grow", &[], 1), Ok(vec![1]));
    assert_eq!(p.memory_len(h), 2 * 65536);
}

#[test]
fn mistyped_exports() {
    let mut p = plugin();
    // a mistyped abi_version is no version export: nothing is checked
    assert_eq!(p.load(VERSION_MISTYPED.as_bytes()), 0);
    assert_eq!(p.load(ALLOC_MISTYPED.as_bytes()), ErrorCode::FunctionNotFound.code() as i64);
    assert_eq!(p.call(0, b"memory", &[], 1), Err(ErrorCode::FunctionNotFound));
    assert_eq!(p.call(0, b"wasm_alloc", &[5], 1), Ok(vec![8]));
}
