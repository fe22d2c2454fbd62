use zenwasm::codec::{CodecOp, CodecOutput, CodecSession, Reply, Request};
use zenwasm::host::{alloc_offset, check_memory_range, check_status, HostError};
use zenwasm::plugin::PluginState;
use zenwasm::types::ImageInfo;

/// A codec whose "image" is the input itself: one byte per pixel, one row.
const CODEC: &str = r#"
(module
  (memory (export "memory") 1)
  (global $next (mut i32) (i32.const 1024))
  (global $freed (mut i32) (i32.const 0))
  (func (export "wasm_alloc") (param $size i32) (result i32)
    (local $p i32)
    (local.set $p (global.get $next))
    (global.set $next (i32.add (global.get $next) (local.get $size)))
    (local.get $p))
  (func (export "wasm_dealloc") (param i32 i32)
    (global.set $freed (i32.add (global.get $freed) (i32.const 1))))
  (func (export "freed") (result i32) (global.get $freed))
  (func (export "abi_version") (result i32) (i32.const 1))
  (func (export "codec_probe") (param $data i32) (param $len i32) (param $info i32) (result i32)
    (if (i32.eqz (local.get $len)) (then (return (i32.const 7))))
    (i32.store (local.get $info) (local.get $len))
    (i32.store offset=4 (local.get $info) (i32.const 1))
    (i32.store offset=8 (local.get $info) (i32.const 1))
    (i32.store offset=12 (local.get $info) (i32.const 1))
    (i32.store offset=16 (local.get $info) (i32.const 0))
    (i32.store offset=20 (local.get $info) (i32.load8_u (local.get $data)))
    (i32.const 0))
  (func (export "codec_decode") (param $data i32) (param $len i32) (param $out i32) (result i32)
    (local $px i32)
    (local.set $px (call 0 (local.get $len)))
    (memory.copy (local.get $px) (local.get $data) (local.get $len))
    (i32.store (local.get $out) (local.get $px))
    (i32.store offset=4 (local.get $out) (local.get $len))
    (i32.store offset=8 (local.get $out) (local.get $len))
    (i32.store offset=12 (local.get $out) (i32.const 1))
    (i32.store offset=16 (local.get $out) (i32.const 1))
    (i32.const 0))
)
"#;

fn engine() -> wasmtime::Engine {
    let mut config = wasmtime::Config::new();
    config
        .memory_reservation(1 << 24)
        .memory_guard_size(1 << 16)
        .memory_reservation_for_growth(1 << 20);
    wasmtime::Engine::new(&config).unwrap()
}

/// Runs a codec session against a module in this process, answering each
/// request the way the host API answers it over the plugin boundary.
fn run(p: &mut PluginState, h: i64, op: CodecOp, data: &[u8]) -> (Result<CodecOutput, HostError>, usize) {
    let (mut session, mut request) = CodecSession::start(op, data.len());
    let mut steps = 0;
    loop {
        let reply: Result<Reply, HostError> = match request {
            Request::Alloc { size } => alloc_offset(p.allocate(h, size), size).map(Reply::Offset),
            Request::WriteInput { offset } => check_status(p.write(h, offset, data)).map(|()| Reply::Written),
            Request::Call { op, args } => match p.call(h, op.function_name().as_bytes(), &args, 1) {
                Ok(mut v) => {
                    v.resize(1, 0);
                    Ok(Reply::Results(v))
                }
                Err(e) => Err(HostError::CallFailed(e.code())),
            },
            Request::Read { offset, len } => {
                let mem = p.memory_data(h);
                let mem_len = mem.map(|m| m.len()).unwrap_or(0);
                check_memory_range(mem.is_none(), mem_len, offset, len).map(|()| {
                    let m = mem.unwrap();
                    Reply::Bytes(m[offset as usize..offset as usize + len as usize].to_vec())
                })
            }
            Request::Dealloc { offset, size } => check_status(p.dealloc(h, offset, size)).map(|()| Reply::Freed),
            Request::Finish(outcome) => return (outcome, steps),
        };
        assert!(session.accepts(&reply));
        steps += 1;
        let next = session.step(reply);
        session = next.0;
        request = next.1;
    }
}

#[test]
fn probe_reads_the_info_the_module_wrote() {
    let mut p = PluginState::new(engine());
    let h = p.load(CODEC.as_bytes());
    assert_eq!(h, 0);
    let (out, steps) = run(&mut p, h, CodecOp::Probe, &[42, 1, 2]);
    match out {
        Ok(CodecOutput::Info(info)) => assert_eq!(
            info,
            ImageInfo { width: 3, height: 1, channels: 1, color_space: 1, has_alpha: 0, has_icc: 42 }
        ),
        _ => panic!("probe failed"),
    }
    assert_eq!(steps, 7);
    // both regions that the probe allocated were freed
    assert_eq!(p.call(h, b"freed", &[], 1), Ok(vec![2]));
}

#[test]
fn probe_reports_the_codec_status() {
    let mut p = PluginState::new(engine());
    let h = p.load(CODEC.as_bytes());
    let (out, steps) = run(&mut p, h, CodecOp::Probe, &[]);
    assert!(matches!(out, Err(HostError::CallFailed(7))));
    assert_eq!(steps, 4);
    // nothing is freed after a failure
    assert_eq!(p.call(h, b"freed", &[], 1), Ok(vec![0]));
}

#[test]
fn decode_copies_the_pixels_out() {
    let mut p = PluginState::new(engine());
    let h = p.load(CODEC.as_bytes());
    let (out, steps) = run(&mut p, h, CodecOp::Decode, &[5, 6, 7, 8]);
    match out {
        Ok(CodecOutput::Image { pixels, width, height, channels }) => {
            assert_eq!(pixels, vec![5, 6, 7, 8]);
            assert_eq!((width, height, channels), (4, 1, 1));
        }
        _ => panic!("decode failed"),
    }
    assert_eq!(steps, 9);
    assert_eq!(p.call(h, b"freed", &[], 1), Ok(vec![3]));
}

#[test]
fn session_on_a_freed_module_fails_at_once() {
    let mut p = PluginState::new(engine());
    let h = p.load(CODEC.as_bytes());
    p.free(h);
    let (out, steps) = run(&mut p, h, CodecOp::Probe, &[1]);
    assert!(matches!(out, Err(HostError::AllocFailed)));
    assert_eq!(steps, 1);
}
