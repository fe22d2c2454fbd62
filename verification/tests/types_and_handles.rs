use zenwasm::handles::HandleTable;
use zenwasm::types::{
    DecodeOutput, EncodeOutput, ErrorCode, ImageInfo, WasmBuffer, ABI_VERSION,
    DECODE_OUTPUT_SIZE, ENCODE_OUTPUT_SIZE, FN_ABI_VERSION, FN_ALLOC, FN_CODEC_DECODE,
    FN_CODEC_ENCODE, FN_CODEC_PROBE, FN_DEALLOC, FN_FILTER_PROCESS, IMAGE_INFO_SIZE,
    WASM_BUFFER_SIZE,
};

fn le(words: &[u32]) -> Vec<u8> {
    words.iter().flat_map(|w| w.to_le_bytes()).collect()
}

#[test]
fn export_names_and_version() {
    assert_eq!(ABI_VERSION, 1);
    assert_eq!(FN_ALLOC, "wasm_alloc");
    assert_eq!(FN_DEALLOC, "wasm_dealloc");
    assert_eq!(FN_ABI_VERSION, "abi_version");
    assert_eq!(FN_CODEC_PROBE, "codec_probe");
    assert_eq!(FN_CODEC_DECODE, "codec_decode");
    assert_eq!(FN_CODEC_ENCODE, "codec_encode");
    assert_eq!(FN_FILTER_PROCESS, "filter_process");
}

#[test]
fn descriptor_sizes_match_repr_c() {
    assert_eq!(IMAGE_INFO_SIZE as usize, 6 * 4);
    assert_eq!(WASM_BUFFER_SIZE as usize, 2 * 4);
    assert_eq!(DECODE_OUTPUT_SIZE as usize, 5 * 4);
    assert_eq!(ENCODE_OUTPUT_SIZE as usize, 2 * 4);
}

#[test]
fn error_code_numbers() {
    let all = [
        (ErrorCode::Success, 0),
        (ErrorCode::InvalidModule, -1),
        (ErrorCode::InvalidHandle, -2),
        (ErrorCode::MemoryAccessError, -3),
        (ErrorCode::FunctionNotFound, -4),
        (ErrorCode::CallFailed, -5),
        (ErrorCode::AllocFailed, -6),
        (ErrorCode::AbiMismatch, -7),
    ];
    for (e, c) in all {
        assert_eq!(e.code(), c);
        assert_eq!(ErrorCode::from_code(c), Some(e));
    }
    assert_eq!(ErrorCode::from_code(1), None);
    assert_eq!(ErrorCode::from_code(-8), None);
}

#[test]
fn image_info_from_little_endian_bytes() {
    let bytes = le(&[640, 480, 4, 1, 1, 0]);
    let info = ImageInfo::from_bytes(&bytes).unwrap();
    assert_eq!(
        info,
        ImageInfo { width: 640, height: 480, channels: 4, color_space: 1, has_alpha: 1, has_icc: 0 }
    );
    let mut odd = vec![0u8; 24];
    odd[0] = 0x78;
    odd[1] = 0x56;
    odd[2] = 0x34;
    odd[3] = 0x12;
    odd[23] = 0xff;
    let info = ImageInfo::from_bytes(&odd).unwrap();
    assert_eq!(info.width, 0x1234_5678);
    assert_eq!(info.has_icc, 0xff00_0000);
}

#[test]
fn descriptor_of_wrong_size_is_refused() {
    assert_eq!(ImageInfo::from_bytes(&[0u8; 23]), None);
    assert_eq!(ImageInfo::from_bytes(&[0u8; 25]), None);
    assert_eq!(DecodeOutput::from_bytes(&[0u8; 24]), None);
    assert_eq!(WasmBuffer::from_bytes(&[0u8; 7]), None);
    assert_eq!(EncodeOutput::from_bytes(&[]), None);
}

#[test]
fn decode_output_and_buffers_from_bytes() {
    let bytes = le(&[4096, 12, 2, 3, 2]);
    let d = DecodeOutput::from_bytes(&bytes).unwrap();
    assert_eq!(d.pixels, WasmBuffer { offset: 4096, len: 12 });
    assert_eq!((d.width, d.height, d.channels), (2, 3, 2));
    assert_eq!(
        WasmBuffer::from_bytes(&le(&[8, 9])),
        Some(WasmBuffer { offset: 8, len: 9 })
    );
    assert_eq!(
        EncodeOutput::from_bytes(&le(&[u32::MAX, 1])),
        Some(EncodeOutput { data: WasmBuffer { offset: u32::MAX, len: 1 } })
    );
}

#[test]
fn handles_are_slot_indices() {
    let mut t: HandleTable<&str> = HandleTable::new();
    assert_eq!(t.insert("a"), 0);
    assert_eq!(t.insert("b"), 1);
    assert_eq!(t.insert("c"), 2);
    assert_eq!(t.get(1), Some(&"b"));
    assert_eq!(t.slot_count(), 3);
}

#[test]
fn freed_handle_refers_to_nothing() {
    let mut t: HandleTable<u32> = HandleTable::new();
    let a = t.insert(10);
    let b = t.insert(20);
    t.free(a);
    assert_eq!(t.get(a), None);
    assert_eq!(t.get(b), Some(&20));
}

#[test]
fn freed_slot_is_reused_smallest_first() {
    let mut t: HandleTable<u32> = HandleTable::new();
    for v in 0..4 {
        t.insert(v);
    }
    t.free(2);
    t.free(1);
    assert_eq!(t.insert(100), 1);
    assert_eq!(t.insert(200), 2);
    assert_eq!(t.insert(300), 4);
    assert_eq!(t.get(1), Some(&100));
    assert_eq!(t.get(2), Some(&200));
    assert_eq!(t.slot_count(), 5);
}

#[test]
fn out_of_range_handles() {
    let mut t: HandleTable<u32> = HandleTable::new();
    t.insert(7);
    assert_eq!(t.get(-1), None);
    assert_eq!(t.get(1), None);
    assert_eq!(t.get(i64::MIN), None);
    assert_eq!(t.take(5), None);
    t.free(-3);
    t.free(9);
    assert_eq!(t.get(0), Some(&7));
    assert_eq!(t.slot_count(), 1);
}

#[test]
fn take_and_restore() {
    let mut t: HandleTable<String> = HandleTable::new();
    let h = t.insert("x".to_string());
    let v = t.take(h).unwrap();
    assert_eq!(t.get(h), None);
    t.restore(h, v + "y");
    assert_eq!(t.get(h).map(|s| s.as_str()), Some("xy"));
}
