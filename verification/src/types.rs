//! Values shared by the host and the plugin: the boundary's version, the names
//! that WASM modules export, the `#[repr(C)]` descriptors that modules write
//! into their linear memory, and the status codes of the boundary.
use vstd::prelude::*;

verus! {

/// Version of the boundary between host and plugin.
pub const ABI_VERSION: u32 = 1;

/// `wasm_alloc(size: u32) -> u32`: allocate in WASM linear memory.
pub const FN_ALLOC: &'static str = "wasm_alloc";

/// `wasm_dealloc(offset: u32, size: u32)`: free WASM memory.
pub const FN_DEALLOC: &'static str = "wasm_dealloc";

/// `abi_version() -> u32`: the version a module was built against (optional export).
pub const FN_ABI_VERSION: &'static str = "abi_version";

/// `codec_probe(data_offset: u32, data_len: u32, info_offset: u32) -> i32`
pub const FN_CODEC_PROBE: &'static str = "codec_probe";

/// `codec_decode(data_offset: u32, data_len: u32, out_offset: u32) -> i32`
pub const FN_CODEC_DECODE: &'static str = "codec_decode";

/// `codec_encode(pixels_offset: u32, w: u32, h: u32, channels: u32,
///               opts_offset: u32, opts_len: u32, out_offset: u32) -> i32`
pub const FN_CODEC_ENCODE: &'static str = "codec_encode";

/// `filter_process(in_offset: u32, w: u32, h: u32, channels: u32,
///                 params_offset: u32, params_len: u32, out_offset: u32) -> i32`
pub const FN_FILTER_PROCESS: &'static str = "filter_process";

/// Name of the linear memory that every module exports.
pub const MEMORY_EXPORT: &'static str = "memory";

/// Size in bytes of an [`ImageInfo`] in linear memory (six `u32` fields).
pub const IMAGE_INFO_SIZE: u32 = 24;

/// Size in bytes of a [`WasmBuffer`] in linear memory (two `u32` fields).
pub const WASM_BUFFER_SIZE: u32 = 8;

/// Size in bytes of a [`DecodeOutput`] in linear memory (a buffer and three `u32` fields).
pub const DECODE_OUTPUT_SIZE: u32 = 20;

/// Size in bytes of an [`EncodeOutput`] in linear memory (one buffer).
pub const ENCODE_OUTPUT_SIZE: u32 = 8;

/// Image metadata returned by `codec_probe`.
#[derive(Clone, Copy, Debug, PartialEq, Eq, Structural)]
pub struct ImageInfo {
    pub width: u32,
    pub height: u32,
    pub channels: u32,
    /// 0 = unknown, 1 = sRGB, 2 = linear, 3 = display-p3
    pub color_space: u32,
    pub has_alpha: u32,
    pub has_icc: u32,
}

/// Describes a buffer region in WASM linear memory.
#[derive(Clone, Copy, Debug, PartialEq, Eq, Structural)]
pub struct WasmBuffer {
    pub offset: u32,
    pub len: u32,
}

/// Decode output descriptor written by `codec_decode`.
#[derive(Clone, Copy, Debug, PartialEq, Eq, Structural)]
pub struct DecodeOutput {
    pub pixels: WasmBuffer,
    pub width: u32,
    pub height: u32,
    pub channels: u32,
}

/// Encode output descriptor written by `codec_encode`.
#[derive(Clone, Copy, Debug, PartialEq, Eq, Structural)]
pub struct EncodeOutput {
    pub data: WasmBuffer,
}

/// Status codes of the boundary between host and plugin.
#[derive(Clone, Copy, Debug, PartialEq, Eq, Structural)]
pub enum ErrorCode {
    Success,
    InvalidModule,
    InvalidHandle,
    MemoryAccessError,
    FunctionNotFound,
    CallFailed,
    AllocFailed,
    AbiMismatch,
}

/// The number that stands for `e` on the boundary.
pub open spec fn code_of(e: ErrorCode) -> i32 {
    match e {
        ErrorCode::Success => 0i32,
        ErrorCode::InvalidModule => -1i32,
        ErrorCode::InvalidHandle => -2i32,
        ErrorCode::MemoryAccessError => -3i32,
        ErrorCode::FunctionNotFound => -4i32,
        ErrorCode::CallFailed => -5i32,
        ErrorCode::AllocFailed => -6i32,
        ErrorCode::AbiMismatch => -7i32,
    }
}

/// The status code that the number `c` stands for, if any.
pub open spec fn error_code_from(c: i32) -> Option<ErrorCode> {
    if c == 0 {
        Some(ErrorCode::Success)
    } else if c == -1 {
        Some(ErrorCode::InvalidModule)
    } else if c == -2 {
        Some(ErrorCode::InvalidHandle)
    } else if c == -3 {
        Some(ErrorCode::MemoryAccessError)
    } else if c == -4 {
        Some(ErrorCode::FunctionNotFound)
    } else if c == -5 {
        Some(ErrorCode::CallFailed)
    } else if c == -6 {
        Some(ErrorCode::AllocFailed)
    } else if c == -7 {
        Some(ErrorCode::AbiMismatch)
    } else {
        None
    }
}

impl ErrorCode {
    /// The number that stands for this code on the boundary.
    pub fn code(self) -> (c: i32)
        ensures
            c == code_of(self),
    {
        match self {
            ErrorCode::Success => 0,
            ErrorCode::InvalidModule => -1,
            ErrorCode::InvalidHandle => -2,
            ErrorCode::MemoryAccessError => -3,
            ErrorCode::FunctionNotFound => -4,
            ErrorCode::CallFailed => -5,
            ErrorCode::AllocFailed => -6,
            ErrorCode::AbiMismatch => -7,
        }
    }

    /// The status code that a number received over the boundary stands for.
    pub fn from_code(c: i32) -> (e: Option<ErrorCode>)
        ensures
            e == error_code_from(c),
    {
        if c == 0 {
            Some(ErrorCode::Success)
        } else if c == -1 {
            Some(ErrorCode::InvalidModule)
        } else if c == -2 {
            Some(ErrorCode::InvalidHandle)
        } else if c == -3 {
            Some(ErrorCode::MemoryAccessError)
        } else if c == -4 {
            Some(ErrorCode::FunctionNotFound)
        } else if c == -5 {
            Some(ErrorCode::CallFailed)
        } else if c == -6 {
            Some(ErrorCode::AllocFailed)
        } else if c == -7 {
            Some(ErrorCode::AbiMismatch)
        } else {
            None
        }
    }
}

/// Every status code has its own number, and reading the number back gives
/// the code; only `Success` is zero, every other code is negative.
pub proof fn error_code_round_trip(e: ErrorCode)
    ensures
        error_code_from(code_of(e)) == Some(e),
        (code_of(e) == 0) <==> (e == ErrorCode::Success),
        e != ErrorCode::Success ==> code_of(e) < 0,
{
}

/// Two different status codes never share a number.
pub proof fn error_codes_distinct(a: ErrorCode, b: ErrorCode)
    requires
        a != b,
    ensures
        code_of(a) != code_of(b),
{
    error_code_round_trip(a);
    error_code_round_trip(b);
}

/// The little-endian `u32` stored in `b` at `at..at + 4`.
pub open spec fn le_u32(b: Seq<u8>, at: int) -> u32 {
    (b[at] as int + b[at + 1] as int * 0x100 + b[at + 2] as int * 0x1_0000 + b[at + 3] as int
        * 0x100_0000) as u32
}

/// Reads the little-endian `u32` at `at..at + 4` of `b`.
fn read_u32_le(b: &[u8], at: usize) -> (v: u32)
    requires
        at + 4 <= b@.len(),
    ensures
        v == le_u32(b@, at as int),
{
    let b0 = b[at] as u32;
    let b1 = b[at + 1] as u32;
    let b2 = b[at + 2] as u32;
    let b3 = b[at + 3] as u32;
    b0 + b1 * 0x100 + b2 * 0x1_0000 + b3 * 0x100_0000
}

/// The [`ImageInfo`] that the 24 bytes of `b` hold in the module's layout.
pub open spec fn image_info_at(b: Seq<u8>) -> ImageInfo {
    ImageInfo {
        width: le_u32(b, 0),
        height: le_u32(b, 4),
        channels: le_u32(b, 8),
        color_space: le_u32(b, 12),
        has_alpha: le_u32(b, 16),
        has_icc: le_u32(b, 20),
    }
}

/// The [`WasmBuffer`] that the bytes of `b` at `at..at + 8` hold.
pub open spec fn wasm_buffer_at(b: Seq<u8>, at: int) -> WasmBuffer {
    WasmBuffer { offset: le_u32(b, at), len: le_u32(b, at + 4) }
}

/// The [`DecodeOutput`] that the 20 bytes of `b` hold in the module's layout.
pub open spec fn decode_output_at(b: Seq<u8>) -> DecodeOutput {
    DecodeOutput {
        pixels: wasm_buffer_at(b, 0),
        width: le_u32(b, 8),
        height: le_u32(b, 12),
        channels: le_u32(b, 16),
    }
}

/// The [`EncodeOutput`] that the 8 bytes of `b` hold in the module's layout.
pub open spec fn encode_output_at(b: Seq<u8>) -> EncodeOutput {
    EncodeOutput { data: wasm_buffer_at(b, 0) }
}

/// The number that the four bytes of `b` at `at..at + 4` stand for, lowest
/// byte first.
pub open spec fn le_number(b: Seq<u8>, at: int) -> int {
    b[at] + 0x100 * b[at + 1] + 0x1_0000 * b[at + 2] + 0x100_0000 * b[at + 3]
}

/// The four bytes that hold `x` little-endian, lowest byte first.
pub open spec fn le_bytes(x: u32) -> Seq<u8> {
    seq![
        (x % 0x100) as u8,
        (x / 0x100 % 0x100) as u8,
        (x / 0x1_0000 % 0x100) as u8,
        (x / 0x100_0000) as u8,
    ]
}

/// A `u32` read from four bytes is the whole little-endian number they
/// hold, and reading the bytes that hold `x` gives `x` back.
pub proof fn le_u32_reads_whole_number(b: Seq<u8>, at: int, x: u32)
    requires
        0 <= at,
        at + 4 <= b.len(),
    ensures
        le_u32(b, at) as int == le_number(b, at),
        le_number(le_bytes(x), 0) == x,
        le_u32(le_bytes(x), 0) == x,
{
    assert((x % 0x100) + 0x100 * (x / 0x100 % 0x100) + 0x1_0000 * (x / 0x1_0000 % 0x100)
        + 0x100_0000 * (x / 0x100_0000) == x) by (bit_vector);
    assert(x / 0x100_0000 < 0x100) by (bit_vector);
    let s = le_bytes(x);
    assert(s[0] == x % 0x100);
    assert(s[1] == x / 0x100 % 0x100);
    assert(s[2] == x / 0x1_0000 % 0x100);
    assert(s[3] == x / 0x100_0000);
}

/// Every field of an [`ImageInfo`] read from its 24 bytes is the whole
/// little-endian `u32` at the field's offset: width at 0, height at 4,
/// channels at 8, color space at 12, alpha flag at 16, ICC flag at 20.
pub proof fn image_info_fields_little_endian(b: Seq<u8>)
    requires
        b.len() == IMAGE_INFO_SIZE,
    ensures
        image_info_at(b).width == le_number(b, 0),
        image_info_at(b).height == le_number(b, 4),
        image_info_at(b).channels == le_number(b, 8),
        image_info_at(b).color_space == le_number(b, 12),
        image_info_at(b).has_alpha == le_number(b, 16),
        image_info_at(b).has_icc == le_number(b, 20),
{
    le_u32_reads_whole_number(b, 0, 0);
    le_u32_reads_whole_number(b, 4, 0);
    le_u32_reads_whole_number(b, 8, 0);
    le_u32_reads_whole_number(b, 12, 0);
    le_u32_reads_whole_number(b, 16, 0);
    le_u32_reads_whole_number(b, 20, 0);
}

/// Both fields of a [`WasmBuffer`] read from its 8 bytes are the whole
/// little-endian `u32`s at their offsets: the offset at 0, the length at 4.
pub proof fn wasm_buffer_fields_little_endian(b: Seq<u8>)
    requires
        b.len() == WASM_BUFFER_SIZE,
    ensures
        wasm_buffer_at(b, 0).offset == le_number(b, 0),
        wasm_buffer_at(b, 0).len == le_number(b, 4),
{
    le_u32_reads_whole_number(b, 0, 0);
    le_u32_reads_whole_number(b, 4, 0);
}

/// Every field of a [`DecodeOutput`] read from its 20 bytes is the whole
/// little-endian `u32` at the field's offset: the pixels' offset at 0 and
/// length at 4, then width at 8, height at 12 and channels at 16.
pub proof fn decode_output_fields_little_endian(b: Seq<u8>)
    requires
        b.len() == DECODE_OUTPUT_SIZE,
    ensures
        decode_output_at(b).pixels.offset == le_number(b, 0),
        decode_output_at(b).pixels.len == le_number(b, 4),
        decode_output_at(b).width == le_number(b, 8),
        decode_output_at(b).height == le_number(b, 12),
        decode_output_at(b).channels == le_number(b, 16),
{
    le_u32_reads_whole_number(b, 0, 0);
    le_u32_reads_whole_number(b, 4, 0);
    le_u32_reads_whole_number(b, 8, 0);
    le_u32_reads_whole_number(b, 12, 0);
    le_u32_reads_whole_number(b, 16, 0);
}

/// Both fields of an [`EncodeOutput`]'s buffer read from its 8 bytes are the
/// whole little-endian `u32`s at their offsets: the offset at 0, the length
/// at 4.
pub proof fn encode_output_fields_little_endian(b: Seq<u8>)
    requires
        b.len() == ENCODE_OUTPUT_SIZE,
    ensures
        encode_output_at(b).data.offset == le_number(b, 0),
        encode_output_at(b).data.len == le_number(b, 4),
{
    le_u32_reads_whole_number(b, 0, 0);
    le_u32_reads_whole_number(b, 4, 0);
}

/// The 24 bytes in which a module lays out `i`: each field little-endian,
/// in declaration order.
pub open spec fn image_info_bytes(i: ImageInfo) -> Seq<u8> {
    le_bytes(i.width) + le_bytes(i.height) + le_bytes(i.channels) + le_bytes(i.color_space)
        + le_bytes(i.has_alpha) + le_bytes(i.has_icc)
}

/// The 20 bytes in which a module lays out `d`: each field little-endian,
/// in declaration order.
pub open spec fn decode_output_bytes(d: DecodeOutput) -> Seq<u8> {
    le_bytes(d.pixels.offset) + le_bytes(d.pixels.len) + le_bytes(d.width) + le_bytes(d.height)
        + le_bytes(d.channels)
}

/// Reading the bytes that a module writes for an [`ImageInfo`] gives back
/// that very `ImageInfo`.
pub proof fn image_info_written_then_read(i: ImageInfo)
    ensures
        image_info_bytes(i).len() == IMAGE_INFO_SIZE,
        image_info_at(image_info_bytes(i)) == i,
{
    let b = image_info_bytes(i);
    le_u32_reads_whole_number(b, 0, i.width);
    le_u32_reads_whole_number(b, 0, i.height);
    le_u32_reads_whole_number(b, 0, i.channels);
    le_u32_reads_whole_number(b, 0, i.color_space);
    le_u32_reads_whole_number(b, 0, i.has_alpha);
    le_u32_reads_whole_number(b, 0, i.has_icc);
    assert(b.subrange(0, 4) == le_bytes(i.width));
    assert(b.subrange(4, 8) == le_bytes(i.height));
    assert(b.subrange(8, 12) == le_bytes(i.channels));
    assert(b.subrange(12, 16) == le_bytes(i.color_space));
    assert(b.subrange(16, 20) == le_bytes(i.has_alpha));
    assert(b.subrange(20, 24) == le_bytes(i.has_icc));
}

/// Reading the bytes that a module writes for a [`DecodeOutput`] gives back
/// that very `DecodeOutput`.
pub proof fn decode_output_written_then_read(d: DecodeOutput)
    ensures
        decode_output_bytes(d).len() == DECODE_OUTPUT_SIZE,
        decode_output_at(decode_output_bytes(d)) == d,
{
    let b = decode_output_bytes(d);
    le_u32_reads_whole_number(b, 0, d.pixels.offset);
    le_u32_reads_whole_number(b, 0, d.pixels.len);
    le_u32_reads_whole_number(b, 0, d.width);
    le_u32_reads_whole_number(b, 0, d.height);
    le_u32_reads_whole_number(b, 0, d.channels);
    assert(b.subrange(0, 4) == le_bytes(d.pixels.offset));
    assert(b.subrange(4, 8) == le_bytes(d.pixels.len));
    assert(b.subrange(8, 12) == le_bytes(d.width));
    assert(b.subrange(12, 16) == le_bytes(d.height));
    assert(b.subrange(16, 20) == le_bytes(d.channels));
}

impl ImageInfo {
    /// Reads an `ImageInfo` from the bytes of linear memory that hold it
    /// (WASM memory is little-endian); `None` unless `b` is exactly its size.
    pub fn from_bytes(b: &[u8]) -> (r: Option<ImageInfo>)
        ensures
            b@.len() == IMAGE_INFO_SIZE ==> r == Some(image_info_at(b@)),
            b@.len() != IMAGE_INFO_SIZE ==> r is None,
    {
        if b.len() != 24 {
            return None;
        }
        Some(
            ImageInfo {
                width: read_u32_le(b, 0),
                height: read_u32_le(b, 4),
                channels: read_u32_le(b, 8),
                color_space: read_u32_le(b, 12),
                has_alpha: read_u32_le(b, 16),
                has_icc: read_u32_le(b, 20),
            },
        )
    }
}

impl WasmBuffer {
    /// Reads a `WasmBuffer` from the bytes of linear memory that hold it;
    /// `None` unless `b` is exactly its size.
    pub fn from_bytes(b: &[u8]) -> (r: Option<WasmBuffer>)
        ensures
            b@.len() == WASM_BUFFER_SIZE ==> r == Some(wasm_buffer_at(b@, 0)),
            b@.len() != WASM_BUFFER_SIZE ==> r is None,
    {
        if b.len() != 8 {
            return None;
        }
        Some(WasmBuffer { offset: read_u32_le(b, 0), len: read_u32_le(b, 4) })
    }
}

impl DecodeOutput {
    /// Reads a `DecodeOutput` from the bytes of linear memory that hold it;
    /// `None` unless `b` is exactly its size.
    pub fn from_bytes(b: &[u8]) -> (r: Option<DecodeOutput>)
        ensures
            b@.len() == DECODE_OUTPUT_SIZE ==> r == Some(decode_output_at(b@)),
            b@.len() != DECODE_OUTPUT_SIZE ==> r is None,
    {
        if b.len() != 20 {
            return None;
        }
        Some(
            DecodeOutput {
                pixels: WasmBuffer { offset: read_u32_le(b, 0), len: read_u32_le(b, 4) },
                width: read_u32_le(b, 8),
                height: read_u32_le(b, 12),
                channels: read_u32_le(b, 16),
            },
        )
    }
}

impl EncodeOutput {
    /// Reads an `EncodeOutput` from the bytes of linear memory that hold it;
    /// `None` unless `b` is exactly its size.
    pub fn from_bytes(b: &[u8]) -> (r: Option<EncodeOutput>)
        ensures
            b@.len() == ENCODE_OUTPUT_SIZE ==> r == Some(encode_output_at(b@)),
            b@.len() != ENCODE_OUTPUT_SIZE ==> r is None,
    {
        if b.len() != 8 {
            return None;
        }
        Some(EncodeOutput { data: WasmBuffer { offset: read_u32_le(b, 0), len: read_u32_le(b, 4) } })
    }
}

} // verus!
