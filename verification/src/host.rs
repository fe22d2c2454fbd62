//! The host's side of the boundary: what each answer of the plugin means for
//! the caller, as the host API reports it.
use crate::types::ABI_VERSION;
use vstd::prelude::*;

verus! {

/// Errors of the host API.
#[derive(Debug)]
pub enum HostError {
    /// The plugin library could not be opened, or lacks a symbol.
    LoadLibrary(libloading::Error),
    /// The plugin was built for another version of the boundary.
    AbiMismatch { expected: u32, actual: u32 },
    /// The plugin refused the module; the negative code it answered.
    ModuleLoad(i64),
    /// A call failed; the nonzero status it answered.
    CallFailed(i32),
    /// A range lies outside the module's linear memory.
    MemoryAccess,
    /// The module's allocator returned no memory.
    AllocFailed,
    /// The plugin knows no module under the handle.
    InvalidHandle,
}

/// Accepts a plugin only when it reports the host's own boundary version.
pub fn check_plugin_version(actual: u32) -> (r: Result<(), HostError>)
    ensures
        actual == ABI_VERSION ==> r is Ok,
        actual != ABI_VERSION ==> (r matches Err(HostError::AbiMismatch { expected, actual: a })
            && expected == ABI_VERSION && a == actual),
{
    if actual != ABI_VERSION {
        return Err(HostError::AbiMismatch { expected: ABI_VERSION, actual });
    }
    Ok(())
}

/// What the plugin's answer to a module load means: a handle when it is not
/// negative, the plugin's error code otherwise.
pub fn module_handle(answer: i64) -> (r: Result<i64, HostError>)
    ensures
        answer >= 0 ==> r == Ok::<i64, HostError>(answer),
        answer < 0 ==> (r matches Err(HostError::ModuleLoad(c)) && c == answer),
{
    if answer < 0 {
        return Err(HostError::ModuleLoad(answer));
    }
    Ok(answer)
}

/// What the module's allocator answered for `size` bytes: offset 0 means
/// failure, unless nothing was asked for.
pub fn alloc_offset(offset: u32, size: u32) -> (r: Result<u32, HostError>)
    ensures
        offset == 0 && size > 0 ==> r matches Err(HostError::AllocFailed),
        !(offset == 0 && size > 0) ==> r == Ok::<u32, HostError>(offset),
{
    if offset == 0 && size > 0 {
        return Err(HostError::AllocFailed);
    }
    Ok(offset)
}

/// A status that the plugin answered: zero is success, anything else fails
/// the call and is reported as it came.
pub fn check_status(rc: i32) -> (r: Result<(), HostError>)
    ensures
        rc == 0 ==> r is Ok,
        rc != 0 ==> (r matches Err(HostError::CallFailed(c)) && c == rc),
{
    if rc != 0 {
        return Err(HostError::CallFailed(rc));
    }
    Ok(())
}

/// Whether `len` bytes at `offset` may be read from a linear memory of
/// `mem_len` bytes whose base the plugin answered (null: no such module).
pub fn check_memory_range(base_is_null: bool, mem_len: usize, offset: u32, len: u32) -> (r: Result<
    (),
    HostError,
>)
    ensures
        base_is_null ==> r matches Err(HostError::InvalidHandle),
        !base_is_null && offset + len > mem_len ==> r matches Err(HostError::MemoryAccess),
        !base_is_null && offset + len <= mem_len ==> r is Ok,
{
    if base_is_null {
        return Err(HostError::InvalidHandle);
    }
    let end: u64 = offset as u64 + len as u64;
    if end > mem_len as u64 {
        return Err(HostError::MemoryAccess);
    }
    Ok(())
}

/// The size that the host asks the module to allocate for `data_len` bytes
/// of input: the length as a `u32`, cut to its low 32 bits.
pub fn input_size(data_len: usize) -> (size: u32)
    ensures
        size == data_len as u32,
        data_len <= u32::MAX ==> size == data_len,
{
    data_len as u32
}

/// The status that a codec function answered: its first result, taken as an
/// `i32` (low 32 bits), or -1 when it answered nothing.
pub fn codec_status(results: &[i64]) -> (rc: i32)
    ensures
        results@.len() == 0 ==> rc == -1,
        results@.len() > 0 ==> rc == results@[0] as i32,
{
    if results.len() == 0 {
        return -1;
    }
    results[0] as i32
}

} // verus!
