//! The guest's binary interface: the names it must export, the errors of the
//! host, and the decoding of the values a guest call returns.
use vstd::prelude::*;

verus! {

/// Export of the guest's allocator: `alloc(length: u32) -> offset: u32`.
pub const ALLOC_FN: &'static str = "alloc";

/// Export of the guest's linear memory.
pub const MEMORY: &'static str = "memory";

/// Export of the guest's entry point:
/// `infer_from_ptrs(model_offset, model_len, image_offset, image_len) -> class_index`.
pub const INFER_FN: &'static str = "infer_from_ptrs";

/// One of the exports that the guest's interface requires.
#[derive(Clone, Copy, Debug, PartialEq, Eq, Structural)]
pub enum Export {
    Alloc,
    Memory,
    Infer,
}

/// What went wrong while driving a guest.
#[derive(Clone, Copy, Debug, PartialEq, Eq, Structural)]
pub enum HostError {
    /// The guest binary could not be parsed or compiled, or the engine to
    /// compile it for could not be set up.
    Load,
    /// The imports the guest needs could not be provided, or instantiation failed.
    Link,
    /// The guest lacks an export that the interface requires.
    MissingExport(Export),
    /// The guest's allocator trapped.
    Allocation,
    /// The allocator did not return exactly one non-negative 32-bit integer.
    Protocol,
    /// A buffer is too long for a 32-bit length argument.
    BufferTooLarge,
    /// A copy into or out of linear memory fell outside its bounds.
    OutOfBounds,
    /// The entry point returned other than exactly one value.
    Arity,
    /// The entry point's single result is not a 32-bit integer.
    ResultType,
    /// The guest trapped during inference.
    GuestTrap,
    /// The class index names no line of the label store.
    LabelOutOfRange,
}

/// The single 32-bit integer in a call's results, or why there is none.
/// Each result is `Some(v)` for an `i32` value `v` and `None` for a value of
/// another type.
pub open spec fn single_i32(results: Seq<Option<i32>>) -> Result<i32, HostError> {
    if results.len() != 1 {
        Err(HostError::Arity)
    } else {
        match results[0] {
            Some(v) => Ok(v),
            None => Err(HostError::ResultType),
        }
    }
}

/// Decodes the results of a guest call that must return one `i32`.
pub fn decode_single_i32(results: &Vec<Option<i32>>) -> (r: Result<i32, HostError>)
    ensures
        r == single_i32(results@),
{
    if results.len() != 1 {
        return Err(HostError::Arity);
    }
    match results[0] {
        Some(v) => Ok(v),
        None => Err(HostError::ResultType),
    }
}

/// The guest offset an allocator call's results denote: the single `i32`
/// result, which must be non-negative.
pub open spec fn alloc_offset(results: Seq<Option<i32>>) -> Result<u32, HostError> {
    match single_i32(results) {
        Ok(v) => if v >= 0 {
            Ok(v as u32)
        } else {
            Err(HostError::Protocol)
        },
        Err(_) => Err(HostError::Protocol),
    }
}

/// Decodes the results of a call of the guest's allocator into a guest offset.
pub fn decode_alloc_offset(results: &Vec<Option<i32>>) -> (r: Result<u32, HostError>)
    ensures
        r == alloc_offset(results@),
{
    match decode_single_i32(results) {
        Ok(v) => if v >= 0 {
            Ok(v as u32)
        } else {
            Err(HostError::Protocol)
        },
        Err(_) => Err(HostError::Protocol),
    }
}

/// The length argument for a buffer of `len` bytes, if it fits a guest `i32`.
pub open spec fn length_arg(len: nat) -> Option<i32> {
    if len <= i32::MAX {
        Some(len as i32)
    } else {
        None
    }
}

/// Converts a buffer length to the guest's 32-bit length argument.
pub fn guest_length(len: usize) -> (r: Option<i32>)
    ensures
        r == length_arg(len as nat),
{
    if len <= i32::MAX as usize {
        Some(len as i32)
    } else {
        None
    }
}

} // verus!
