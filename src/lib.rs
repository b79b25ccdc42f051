//! Host side of a sandboxed image-classification guest: loads a WebAssembly
//! guest, copies byte buffers into its linear memory through the guest's own
//! allocator, calls its inference entry point and maps the class index it
//! returns to a label.
pub mod abi;
pub mod labels;
pub mod linear;
pub mod runtime;
pub mod host;
