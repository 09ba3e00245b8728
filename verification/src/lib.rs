//! Verified marshalling core of a binding to a native heap-profiling
//! allocator. The allocator, heap profiler and statistics engine live in the
//! native library; the layer in front of it is thin but must be exact, and
//! that layer is what this crate verifies: encoding strings for a C
//! interface that reads up to a NUL terminator, interpreting the result
//! codes the native entry points hand back, and bounding the length handed
//! to the statistics renderer.

pub mod cstr;
pub mod status;
