//! A content-addressed cache core for GPU-ready border rendering data.
//!
//! Scene content describes a border (style and geometry) as an immutable,
//! hashable key. Identical keys are deduplicated by an interning table; the
//! expensive derived representation (segment decomposition, opacity, GPU
//! block layout) is computed once per unique key as a template, and a GPU
//! buffer slot per template is populated lazily, being rewritten only when
//! it was evicted or newly created.
//!
//! All geometry is carried in integer app units so that visually identical
//! inputs quantize to bit-identical keys.

pub mod border;
pub mod borders;
pub mod frame;
pub mod gpu_cache;
pub mod intern;
pub mod prim_store;
pub mod resource_cache;
pub mod units;
