//! Per-frame state handed to the update protocol: the GPU cache being
//! populated and the resource cache images resolve against.

use vstd::prelude::*;
use crate::gpu_cache::GpuCache;
use crate::resource_cache::ResourceCache;

verus! {

/// Everything one frame's population pass touches.
pub struct FrameBuildingState {
    pub gpu_cache: GpuCache,
    pub resource_cache: ResourceCache,
}

impl FrameBuildingState {
    pub fn new() -> (r: Self)
        ensures
            r.gpu_cache@ == Seq::<crate::gpu_cache::GpuSlotView>::empty(),
            r.resource_cache.images_view()
                == Seq::<crate::resource_cache::ImageEntry>::empty(),
            r.resource_cache.requested_view()
                == Seq::<crate::resource_cache::ImageKey>::empty(),
    {
        FrameBuildingState { gpu_cache: GpuCache::new(), resource_cache: ResourceCache::new() }
    }
}

} // verus!
