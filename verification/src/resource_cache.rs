//! The image resource cache: a non-blocking lookup of resolved image
//! properties, and the request list that schedules an image's pixels for
//! upload in the current frame.

use vstd::prelude::*;
use crate::gpu_cache::GpuCache;
use crate::units::SizeAu;

verus! {

/// Identifier of one image resource.
#[derive(Clone, Copy, Debug, PartialEq, Eq, Hash, Structural)]
pub struct ImageKey {
    pub id: u64,
}

/// How an image is filtered when scaled.
#[derive(Clone, Copy, Debug, PartialEq, Eq, Hash, Structural)]
pub enum ImageRendering {
    Auto,
    CrispEdges,
    Pixelated,
}

/// A request for one image resource with its filtering mode.
#[derive(Clone, Copy, Debug, PartialEq, Eq, Hash, Structural)]
pub struct ImageRequest {
    pub key: ImageKey,
    pub rendering: ImageRendering,
}

/// What the cache knows about a resolved image.
#[derive(Clone, Copy, Debug, PartialEq, Eq, Hash, Structural)]
pub struct ImageDescriptor {
    pub size: SizeAu,
    pub is_opaque: bool,
}

/// Properties of a resolved image resource.
#[derive(Clone, Copy, Debug, PartialEq, Eq, Hash, Structural)]
pub struct ImageProperties {
    pub descriptor: ImageDescriptor,
}

/// One resolved image held by the cache.
#[derive(Clone, Copy, Debug, PartialEq, Eq, Hash, Structural)]
pub struct ImageEntry {
    pub key: ImageKey,
    pub descriptor: ImageDescriptor,
}

/// The descriptor of the first entry with the given key, if any.
pub open spec fn lookup_image(entries: Seq<ImageEntry>, key: ImageKey) -> Option<ImageDescriptor>
    decreases entries.len(),
{
    if entries.len() <= 0 {
        None
    } else if entries[0].key == key {
        Some(entries[0].descriptor)
    } else {
        lookup_image(entries.drop_first(), key)
    }
}

/// The resource cache: resolved images, and the keys whose pixels were
/// requested for upload this frame.
pub struct ResourceCache {
    images: Vec<ImageEntry>,
    requested: Vec<ImageKey>,
}

impl ResourceCache {
    /// The resolved images, in the order they were added.
    pub closed spec fn images_view(self) -> Seq<ImageEntry> {
        self.images@
    }

    /// The keys requested for upload, in request order.
    pub closed spec fn requested_view(self) -> Seq<ImageKey> {
        self.requested@
    }

    pub fn new() -> (r: Self)
        ensures
            r.images_view() == Seq::<ImageEntry>::empty(),
            r.requested_view() == Seq::<ImageKey>::empty(),
    {
        ResourceCache { images: Vec::new(), requested: Vec::new() }
    }

    /// Record one resolved image.
    pub fn add_image(&mut self, key: ImageKey, descriptor: ImageDescriptor)
        ensures
            final(self).images_view() == old(self).images_view().push(
                ImageEntry { key, descriptor },
            ),
            final(self).requested_view() == old(self).requested_view(),
    {
        self.images.push(ImageEntry { key, descriptor });
    }

    /// Non-blocking lookup: the properties of the image when it is
    /// resolved, nothing when it is not.
    pub fn get_image_properties(&self, key: ImageKey) -> (r: Option<ImageProperties>)
        ensures
            ({
                match lookup_image(self.images_view(), key) {
                    Some(d) => r == Some(ImageProperties { descriptor: d }),
                    None => r == None::<ImageProperties>,
                }
            }),
    {
        let mut i: usize = 0;
        proof {
            assert(self.images@.skip(0) =~= self.images@);
        }
        while i < self.images.len()
            invariant
                i <= self.images.len(),
                lookup_image(self.images@, key)
                    == lookup_image(self.images@.skip(i as int), key),
            decreases self.images.len() - i,
        {
            let entry = self.images[i];
            proof {
                assert(self.images@.skip(i as int)[0] == self.images@[i as int]);
            }
            if entry.key == key {
                return Some(ImageProperties { descriptor: entry.descriptor });
            }
            proof {
                assert(self.images@.skip(i as int).drop_first()
                    =~= self.images@.skip(i as int + 1));
            }
            i += 1;
        }
        proof {
            assert(self.images@.skip(i as int).len() == 0);
        }
        None
    }

    /// Schedule the image's pixels for upload this frame. Only the request
    /// list changes; the GPU cache is handed along untouched, as the wider
    /// interface expects.
    pub fn request_image(&mut self, request: ImageRequest, gpu_cache: &mut GpuCache)
        ensures
            final(self).images_view() == old(self).images_view(),
            final(self).requested_view() == old(self).requested_view().push(request.key),
            *final(gpu_cache) == *old(gpu_cache),
    {
        self.requested.push(request.key);
    }

    pub fn requested_count(&self) -> (r: usize)
        ensures
            r == self.requested_view().len(),
    {
        self.requested.len()
    }

    pub fn requested_key(&self, i: usize) -> (r: ImageKey)
        requires
            i < self.requested_view().len(),
        ensures
            r == self.requested_view()[i as int],
    {
        self.requested[i]
    }
}

} // verus!
