//! Border primitives: content keys, interned templates, and the per-frame
//! GPU population protocol, for the two drawable variants — plain borders
//! rendered as colored segments, and image-based nine-patch borders.

use vstd::prelude::*;
use crate::border::{
    border_geometry_wf, create_border_segments, normalize_spec, plain_border_segments,
    plain_brush_segments, with_color_spec, NormalBorderAu,
};
use crate::frame::FrameBuildingState;
use crate::gpu_cache::{
    handle_wf, lemma_populate_idempotent, populate_index, populate_slots, rect_block, slot_of,
    GpuBlock, GpuCacheHandle, GpuDataRequest, GpuSlotView,
};
use crate::intern::{
    intern_keys, key_index, keys_distinct, lemma_key_index_absent, lemma_key_index_found,
    ImageBorderDataHandle, NormalBorderDataHandle,
};
use crate::prim_store::{
    key_common_spec, nine_patch_segments, nine_patch_wf, BorderSegmentInfo, BrushSegment,
    HandleRange, NinePatchDescriptor, PrimKeyCommonData, PrimTemplateCommonData,
    PrimitiveInstanceKind, PrimitiveOpacity,
};
use crate::resource_cache::{lookup_image, ImageRequest};
use crate::units::{LayoutPrimitiveInfo, RectAu, Shadow, SideOffsetsAu, SizeAu};

verus! {

// ------------------------------------------------------------------
// The fixed GPU block layout shared by both variants.
// ------------------------------------------------------------------

/// Premultiplied white, quantized: every lane saturated.
pub open spec fn white_block() -> GpuBlock {
    GpuBlock { x: 255, y: 255, z: 255, w: 255 }
}

/// The size block: bounding width and height, two reserved zero lanes.
pub open spec fn size_block(size: SizeAu) -> GpuBlock {
    GpuBlock { x: size.width, y: size.height, z: 0, w: 0 }
}

/// The fixed primitive header both variants write first: two premultiplied
/// white color blocks, then the size block.
pub open spec fn header_blocks(size: SizeAu) -> Seq<GpuBlock> {
    seq![white_block(), white_block(), size_block(size)]
}

/// The block groups of the segment list, in list order: for each segment
/// its local rectangle block, then its auxiliary data block.
pub open spec fn segment_gpu_blocks(segments: Seq<BrushSegment>) -> Seq<GpuBlock>
    decreases segments.len(),
{
    if segments.len() <= 0 {
        Seq::empty()
    } else {
        segment_gpu_blocks(segments.drop_last()).push(
            rect_block(segments.last().local_rect),
        ).push(segments.last().extra_data)
    }
}

/// A populated slot's full contents: the header, then the segment groups.
pub open spec fn border_gpu_blocks(segments: Seq<BrushSegment>, size: SizeAu) -> Seq<GpuBlock> {
    header_blocks(size) + segment_gpu_blocks(segments)
}

pub proof fn lemma_segment_blocks_len(segments: Seq<BrushSegment>)
    ensures
        segment_gpu_blocks(segments).len() == 2 * segments.len(),
    decreases segments.len(),
{
    if segments.len() > 0 {
        lemma_segment_blocks_len(segments.drop_last());
    }
}

/// Law (segment ordering stability): the segment list's order is preserved
/// exactly in the GPU block order — segment `i`'s rectangle and auxiliary
/// data stand at block positions `2 * i` and `2 * i + 1` of the groups.
pub proof fn lemma_segment_block_order(segments: Seq<BrushSegment>, i: int)
    requires
        0 <= i < segments.len(),
    ensures
        segment_gpu_blocks(segments).len() == 2 * segments.len(),
        segment_gpu_blocks(segments)[2 * i] == rect_block(segments[i].local_rect),
        segment_gpu_blocks(segments)[2 * i + 1] == segments[i].extra_data,
    decreases segments.len(),
{
    lemma_segment_blocks_len(segments);
    if i == segments.len() - 1 {
        lemma_segment_blocks_len(segments.drop_last());
    } else {
        lemma_segment_block_order(segments.drop_last(), i);
        assert(segments.drop_last()[i] == segments[i]);
    }
}

/// Law (slot layout): a populated slot holds the two white blocks, the
/// size block, and then the segment groups in segment-list order.
pub proof fn lemma_border_block_order(segments: Seq<BrushSegment>, size: SizeAu, i: int)
    requires
        0 <= i < segments.len(),
    ensures
        border_gpu_blocks(segments, size).len() == 3 + 2 * segments.len(),
        border_gpu_blocks(segments, size)[0] == white_block(),
        border_gpu_blocks(segments, size)[1] == white_block(),
        border_gpu_blocks(segments, size)[2] == size_block(size),
        border_gpu_blocks(segments, size)[3 + 2 * i] == rect_block(segments[i].local_rect),
        border_gpu_blocks(segments, size)[4 + 2 * i] == segments[i].extra_data,
{
    lemma_segment_block_order(segments, i);
}

/// Law (idempotent population): one update pass leaves the template's slot
/// valid and holding its block layout, so a second pass in the same frame,
/// without an intervening eviction, changes the cache not at all — it
/// takes the no-writer branch. Both variants' `update` functions ensure
/// that the cache afterwards is `populate_slots` of the cache before.
pub proof fn lemma_update_idempotent(
    slots: Seq<GpuSlotView>,
    h: Option<int>,
    segments: Seq<BrushSegment>,
    size: SizeAu,
)
    requires
        match h {
            Some(i) => 0 <= i < slots.len(),
            None => true,
        },
    ensures
        ({
            let blocks = border_gpu_blocks(segments, size);
            let once = populate_slots(slots, h, blocks);
            let settled = populate_index(slots, h);
            populate_slots(once, Some(settled), blocks) == once
        }),
{
    lemma_populate_idempotent(slots, h, border_gpu_blocks(segments, size));
}

// ------------------------------------------------------------------
// Plain borders.
// ------------------------------------------------------------------

/// The content of one plain border instance: the quantized border
/// description and the four resolved side widths.
#[derive(Clone, Copy, Debug, PartialEq, Eq, Hash, Structural)]
pub struct NormalBorderPrim {
    pub border: NormalBorderAu,
    pub widths: SideOffsetsAu,
}

/// The deduplication key of a plain border: common positioning fields plus
/// the variant content.
#[derive(Clone, Copy, Debug, PartialEq, Eq, Hash, Structural)]
pub struct NormalBorderKey {
    pub common: PrimKeyCommonData,
    pub kind: NormalBorderPrim,
}

/// The key a plain border content and placement determine — a pure
/// function of its arguments.
pub open spec fn normal_border_key_spec(
    border: NormalBorderPrim,
    info: LayoutPrimitiveInfo,
    clip: RectAu,
) -> NormalBorderKey {
    NormalBorderKey { common: key_common_spec(info, clip), kind: border }
}

impl NormalBorderKey {
    pub fn new(
        info: &LayoutPrimitiveInfo,
        prim_relative_clip_rect: RectAu,
        normal_border: NormalBorderPrim,
    ) -> (r: Self)
        ensures
            r == normal_border_key_spec(normal_border, *info, prim_relative_clip_rect),
    {
        NormalBorderKey {
            common: PrimKeyCommonData::with_info(info, prim_relative_clip_rect),
            kind: normal_border,
        }
    }

    /// Construct a primitive instance that matches the type of primitive
    /// key; plain border instances start with an empty range of secondary
    /// cache handles.
    pub fn as_instance_kind(&self, data_handle: NormalBorderDataHandle) -> (r:
        PrimitiveInstanceKind)
        ensures
            r == (PrimitiveInstanceKind::NormalBorder {
                data_handle,
                cache_handles: HandleRange { start: 0, end: 0 },
            }),
    {
        PrimitiveInstanceKind::NormalBorder { data_handle, cache_handles: HandleRange::empty() }
    }
}

impl NormalBorderPrim {
    /// Build the deduplication key from this content and `info`.
    pub fn build_key(self, info: &LayoutPrimitiveInfo, prim_relative_clip_rect: RectAu) -> (r:
        NormalBorderKey)
        ensures
            r == normal_border_key_spec(self, *info, prim_relative_clip_rect),
    {
        NormalBorderKey::new(info, prim_relative_clip_rect, self)
    }

    /// The border under a drop shadow: only the color component of the
    /// style is substituted; widths and all geometry stay bit-identical.
    pub fn create_shadow(&self, shadow: &Shadow) -> (r: Self)
        ensures
            r.border == with_color_spec(self.border, shadow.color),
            r.widths == self.widths,
    {
        NormalBorderPrim { border: self.border.with_color(shadow.color), widths: self.widths }
    }

    /// Border keys are always visible; culling happens upstream.
    pub fn is_visible(&self) -> (r: bool)
        ensures
            r == true,
    {
        true
    }
}

/// Law (determinism): semantically identical plain border descriptions —
/// equal content, placement and clip — yield equal keys.
pub proof fn lemma_build_key_deterministic(
    b1: NormalBorderPrim,
    b2: NormalBorderPrim,
    info1: LayoutPrimitiveInfo,
    info2: LayoutPrimitiveInfo,
    clip1: RectAu,
    clip2: RectAu,
)
    requires
        b1 == b2,
        info1 == info2,
        clip1 == clip2,
    ensures
        normal_border_key_spec(b1, info1, clip1) == normal_border_key_spec(b2, info2, clip2),
{
}

/// The derived representation of one unique plain border: segment lists
/// computed once at construction, never mutated afterward.
pub struct NormalBorderData {
    pub brush_segments: Vec<BrushSegment>,
    pub border_segments: Vec<BorderSegmentInfo>,
    pub border: NormalBorderAu,
    pub widths: SideOffsetsAu,
}

impl NormalBorderData {
    /// Update the GPU cache entry for this interned template. May be
    /// called many times per frame, once per primitive reference sharing
    /// the template; the initial request to the GPU cache ensures work is
    /// only done when the entry is invalid (first use or eviction). Plain
    /// borders always classify translucent.
    pub fn update(
        &mut self,
        common: &mut PrimTemplateCommonData,
        frame_state: &mut FrameBuildingState,
    )
        requires
            handle_wf(old(common).gpu_cache_handle, old(frame_state).gpu_cache@),
        ensures
            *final(self) == *old(self),
            final(common).is_backface_visible == old(common).is_backface_visible,
            final(common).prim_size == old(common).prim_size,
            final(common).opacity == (PrimitiveOpacity { is_opaque: false }),
            slot_of(final(common).gpu_cache_handle) == Some(
                populate_index(
                    old(frame_state).gpu_cache@,
                    slot_of(old(common).gpu_cache_handle),
                ),
            ),
            handle_wf(final(common).gpu_cache_handle, final(frame_state).gpu_cache@),
            final(frame_state).gpu_cache@ == populate_slots(
                old(frame_state).gpu_cache@,
                slot_of(old(common).gpu_cache_handle),
                border_gpu_blocks(old(self).brush_segments@, old(common).prim_size),
            ),
            final(frame_state).resource_cache == old(frame_state).resource_cache,
    {
        let writer_opt = frame_state.gpu_cache.request(&mut common.gpu_cache_handle);
        match writer_opt {
            Some(mut writer) => {
                self.write_prim_gpu_blocks(&mut writer, common.prim_size);
                self.write_segment_gpu_blocks(&mut writer);
                proof {
                    assert(writer.blocks_spec() =~= border_gpu_blocks(
                        self.brush_segments@,
                        common.prim_size,
                    ));
                }
                frame_state.gpu_cache.commit(writer);
                proof {
                    assert(frame_state.gpu_cache@ =~= populate_slots(
                        old(frame_state).gpu_cache@,
                        slot_of(old(common).gpu_cache_handle),
                        border_gpu_blocks(self.brush_segments@, common.prim_size),
                    ));
                }
            },
            None => {},
        }
        common.opacity = PrimitiveOpacity::translucent();
    }

    /// Write the fixed primitive header: two premultiplied white color
    /// blocks, then the size block with two reserved zero lanes.
    fn write_prim_gpu_blocks(&self, request: &mut GpuDataRequest, prim_size: SizeAu)
        ensures
            final(request).blocks_spec() == old(request).blocks_spec() + header_blocks(prim_size),
            final(request).slot_spec() == old(request).slot_spec(),
    {
        request.push(GpuBlock { x: 255, y: 255, z: 255, w: 255 });
        request.push(GpuBlock { x: 255, y: 255, z: 255, w: 255 });
        request.push(GpuBlock { x: prim_size.width, y: prim_size.height, z: 0, w: 0 });
        proof {
            assert(request.blocks_spec() =~= old(request).blocks_spec() + header_blocks(
                prim_size,
            ));
        }
    }

    /// Write one block group per brush segment, in segment-list order.
    fn write_segment_gpu_blocks(&self, request: &mut GpuDataRequest)
        ensures
            final(request).blocks_spec() == old(request).blocks_spec() + segment_gpu_blocks(
                self.brush_segments@,
            ),
            final(request).slot_spec() == old(request).slot_spec(),
    {
        let mut i: usize = 0;
        proof {
            assert(request.blocks_spec() =~= request.blocks_spec() + segment_gpu_blocks(
                self.brush_segments@.take(0),
            ));
        }
        while i < self.brush_segments.len()
            invariant
                i <= self.brush_segments.len(),
                request.blocks_spec() == old(request).blocks_spec() + segment_gpu_blocks(
                    self.brush_segments@.take(i as int),
                ),
                request.slot_spec() == old(request).slot_spec(),
            decreases self.brush_segments.len() - i,
        {
            let segment = self.brush_segments[i];
            request.write_segment(segment.local_rect, segment.extra_data);
            proof {
                let taken = self.brush_segments@.take(i as int + 1);
                assert(taken.drop_last() =~= self.brush_segments@.take(i as int));
                assert(taken.last() == self.brush_segments@[i as int]);
                assert(request.blocks_spec() =~= old(request).blocks_spec() + segment_gpu_blocks(
                    taken,
                ));
            }
            i += 1;
        }
        proof {
            assert(self.brush_segments@.take(i as int) =~= self.brush_segments@);
        }
    }
}

/// The cached template of one unique plain border key.
pub struct NormalBorderTemplate {
    pub common: PrimTemplateCommonData,
    pub kind: NormalBorderData,
}

impl NormalBorderTemplate {
    /// Build the template for a key, once per unique key: normalize the
    /// style against the widths (so degenerate widths collapse before
    /// decomposition), then decompose the box into segments. Opacity is
    /// fixed translucent: plain borders are never classified opaque, since
    /// antialiased edges may blend.
    pub fn from(key: NormalBorderKey) -> (r: Self)
        requires
            border_geometry_wf(key.common.prim_size, key.kind.widths),
        ensures
            r.common.is_backface_visible == key.common.is_backface_visible,
            r.common.prim_size == key.common.prim_size,
            r.common.opacity == (PrimitiveOpacity { is_opaque: false }),
            r.common.gpu_cache_handle == (GpuCacheHandle { slot: None::<usize> }),
            r.kind.border == normalize_spec(key.kind.border, key.kind.widths),
            r.kind.widths == key.kind.widths,
            r.kind.border_segments@ == plain_border_segments(
                normalize_spec(key.kind.border, key.kind.widths),
                key.common.prim_size,
                key.kind.widths,
            ),
            r.kind.brush_segments@ == plain_brush_segments(
                normalize_spec(key.kind.border, key.kind.widths),
                key.common.prim_size,
                key.kind.widths,
            ),
    {
        let common = PrimTemplateCommonData::with_key_common(key.common);

        let mut border = key.kind.border;
        let widths = key.kind.widths;

        // Normalization must precede decomposition so that degenerate or
        // zero widths collapse predictably.
        border.normalize(&widths);

        let mut brush_segments: Vec<BrushSegment> = Vec::new();
        let mut border_segments: Vec<BorderSegmentInfo> = Vec::new();

        create_border_segments(
            common.prim_size,
            &border,
            &widths,
            &mut border_segments,
            &mut brush_segments,
        );
        proof {
            assert(border_segments@ =~= plain_border_segments(
                normalize_spec(key.kind.border, key.kind.widths),
                key.common.prim_size,
                key.kind.widths,
            ));
            assert(brush_segments@ =~= plain_brush_segments(
                normalize_spec(key.kind.border, key.kind.widths),
                key.common.prim_size,
                key.kind.widths,
            ));
        }

        NormalBorderTemplate {
            common,
            kind: NormalBorderData { brush_segments, border_segments, border, widths },
        }
    }
}

/// Marker tying plain border keys to their interned data.
#[derive(Clone, Copy, Debug, Hash, Eq, PartialEq, Structural)]
pub struct NormalBorderDataMarker;

/// The deduplicating interning table for plain border keys. Its model is
/// the sequence of unique keys in first-seen order; a handle is an index
/// into it.
pub struct NormalBorderDataInterner {
    keys: Vec<NormalBorderKey>,
    reported: usize,
}

impl NormalBorderDataInterner {
    /// The unique keys interned so far, in first-seen order.
    pub closed spec fn keys_view(self) -> Seq<NormalBorderKey> {
        self.keys@
    }

    /// How many entries the last `updates` cycle already reported.
    pub closed spec fn reported_spec(self) -> int {
        self.reported as int
    }

    pub open spec fn wf(self) -> bool {
        &&& keys_distinct(self.keys_view())
        &&& 0 <= self.reported_spec() <= self.keys_view().len()
    }

    pub fn new() -> (r: Self)
        ensures
            r.wf(),
            r.keys_view() == Seq::<NormalBorderKey>::empty(),
            r.reported_spec() == 0,
    {
        NormalBorderDataInterner { keys: Vec::new(), reported: 0 }
    }

    /// Intern a key: the handle of its first occurrence, appending the key
    /// when it is new. Equal keys share one handle; the table never holds
    /// a key twice.
    pub fn intern(&mut self, key: NormalBorderKey) -> (h: NormalBorderDataHandle)
        requires
            old(self).wf(),
        ensures
            final(self).wf(),
            final(self).keys_view() == intern_keys(old(self).keys_view(), key),
            h.index as int == key_index(old(self).keys_view(), key),
            h.index < final(self).keys_view().len(),
            final(self).keys_view()[h.index as int] == key,
            final(self).reported_spec() == old(self).reported_spec(),
    {
        let mut i: usize = 0;
        while i < self.keys.len()
            invariant
                old(self).wf(),
                i <= self.keys.len(),
                self.keys@ == old(self).keys@,
                self.reported == old(self).reported,
                forall|j: int| 0 <= j < i ==> self.keys@[j] != key,
            decreases self.keys.len() - i,
        {
            if self.keys[i] == key {
                proof {
                    lemma_key_index_found(self.keys@, key, i as int);
                    assert(self.keys@.contains(key));
                }
                return NormalBorderDataHandle { index: i };
            }
            i += 1;
        }
        proof {
            assert(!self.keys@.contains(key)) by {
                if self.keys@.contains(key) {
                    let w = choose|w: int| 0 <= w < self.keys@.len() && self.keys@[w] == key;
                    assert(self.keys@[w] != key);
                }
            }
            lemma_key_index_absent(self.keys@, key);
        }
        let index = self.keys.len();
        self.keys.push(key);
        proof {
            assert forall|a: int, b: int|
                0 <= a < b < self.keys@.len() implies self.keys@[a] != self.keys@[b] by {
                if b == self.keys@.len() - 1 {
                    if old(self).keys@[a] == key {
                        assert(old(self).keys@.contains(key));
                    }
                }
            }
        }
        NormalBorderDataHandle { index }
    }

    /// The entries added since the last cycle, as handle and key pairs in
    /// first-seen order; the cycle mark moves to the end of the table.
    pub fn updates(&mut self) -> (r: Vec<(NormalBorderDataHandle, NormalBorderKey)>)
        requires
            old(self).wf(),
        ensures
            final(self).wf(),
            final(self).keys_view() == old(self).keys_view(),
            final(self).reported_spec() == old(self).keys_view().len(),
            r@.len() == old(self).keys_view().len() - old(self).reported_spec(),
            forall|j: int|
                0 <= j < r@.len() ==> r@[j].0.index as int == old(self).reported_spec() + j
                    && r@[j].1 == old(self).keys_view()[old(self).reported_spec() + j],
    {
        let mut r: Vec<(NormalBorderDataHandle, NormalBorderKey)> = Vec::new();
        let mut i: usize = self.reported;
        while i < self.keys.len()
            invariant
                old(self).reported <= i <= self.keys@.len(),
                self.keys@ == old(self).keys@,
                self.reported == old(self).reported,
                r@.len() == i - old(self).reported,
                forall|j: int|
                    0 <= j < r@.len() ==> r@[j].0.index as int == old(self).reported + j
                        && r@[j].1 == self.keys@[old(self).reported + j],
            decreases self.keys.len() - i,
        {
            r.push((NormalBorderDataHandle { index: i }, self.keys[i]));
            i += 1;
        }
        self.reported = self.keys.len();
        r
    }
}

// ------------------------------------------------------------------
// Image borders.
// ------------------------------------------------------------------

/// The content of one image border instance: the image resource request
/// and the nine-patch slicing descriptor.
#[derive(Clone, Copy, Debug, PartialEq, Eq, Hash, Structural)]
pub struct ImageBorder {
    pub request: ImageRequest,
    pub nine_patch: NinePatchDescriptor,
}

/// The deduplication key of an image border.
#[derive(Clone, Copy, Debug, PartialEq, Eq, Hash, Structural)]
pub struct ImageBorderKey {
    pub common: PrimKeyCommonData,
    pub kind: ImageBorder,
}

/// The key an image border content and placement determine — a pure
/// function of its arguments.
pub open spec fn image_border_key_spec(
    border: ImageBorder,
    info: LayoutPrimitiveInfo,
    clip: RectAu,
) -> ImageBorderKey {
    ImageBorderKey { common: key_common_spec(info, clip), kind: border }
}

impl ImageBorderKey {
    pub fn new(
        info: &LayoutPrimitiveInfo,
        prim_relative_clip_rect: RectAu,
        image_border: ImageBorder,
    ) -> (r: Self)
        ensures
            r == image_border_key_spec(image_border, *info, prim_relative_clip_rect),
    {
        ImageBorderKey {
            common: PrimKeyCommonData::with_info(info, prim_relative_clip_rect),
            kind: image_border,
        }
    }

    /// Construct a primitive instance that matches the type of primitive
    /// key.
    pub fn as_instance_kind(&self, data_handle: ImageBorderDataHandle) -> (r:
        PrimitiveInstanceKind)
        ensures
            r == (PrimitiveInstanceKind::ImageBorder { data_handle }),
    {
        PrimitiveInstanceKind::ImageBorder { data_handle }
    }
}

impl ImageBorder {
    /// Build the deduplication key from this content and `info`.
    pub fn build_key(self, info: &LayoutPrimitiveInfo, prim_relative_clip_rect: RectAu) -> (r:
        ImageBorderKey)
        ensures
            r == image_border_key_spec(self, *info, prim_relative_clip_rect),
    {
        ImageBorderKey::new(info, prim_relative_clip_rect, self)
    }

    /// Border keys are always visible; culling happens upstream.
    pub fn is_visible(&self) -> (r: bool)
        ensures
            r == true,
    {
        true
    }
}

/// Law (determinism): semantically identical image border descriptions
/// yield equal keys.
pub proof fn lemma_build_image_key_deterministic(
    b1: ImageBorder,
    b2: ImageBorder,
    info1: LayoutPrimitiveInfo,
    info2: LayoutPrimitiveInfo,
    clip1: RectAu,
    clip2: RectAu,
)
    requires
        b1 == b2,
        info1 == info2,
        clip1 == clip2,
    ensures
        image_border_key_spec(b1, info1, clip1) == image_border_key_spec(b2, info2, clip2),
{
}

/// The derived representation of one unique image border: the resource
/// request and the nine-patch segment list, computed once at construction.
pub struct ImageBorderData {
    pub request: ImageRequest,
    pub brush_segments: Vec<BrushSegment>,
}

impl ImageBorderData {
    /// Update the GPU cache entry for this interned template, then resolve
    /// opacity: a resolved image classifies by its descriptor's opaque
    /// flag and has its pixels requested for upload this frame; an
    /// unresolved image classifies opaque as the fail-safe default.
    pub fn update(
        &mut self,
        common: &mut PrimTemplateCommonData,
        frame_state: &mut FrameBuildingState,
    )
        requires
            handle_wf(old(common).gpu_cache_handle, old(frame_state).gpu_cache@),
        ensures
            *final(self) == *old(self),
            final(common).is_backface_visible == old(common).is_backface_visible,
            final(common).prim_size == old(common).prim_size,
            slot_of(final(common).gpu_cache_handle) == Some(
                populate_index(
                    old(frame_state).gpu_cache@,
                    slot_of(old(common).gpu_cache_handle),
                ),
            ),
            handle_wf(final(common).gpu_cache_handle, final(frame_state).gpu_cache@),
            final(frame_state).gpu_cache@ == populate_slots(
                old(frame_state).gpu_cache@,
                slot_of(old(common).gpu_cache_handle),
                border_gpu_blocks(old(self).brush_segments@, old(common).prim_size),
            ),
            final(frame_state).resource_cache.images_view() == old(
                frame_state,
            ).resource_cache.images_view(),
            ({
                match lookup_image(
                    old(frame_state).resource_cache.images_view(),
                    old(self).request.key,
                ) {
                    Some(d) => final(common).opacity == (PrimitiveOpacity {
                        is_opaque: d.is_opaque,
                    }) && final(frame_state).resource_cache.requested_view() == old(
                        frame_state,
                    ).resource_cache.requested_view().push(old(self).request.key),
                    None => final(common).opacity == (PrimitiveOpacity { is_opaque: true })
                        && final(frame_state).resource_cache.requested_view() == old(
                        frame_state,
                    ).resource_cache.requested_view(),
                }
            }),
    {
        let writer_opt = frame_state.gpu_cache.request(&mut common.gpu_cache_handle);
        match writer_opt {
            Some(mut writer) => {
                self.write_prim_gpu_blocks(&mut writer, common.prim_size);
                self.write_segment_gpu_blocks(&mut writer);
                proof {
                    assert(writer.blocks_spec() =~= border_gpu_blocks(
                        self.brush_segments@,
                        common.prim_size,
                    ));
                }
                frame_state.gpu_cache.commit(writer);
                proof {
                    assert(frame_state.gpu_cache@ =~= populate_slots(
                        old(frame_state).gpu_cache@,
                        slot_of(old(common).gpu_cache_handle),
                        border_gpu_blocks(self.brush_segments@, common.prim_size),
                    ));
                }
            },
            None => {},
        }

        let image_properties = frame_state.resource_cache.get_image_properties(self.request.key);
        match image_properties {
            Some(props) => {
                frame_state.resource_cache.request_image(
                    self.request,
                    &mut frame_state.gpu_cache,
                );
                common.opacity = PrimitiveOpacity { is_opaque: props.descriptor.is_opaque };
            },
            None => {
                common.opacity = PrimitiveOpacity::opaque();
            },
        }
    }

    /// Write the fixed primitive header: two premultiplied white color
    /// blocks, then the size block with two reserved zero lanes.
    fn write_prim_gpu_blocks(&self, request: &mut GpuDataRequest, prim_size: SizeAu)
        ensures
            final(request).blocks_spec() == old(request).blocks_spec() + header_blocks(prim_size),
            final(request).slot_spec() == old(request).slot_spec(),
    {
        request.push(GpuBlock { x: 255, y: 255, z: 255, w: 255 });
        request.push(GpuBlock { x: 255, y: 255, z: 255, w: 255 });
        request.push(GpuBlock { x: prim_size.width, y: prim_size.height, z: 0, w: 0 });
        proof {
            assert(request.blocks_spec() =~= old(request).blocks_spec() + header_blocks(
                prim_size,
            ));
        }
    }

    /// Write one block group per brush segment, in segment-list order.
    fn write_segment_gpu_blocks(&self, request: &mut GpuDataRequest)
        ensures
            final(request).blocks_spec() == old(request).blocks_spec() + segment_gpu_blocks(
                self.brush_segments@,
            ),
            final(request).slot_spec() == old(request).slot_spec(),
    {
        let mut i: usize = 0;
        proof {
            assert(request.blocks_spec() =~= request.blocks_spec() + segment_gpu_blocks(
                self.brush_segments@.take(0),
            ));
        }
        while i < self.brush_segments.len()
            invariant
                i <= self.brush_segments.len(),
                request.blocks_spec() == old(request).blocks_spec() + segment_gpu_blocks(
                    self.brush_segments@.take(i as int),
                ),
                request.slot_spec() == old(request).slot_spec(),
            decreases self.brush_segments.len() - i,
        {
            let segment = self.brush_segments[i];
            request.write_segment(segment.local_rect, segment.extra_data);
            proof {
                let taken = self.brush_segments@.take(i as int + 1);
                assert(taken.drop_last() =~= self.brush_segments@.take(i as int));
                assert(taken.last() == self.brush_segments@[i as int]);
                assert(request.blocks_spec() =~= old(request).blocks_spec() + segment_gpu_blocks(
                    taken,
                ));
            }
            i += 1;
        }
        proof {
            assert(self.brush_segments@.take(i as int) =~= self.brush_segments@);
        }
    }
}

/// The cached template of one unique image border key.
pub struct ImageBorderTemplate {
    pub common: PrimTemplateCommonData,
    pub kind: ImageBorderData,
}

impl ImageBorderTemplate {
    /// Build the template for a key, once per unique key: slice the box by
    /// the nine-patch descriptor. Opacity is deferred to population, since
    /// it depends on the resolved image resource.
    pub fn from(key: ImageBorderKey) -> (r: Self)
        requires
            nine_patch_wf(key.kind.nine_patch.slice, key.common.prim_size),
        ensures
            r.common.is_backface_visible == key.common.is_backface_visible,
            r.common.prim_size == key.common.prim_size,
            r.common.opacity == (PrimitiveOpacity { is_opaque: false }),
            r.common.gpu_cache_handle == (GpuCacheHandle { slot: None::<usize> }),
            r.kind.request == key.kind.request,
            r.kind.brush_segments@ == nine_patch_segments(
                key.kind.nine_patch,
                key.common.prim_size,
            ),
    {
        let common = PrimTemplateCommonData::with_key_common(key.common);

        let brush_segments = key.kind.nine_patch.create_segments(common.prim_size);
        ImageBorderTemplate {
            common,
            kind: ImageBorderData { request: key.kind.request, brush_segments },
        }
    }
}

/// Marker tying image border keys to their interned data.
#[derive(Clone, Copy, Debug, Hash, Eq, PartialEq, Structural)]
pub struct ImageBorderDataMarker;

/// The deduplicating interning table for image border keys; the same model
/// and laws as the plain border table.
pub struct ImageBorderDataInterner {
    keys: Vec<ImageBorderKey>,
    reported: usize,
}

impl ImageBorderDataInterner {
    /// The unique keys interned so far, in first-seen order.
    pub closed spec fn keys_view(self) -> Seq<ImageBorderKey> {
        self.keys@
    }

    /// How many entries the last `updates` cycle already reported.
    pub closed spec fn reported_spec(self) -> int {
        self.reported as int
    }

    pub open spec fn wf(self) -> bool {
        &&& keys_distinct(self.keys_view())
        &&& 0 <= self.reported_spec() <= self.keys_view().len()
    }

    pub fn new() -> (r: Self)
        ensures
            r.wf(),
            r.keys_view() == Seq::<ImageBorderKey>::empty(),
            r.reported_spec() == 0,
    {
        ImageBorderDataInterner { keys: Vec::new(), reported: 0 }
    }

    /// Intern a key: the handle of its first occurrence, appending the key
    /// when it is new.
    pub fn intern(&mut self, key: ImageBorderKey) -> (h: ImageBorderDataHandle)
        requires
            old(self).wf(),
        ensures
            final(self).wf(),
            final(self).keys_view() == intern_keys(old(self).keys_view(), key),
            h.index as int == key_index(old(self).keys_view(), key),
            h.index < final(self).keys_view().len(),
            final(self).keys_view()[h.index as int] == key,
            final(self).reported_spec() == old(self).reported_spec(),
    {
        let mut i: usize = 0;
        while i < self.keys.len()
            invariant
                old(self).wf(),
                i <= self.keys.len(),
                self.keys@ == old(self).keys@,
                self.reported == old(self).reported,
                forall|j: int| 0 <= j < i ==> self.keys@[j] != key,
            decreases self.keys.len() - i,
        {
            if self.keys[i] == key {
                proof {
                    lemma_key_index_found(self.keys@, key, i as int);
                    assert(self.keys@.contains(key));
                }
                return ImageBorderDataHandle { index: i };
            }
            i += 1;
        }
        proof {
            assert(!self.keys@.contains(key)) by {
                if self.keys@.contains(key) {
                    let w = choose|w: int| 0 <= w < self.keys@.len() && self.keys@[w] == key;
                    assert(self.keys@[w] != key);
                }
            }
            lemma_key_index_absent(self.keys@, key);
        }
        let index = self.keys.len();
        self.keys.push(key);
        proof {
            assert forall|a: int, b: int|
                0 <= a < b < self.keys@.len() implies self.keys@[a] != self.keys@[b] by {
                if b == self.keys@.len() - 1 {
                    if old(self).keys@[a] == key {
                        assert(old(self).keys@.contains(key));
                    }
                }
            }
        }
        ImageBorderDataHandle { index }
    }

    /// The entries added since the last cycle, as handle and key pairs in
    /// first-seen order; the cycle mark moves to the end of the table.
    pub fn updates(&mut self) -> (r: Vec<(ImageBorderDataHandle, ImageBorderKey)>)
        requires
            old(self).wf(),
        ensures
            final(self).wf(),
            final(self).keys_view() == old(self).keys_view(),
            final(self).reported_spec() == old(self).keys_view().len(),
            r@.len() == old(self).keys_view().len() - old(self).reported_spec(),
            forall|j: int|
                0 <= j < r@.len() ==> r@[j].0.index as int == old(self).reported_spec() + j
                    && r@[j].1 == old(self).keys_view()[old(self).reported_spec() + j],
    {
        let mut r: Vec<(ImageBorderDataHandle, ImageBorderKey)> = Vec::new();
        let mut i: usize = self.reported;
        while i < self.keys.len()
            invariant
                old(self).reported <= i <= self.keys@.len(),
                self.keys@ == old(self).keys@,
                self.reported == old(self).reported,
                r@.len() == i - old(self).reported,
                forall|j: int|
                    0 <= j < r@.len() ==> r@[j].0.index as int == old(self).reported + j
                        && r@[j].1 == self.keys@[old(self).reported + j],
            decreases self.keys.len() - i,
        {
            r.push((ImageBorderDataHandle { index: i }, self.keys[i]));
            i += 1;
        }
        self.reported = self.keys.len();
        r
    }
}

} // verus!
