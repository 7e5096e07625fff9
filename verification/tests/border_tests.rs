use border_cache::border::{BorderRadiusAu, BorderSideAu, BorderStyle, NormalBorderAu};
use border_cache::borders::{
    ImageBorder, ImageBorderDataInterner, ImageBorderTemplate, NormalBorderDataInterner,
    NormalBorderKey, NormalBorderPrim, NormalBorderTemplate,
};
use border_cache::frame::FrameBuildingState;
use border_cache::gpu_cache::GpuBlock;
use border_cache::prim_store::{NinePatchDescriptor, PrimitiveInstanceKind};
use border_cache::resource_cache::{ImageDescriptor, ImageKey, ImageRendering, ImageRequest};
use border_cache::units::{
    ColorU, LayoutPrimitiveInfo, RectAu, Shadow, SideOffsetsAu, SizeAu, VectorAu,
};
use std::collections::hash_map::DefaultHasher;
use std::hash::{Hash, Hasher};

fn color(r: u8, g: u8, b: u8, a: u8) -> ColorU {
    ColorU { r, g, b, a }
}

fn side(style: BorderStyle) -> BorderSideAu {
    BorderSideAu { color: color(10, 20, 30, 255), style }
}

fn no_radius() -> BorderRadiusAu {
    let z = SizeAu { width: 0, height: 0 };
    BorderRadiusAu { top_left: z, top_right: z, bottom_left: z, bottom_right: z }
}

fn uniform_border(style: BorderStyle) -> NormalBorderAu {
    NormalBorderAu {
        left: side(style),
        right: side(style),
        top: side(style),
        bottom: side(style),
        radius: no_radius(),
        do_aa: true,
    }
}

fn offsets(top: i32, right: i32, bottom: i32, left: i32) -> SideOffsetsAu {
    SideOffsetsAu { top, right, bottom, left }
}

fn rect(x: i32, y: i32, w: i32, h: i32) -> RectAu {
    RectAu { x, y, width: w, height: h }
}

fn info_10x10() -> LayoutPrimitiveInfo {
    LayoutPrimitiveInfo {
        rect: rect(0, 0, 10, 10),
        clip_rect: rect(0, 0, 10, 10),
        is_backface_visible: true,
    }
}

fn plain_prim() -> NormalBorderPrim {
    NormalBorderPrim { border: uniform_border(BorderStyle::Solid), widths: offsets(2, 2, 2, 2) }
}

fn plain_key() -> NormalBorderKey {
    plain_prim().build_key(&info_10x10(), rect(0, 0, 10, 10))
}

fn image_request(id: u64) -> ImageRequest {
    ImageRequest { key: ImageKey { id }, rendering: ImageRendering::Auto }
}

fn image_border(id: u64) -> ImageBorder {
    ImageBorder {
        request: image_request(id),
        nine_patch: NinePatchDescriptor {
            width: 12,
            height: 12,
            slice: offsets(3, 3, 3, 3),
            fill: false,
        },
    }
}

fn hash_of<T: Hash>(value: &T) -> u64 {
    let mut hasher = DefaultHasher::new();
    value.hash(&mut hasher);
    hasher.finish()
}

#[test]
fn build_key_is_deterministic() {
    let k1 = plain_prim().build_key(&info_10x10(), rect(0, 0, 10, 10));
    let k2 = plain_prim().build_key(&info_10x10(), rect(0, 0, 10, 10));
    assert_eq!(k1, k2);
    assert_eq!(hash_of(&k1), hash_of(&k2));

    let b1 = image_border(7).build_key(&info_10x10(), rect(0, 0, 10, 10));
    let b2 = image_border(7).build_key(&info_10x10(), rect(0, 0, 10, 10));
    assert_eq!(b1, b2);
    assert_eq!(hash_of(&b1), hash_of(&b2));
}

#[test]
fn build_key_copies_placement() {
    let key = plain_key();
    assert_eq!(key.common.prim_size, SizeAu { width: 10, height: 10 });
    assert_eq!(key.common.prim_relative_clip_rect, rect(0, 0, 10, 10));
    assert!(key.common.is_backface_visible);
    assert_eq!(key.kind, plain_prim());
}

#[test]
fn intern_same_key_yields_same_handle() {
    let mut interner = NormalBorderDataInterner::new();
    let h1 = interner.intern(plain_key());
    let h2 = interner.intern(plain_key());
    assert_eq!(h1, h2);
}

#[test]
fn intern_distinct_keys_yield_distinct_handles() {
    let mut interner = NormalBorderDataInterner::new();
    let h1 = interner.intern(plain_key());
    let mut other = plain_prim();
    other.widths = offsets(1, 1, 1, 1);
    let h2 = interner.intern(other.build_key(&info_10x10(), rect(0, 0, 10, 10)));
    assert_ne!(h1, h2);

    let mut images = ImageBorderDataInterner::new();
    let g1 = images.intern(image_border(1).build_key(&info_10x10(), rect(0, 0, 10, 10)));
    let g1b = images.intern(image_border(1).build_key(&info_10x10(), rect(0, 0, 10, 10)));
    let g2 = images.intern(image_border(2).build_key(&info_10x10(), rect(0, 0, 10, 10)));
    assert_eq!(g1, g1b);
    assert_ne!(g1, g2);
}

#[test]
fn interner_reports_added_entries_once() {
    let mut interner = NormalBorderDataInterner::new();
    let h1 = interner.intern(plain_key());
    let mut other = plain_prim();
    other.widths = offsets(3, 3, 3, 3);
    let other_key = other.build_key(&info_10x10(), rect(0, 0, 10, 10));
    let h2 = interner.intern(other_key);
    let added = interner.updates();
    assert_eq!(added.len(), 2);
    assert_eq!(added[0].0, h1);
    assert_eq!(added[0].1, plain_key());
    assert_eq!(added[1].0, h2);
    assert_eq!(added[1].1, other_key);

    // A second cycle with nothing new reports nothing; re-interning an
    // existing key adds nothing either.
    interner.intern(plain_key());
    assert_eq!(interner.updates().len(), 0);
}

#[test]
fn update_populates_once_per_invalidation() {
    let template = NormalBorderTemplate::from(plain_key());
    let mut common = template.common;
    let mut data = template.kind;
    let mut frame = FrameBuildingState::new();

    data.update(&mut common, &mut frame);
    let slot = common.gpu_cache_handle.slot.expect("slot assigned on first update");
    assert!(frame.gpu_cache.slot_is_populated(slot));
    let blocks_written = frame.gpu_cache.slot_block_count(slot);
    assert!(blocks_written > 0);

    // Same frame, no eviction: the request takes the no-writer branch.
    assert!(frame.gpu_cache.request(&mut common.gpu_cache_handle).is_none());
    data.update(&mut common, &mut frame);
    assert_eq!(common.gpu_cache_handle.slot, Some(slot));
    assert_eq!(frame.gpu_cache.slot_block_count(slot), blocks_written);
    assert_eq!(frame.gpu_cache.slot_count(), 1);

    // After an eviction the slot is rebuilt in place.
    frame.gpu_cache.evict(&common.gpu_cache_handle);
    assert!(!frame.gpu_cache.slot_is_populated(slot));
    data.update(&mut common, &mut frame);
    assert!(frame.gpu_cache.slot_is_populated(slot));
    assert_eq!(frame.gpu_cache.slot_block_count(slot), blocks_written);
    assert_eq!(frame.gpu_cache.slot_count(), 1);
}

#[test]
fn slot_blocks_match_fixed_layout_and_segment_order() {
    let template = NormalBorderTemplate::from(plain_key());
    let mut common = template.common;
    let mut data = template.kind;
    let mut frame = FrameBuildingState::new();
    data.update(&mut common, &mut frame);
    let slot = common.gpu_cache_handle.slot.unwrap();

    let white = GpuBlock { x: 255, y: 255, z: 255, w: 255 };
    assert_eq!(frame.gpu_cache.slot_block(slot, 0), white);
    assert_eq!(frame.gpu_cache.slot_block(slot, 1), white);
    assert_eq!(frame.gpu_cache.slot_block(slot, 2), GpuBlock { x: 10, y: 10, z: 0, w: 0 });

    let segments = &data.brush_segments;
    assert_eq!(frame.gpu_cache.slot_block_count(slot), 3 + 2 * segments.len());
    for (i, segment) in segments.iter().enumerate() {
        let r = segment.local_rect;
        assert_eq!(
            frame.gpu_cache.slot_block(slot, 3 + 2 * i),
            GpuBlock { x: r.x, y: r.y, z: r.width, w: r.height },
        );
        assert_eq!(frame.gpu_cache.slot_block(slot, 3 + 2 * i + 1), segment.extra_data);
    }
}

#[test]
fn plain_template_classifies_translucent() {
    let template = NormalBorderTemplate::from(plain_key());
    let mut common = template.common;
    let mut data = template.kind;
    let mut frame = FrameBuildingState::new();
    data.update(&mut common, &mut frame);
    assert!(!common.opacity.is_opaque);
}

#[test]
fn image_template_opacity_follows_resource() {
    let key = image_border(9).build_key(&info_10x10(), rect(0, 0, 10, 10));

    // Unresolved resource: fail-safe opaque, and no upload request.
    let template = ImageBorderTemplate::from(key);
    let mut common = template.common;
    let mut data = template.kind;
    let mut frame = FrameBuildingState::new();
    data.update(&mut common, &mut frame);
    assert!(common.opacity.is_opaque);
    assert_eq!(frame.resource_cache.requested_count(), 0);

    // Resolved, descriptor not opaque: translucent, pixels requested.
    let template = ImageBorderTemplate::from(key);
    let mut common = template.common;
    let mut data = template.kind;
    let mut frame = FrameBuildingState::new();
    frame.resource_cache.add_image(
        ImageKey { id: 9 },
        ImageDescriptor { size: SizeAu { width: 12, height: 12 }, is_opaque: false },
    );
    data.update(&mut common, &mut frame);
    assert!(!common.opacity.is_opaque);
    assert_eq!(frame.resource_cache.requested_count(), 1);
    assert_eq!(frame.resource_cache.requested_key(0), ImageKey { id: 9 });

    // Resolved, descriptor opaque: opaque.
    let template = ImageBorderTemplate::from(key);
    let mut common = template.common;
    let mut data = template.kind;
    let mut frame = FrameBuildingState::new();
    frame.resource_cache.add_image(
        ImageKey { id: 9 },
        ImageDescriptor { size: SizeAu { width: 12, height: 12 }, is_opaque: true },
    );
    data.update(&mut common, &mut frame);
    assert!(common.opacity.is_opaque);
    assert_eq!(frame.resource_cache.requested_count(), 1);
}

#[test]
fn resource_lookup_misses_on_empty_cache() {
    let frame = FrameBuildingState::new();
    assert!(frame.resource_cache.get_image_properties(ImageKey { id: 1 }).is_none());
}

#[test]
fn shadow_substitutes_only_the_color() {
    let prim = plain_prim();
    let shadow = Shadow { color: color(200, 0, 0, 128), offset: VectorAu { x: 1, y: 1 } };
    let shadowed = prim.create_shadow(&shadow);

    assert_eq!(shadowed.widths, prim.widths);
    assert_eq!(shadowed.border.radius, prim.border.radius);
    assert_eq!(shadowed.border.do_aa, prim.border.do_aa);
    assert_eq!(shadowed.border.left.style, prim.border.left.style);
    assert_eq!(shadowed.border.right.style, prim.border.right.style);
    assert_eq!(shadowed.border.top.style, prim.border.top.style);
    assert_eq!(shadowed.border.bottom.style, prim.border.bottom.style);
    assert_eq!(shadowed.border.left.color, shadow.color);
    assert_eq!(shadowed.border.right.color, shadow.color);
    assert_eq!(shadowed.border.top.color, shadow.color);
    assert_eq!(shadowed.border.bottom.color, shadow.color);
}

#[test]
fn border_keys_are_always_visible() {
    assert!(plain_prim().is_visible());
    assert!(image_border(4).is_visible());
}

#[test]
fn instance_kind_matches_key_variant() {
    let mut normals = NormalBorderDataInterner::new();
    let key = plain_key();
    let handle = normals.intern(key);
    match key.as_instance_kind(handle) {
        PrimitiveInstanceKind::NormalBorder { data_handle, cache_handles } => {
            assert_eq!(data_handle, handle);
            assert_eq!(cache_handles.start, 0);
            assert_eq!(cache_handles.end, 0);
        }
        PrimitiveInstanceKind::ImageBorder { .. } => panic!("wrong instance variant"),
    }

    let mut images = ImageBorderDataInterner::new();
    let image_key = image_border(3).build_key(&info_10x10(), rect(0, 0, 10, 10));
    let image_handle = images.intern(image_key);
    assert!(matches!(
        image_key.as_instance_kind(image_handle),
        PrimitiveInstanceKind::ImageBorder { data_handle } if data_handle == image_handle
    ));
}

fn ring_covered(segments: &[border_cache::prim_store::BrushSegment], size: i32, width: i32) {
    for x in 0..size {
        for y in 0..size {
            let in_ring = x < width || y < width || x >= size - width || y >= size - width;
            if in_ring {
                let covered = segments.iter().any(|s| {
                    let r = s.local_rect;
                    x >= r.x && x < r.x + r.width && y >= r.y && y < r.y + r.height
                });
                assert!(covered, "ring cell ({}, {}) uncovered", x, y);
            }
        }
    }
}

#[test]
fn plain_solid_border_decomposes_into_eight_segments() {
    let template = NormalBorderTemplate::from(plain_key());
    let segments = &template.kind.brush_segments;
    assert_eq!(segments.len(), 8);

    // Builder order: the four corners, then the four edges.
    let expected = [
        rect(0, 0, 2, 2),  // top-left corner
        rect(8, 0, 2, 2),  // top-right corner
        rect(0, 8, 2, 2),  // bottom-left corner
        rect(8, 8, 2, 2),  // bottom-right corner
        rect(0, 2, 2, 6),  // left edge
        rect(2, 0, 6, 2),  // top edge
        rect(8, 2, 2, 6),  // right edge
        rect(2, 8, 6, 2),  // bottom edge
    ];
    for (segment, want) in segments.iter().zip(expected.iter()) {
        assert_eq!(segment.local_rect, *want);
    }
    assert_eq!(template.kind.border_segments.len(), 8);
    for (info, brush) in template.kind.border_segments.iter().zip(segments.iter()) {
        assert_eq!(info.local_rect, brush.local_rect);
    }

    ring_covered(segments, 10, 2);
}

#[test]
fn zero_width_side_collapses_before_decomposition() {
    let mut prim = plain_prim();
    prim.widths = offsets(2, 2, 0, 2);
    let template = NormalBorderTemplate::from(prim.build_key(&info_10x10(), rect(0, 0, 10, 10)));

    assert_eq!(template.kind.border.bottom.style, BorderStyle::Hidden);
    assert_eq!(template.kind.border.top.style, BorderStyle::Solid);

    let rects: Vec<RectAu> =
        template.kind.brush_segments.iter().map(|s| s.local_rect).collect();
    let expected = vec![
        rect(0, 0, 2, 2),   // top-left corner
        rect(8, 0, 2, 2),   // top-right corner
        rect(0, 2, 2, 8),   // left edge, running to the bottom
        rect(2, 0, 6, 2),   // top edge
        rect(8, 2, 2, 8),   // right edge, running to the bottom
    ];
    assert_eq!(rects, expected);
}

#[test]
fn hidden_style_side_emits_no_segments() {
    let mut border = uniform_border(BorderStyle::Solid);
    border.top.style = BorderStyle::Hidden;
    let prim = NormalBorderPrim { border, widths: offsets(2, 2, 2, 2) };
    let template = NormalBorderTemplate::from(prim.build_key(&info_10x10(), rect(0, 0, 10, 10)));

    let rects: Vec<RectAu> =
        template.kind.brush_segments.iter().map(|s| s.local_rect).collect();
    let expected = vec![
        rect(0, 8, 2, 2),  // bottom-left corner
        rect(8, 8, 2, 2),  // bottom-right corner
        rect(0, 2, 2, 6),  // left edge
        rect(8, 2, 2, 6),  // right edge
        rect(2, 8, 6, 2),  // bottom edge
    ];
    assert_eq!(rects, expected);
}

#[test]
fn nine_patch_slices_into_eight_cells_without_fill() {
    let info = LayoutPrimitiveInfo {
        rect: rect(0, 0, 12, 12),
        clip_rect: rect(0, 0, 12, 12),
        is_backface_visible: true,
    };
    let key = image_border(5).build_key(&info, rect(0, 0, 12, 12));
    let template = ImageBorderTemplate::from(key);
    let rects: Vec<RectAu> =
        template.kind.brush_segments.iter().map(|s| s.local_rect).collect();
    let expected = vec![
        rect(0, 0, 3, 3),
        rect(3, 0, 6, 3),
        rect(9, 0, 3, 3),
        rect(0, 3, 3, 6),
        rect(9, 3, 3, 6),
        rect(0, 9, 3, 3),
        rect(3, 9, 6, 3),
        rect(9, 9, 3, 3),
    ];
    assert_eq!(rects, expected);
}

#[test]
fn nine_patch_fill_keeps_the_center_cell() {
    let info = LayoutPrimitiveInfo {
        rect: rect(0, 0, 12, 12),
        clip_rect: rect(0, 0, 12, 12),
        is_backface_visible: true,
    };
    let mut content = image_border(5);
    content.nine_patch.fill = true;
    let template = ImageBorderTemplate::from(content.build_key(&info, rect(0, 0, 12, 12)));
    let rects: Vec<RectAu> =
        template.kind.brush_segments.iter().map(|s| s.local_rect).collect();
    assert_eq!(rects.len(), 9);
    assert_eq!(rects[4], rect(3, 3, 6, 6));
}

#[test]
fn nine_patch_skips_zero_area_cells() {
    let info = LayoutPrimitiveInfo {
        rect: rect(0, 0, 12, 12),
        clip_rect: rect(0, 0, 12, 12),
        is_backface_visible: true,
    };
    let mut content = image_border(5);
    content.nine_patch.slice = offsets(0, 3, 3, 3);
    let template = ImageBorderTemplate::from(content.build_key(&info, rect(0, 0, 12, 12)));
    // The whole top row has zero height and is skipped.
    let rects: Vec<RectAu> =
        template.kind.brush_segments.iter().map(|s| s.local_rect).collect();
    let expected = vec![
        rect(0, 0, 3, 9),
        rect(9, 0, 3, 9),
        rect(0, 9, 3, 3),
        rect(3, 9, 6, 3),
        rect(9, 9, 3, 3),
    ];
    assert_eq!(rects, expected);
}

#[test]
fn largest_box_decomposes_without_overflow() {
    let big = i32::MAX;
    let info = LayoutPrimitiveInfo {
        rect: rect(0, 0, big, big),
        clip_rect: rect(0, 0, big, big),
        is_backface_visible: true,
    };
    let prim = NormalBorderPrim {
        border: uniform_border(BorderStyle::Solid),
        widths: offsets(1, 1, 1, 1),
    };
    let template = NormalBorderTemplate::from(prim.build_key(&info, rect(0, 0, big, big)));
    let segments = &template.kind.brush_segments;
    assert_eq!(segments.len(), 8);
    assert_eq!(segments[7].local_rect, rect(1, big - 1, big - 2, 1));
}

#[test]
fn image_interner_reports_added_entries_once() {
    let mut interner = ImageBorderDataInterner::new();
    let key = image_border(21).build_key(&info_10x10(), rect(0, 0, 10, 10));
    let handle = interner.intern(key);
    let added = interner.updates();
    assert_eq!(added.len(), 1);
    assert_eq!(added[0].0, handle);
    assert_eq!(added[0].1, key);
    interner.intern(key);
    assert_eq!(interner.updates().len(), 0);
}

#[test]
fn image_template_keeps_the_resource_request() {
    let key = image_border(11).build_key(&info_10x10(), rect(0, 0, 10, 10));
    let template = ImageBorderTemplate::from(key);
    assert_eq!(template.kind.request, image_request(11));
    assert!(!template.common.opacity.is_opaque);
    assert_eq!(template.common.prim_size, SizeAu { width: 10, height: 10 });
}
