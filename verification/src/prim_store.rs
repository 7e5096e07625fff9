//! Primitive-store data shared by both border variants: key and template
//! common fields, opacity classification, brush segments, nine-patch
//! slicing, and the instance representation handed to batching.

use vstd::prelude::*;
use crate::gpu_cache::{GpuBlock, GpuCacheHandle};
use crate::intern::{ImageBorderDataHandle, NormalBorderDataHandle};
use crate::units::{LayoutPrimitiveInfo, RectAu, SideOffsetsAu, SizeAu};

verus! {

/// Whether a primitive is known to cover its rectangle without blending.
#[derive(Clone, Copy, Debug, PartialEq, Eq, Hash, Structural)]
pub struct PrimitiveOpacity {
    pub is_opaque: bool,
}

impl PrimitiveOpacity {
    pub fn opaque() -> (r: Self)
        ensures
            r == (PrimitiveOpacity { is_opaque: true }),
    {
        PrimitiveOpacity { is_opaque: true }
    }

    pub fn translucent() -> (r: Self)
        ensures
            r == (PrimitiveOpacity { is_opaque: false }),
    {
        PrimitiveOpacity { is_opaque: false }
    }
}

/// The positioning fields every border key carries, independent of the
/// variant-specific content.
#[derive(Clone, Copy, Debug, PartialEq, Eq, Hash, Structural)]
pub struct PrimKeyCommonData {
    pub is_backface_visible: bool,
    pub prim_size: SizeAu,
    pub prim_relative_clip_rect: RectAu,
}

/// The key common fields derived from placement info and clip rectangle.
pub open spec fn key_common_spec(info: LayoutPrimitiveInfo, clip: RectAu) -> PrimKeyCommonData {
    PrimKeyCommonData {
        is_backface_visible: info.is_backface_visible,
        prim_size: info.rect.size_spec(),
        prim_relative_clip_rect: clip,
    }
}

impl PrimKeyCommonData {
    pub fn with_info(info: &LayoutPrimitiveInfo, prim_relative_clip_rect: RectAu) -> (r: Self)
        ensures
            r == key_common_spec(*info, prim_relative_clip_rect),
    {
        PrimKeyCommonData {
            is_backface_visible: info.is_backface_visible,
            prim_size: info.rect.size(),
            prim_relative_clip_rect,
        }
    }
}

/// The mutable per-template state shared by both variants: opacity and the
/// GPU slot reference. Everything else in a template is immutable after
/// construction.
pub struct PrimTemplateCommonData {
    pub is_backface_visible: bool,
    pub prim_size: SizeAu,
    pub opacity: PrimitiveOpacity,
    pub gpu_cache_handle: GpuCacheHandle,
}

impl PrimTemplateCommonData {
    /// A fresh template starts translucent with an unassigned GPU slot.
    pub fn with_key_common(common: PrimKeyCommonData) -> (r: Self)
        ensures
            r.is_backface_visible == common.is_backface_visible,
            r.prim_size == common.prim_size,
            r.opacity == (PrimitiveOpacity { is_opaque: false }),
            r.gpu_cache_handle == (GpuCacheHandle { slot: None::<usize> }),
    {
        PrimTemplateCommonData {
            is_backface_visible: common.is_backface_visible,
            prim_size: common.prim_size,
            opacity: PrimitiveOpacity::translucent(),
            gpu_cache_handle: GpuCacheHandle::new(),
        }
    }
}

/// One renderable sub-rectangle of a border, consumed positionally by the
/// segment-rendering shader path: a local rectangle plus one auxiliary
/// data block (reserved lanes).
#[derive(Clone, Copy, Debug, PartialEq, Eq, Hash, Structural)]
pub struct BrushSegment {
    pub local_rect: RectAu,
    pub extra_data: GpuBlock,
}

/// The auxiliary data lanes of a brush segment; reserved, always zero.
pub open spec fn brush_extra_data() -> GpuBlock {
    GpuBlock { x: 0, y: 0, z: 0, w: 0 }
}

/// Which part of the border ring a raw edge segment covers.
#[derive(Clone, Copy, Debug, PartialEq, Eq, Hash, Structural)]
pub enum BorderSegmentKind {
    TopLeft,
    TopRight,
    BottomLeft,
    BottomRight,
    Left,
    Top,
    Right,
    Bottom,
}

/// One raw border-edge segment, retained for alternate rendering paths.
#[derive(Clone, Copy, Debug, PartialEq, Eq, Hash, Structural)]
pub struct BorderSegmentInfo {
    pub local_rect: RectAu,
    pub kind: BorderSegmentKind,
}

/// A lazily grown range of secondary cache handles carried by plain border
/// instances for rendering sub-passes; starts out empty.
#[derive(Clone, Copy, Debug, PartialEq, Eq, Hash, Structural)]
pub struct HandleRange {
    pub start: usize,
    pub end: usize,
}

impl HandleRange {
    pub fn empty() -> (r: Self)
        ensures
            r == (HandleRange { start: 0, end: 0 }),
    {
        HandleRange { start: 0, end: 0 }
    }
}

/// The polymorphic instance representation consumed by downstream
/// batching: one variant per border kind.
#[derive(Clone, Copy, Debug, PartialEq, Eq, Structural)]
#[allow(inconsistent_fields)]
pub enum PrimitiveInstanceKind {
    NormalBorder { data_handle: NormalBorderDataHandle, cache_handles: HandleRange },
    ImageBorder { data_handle: ImageBorderDataHandle },
}

/// A nine-patch slicing descriptor: the source image dimensions and the
/// four slice offsets that cut both the image and the target box into a
/// three-by-three grid; `fill` keeps the center cell.
#[derive(Clone, Copy, Debug, PartialEq, Eq, Hash, Structural)]
pub struct NinePatchDescriptor {
    pub width: i32,
    pub height: i32,
    pub slice: SideOffsetsAu,
    pub fill: bool,
}

/// The slice offsets must cut the target box into well-defined cells.
pub open spec fn nine_patch_wf(slice: SideOffsetsAu, size: SizeAu) -> bool {
    &&& 0 <= slice.left
    &&& 0 <= slice.right
    &&& 0 <= slice.top
    &&& 0 <= slice.bottom
    &&& slice.left + slice.right <= size.width
    &&& slice.top + slice.bottom <= size.height
}

/// The grid's vertical cut positions: left slice, then right slice.
pub open spec fn nine_patch_x(slice: SideOffsetsAu, size: SizeAu, col: int) -> int {
    if col <= 0 {
        0
    } else if col == 1 {
        slice.left as int
    } else if col == 2 {
        size.width - slice.right
    } else {
        size.width as int
    }
}

/// The grid's horizontal cut positions: top slice, then bottom slice.
pub open spec fn nine_patch_y(slice: SideOffsetsAu, size: SizeAu, row: int) -> int {
    if row <= 0 {
        0
    } else if row == 1 {
        slice.top as int
    } else if row == 2 {
        size.height - slice.bottom
    } else {
        size.height as int
    }
}

/// The target-box rectangle of grid cell (`col`, `row`).
pub open spec fn nine_patch_cell(slice: SideOffsetsAu, size: SizeAu, col: int, row: int) -> RectAu {
    RectAu {
        x: nine_patch_x(slice, size, col) as i32,
        y: nine_patch_y(slice, size, row) as i32,
        width: (nine_patch_x(slice, size, col + 1) - nine_patch_x(slice, size, col)) as i32,
        height: (nine_patch_y(slice, size, row + 1) - nine_patch_y(slice, size, row)) as i32,
    }
}

/// A cell yields a segment when it has positive area, and the center cell
/// only when the descriptor fills it.
pub open spec fn nine_patch_cell_present(
    desc: NinePatchDescriptor,
    size: SizeAu,
    col: int,
    row: int,
) -> bool {
    let cell = nine_patch_cell(desc.slice, size, col, row);
    &&& (col != 1 || row != 1 || desc.fill)
    &&& cell.width > 0
    &&& cell.height > 0
}

/// The segment contributed by one cell: one segment, or none.
pub open spec fn nine_patch_cell_seq(
    desc: NinePatchDescriptor,
    size: SizeAu,
    col: int,
    row: int,
) -> Seq<BrushSegment> {
    if nine_patch_cell_present(desc, size, col, row) {
        seq![
            BrushSegment {
                local_rect: nine_patch_cell(desc.slice, size, col, row),
                extra_data: brush_extra_data(),
            },
        ]
    } else {
        Seq::empty()
    }
}

/// All segments of a nine-patch slicing, row-major over the grid.
pub open spec fn nine_patch_segments(desc: NinePatchDescriptor, size: SizeAu) -> Seq<BrushSegment> {
    nine_patch_cell_seq(desc, size, 0, 0) + nine_patch_cell_seq(desc, size, 1, 0)
        + nine_patch_cell_seq(desc, size, 2, 0) + nine_patch_cell_seq(desc, size, 0, 1)
        + nine_patch_cell_seq(desc, size, 1, 1) + nine_patch_cell_seq(desc, size, 2, 1)
        + nine_patch_cell_seq(desc, size, 0, 2) + nine_patch_cell_seq(desc, size, 1, 2)
        + nine_patch_cell_seq(desc, size, 2, 2)
}

impl NinePatchDescriptor {
    /// One grid cut position along x, as executable code.
    fn cut_x(&self, size: SizeAu, col: usize) -> (r: i32)
        requires
            nine_patch_wf(self.slice, size),
            col <= 3,
        ensures
            r == nine_patch_x(self.slice, size, col as int),
    {
        if col == 0 {
            0
        } else if col == 1 {
            self.slice.left
        } else if col == 2 {
            size.width - self.slice.right
        } else {
            size.width
        }
    }

    /// One grid cut position along y, as executable code.
    fn cut_y(&self, size: SizeAu, row: usize) -> (r: i32)
        requires
            nine_patch_wf(self.slice, size),
            row <= 3,
        ensures
            r == nine_patch_y(self.slice, size, row as int),
    {
        if row == 0 {
            0
        } else if row == 1 {
            self.slice.top
        } else if row == 2 {
            size.height - self.slice.bottom
        } else {
            size.height
        }
    }

    /// Append the segment of one grid cell, when the cell yields one.
    fn push_cell(&self, size: SizeAu, col: usize, row: usize, out: &mut Vec<BrushSegment>)
        requires
            nine_patch_wf(self.slice, size),
            col < 3,
            row < 3,
        ensures
            final(out)@ == old(out)@ + nine_patch_cell_seq(*self, size, col as int, row as int),
    {
        let x0 = self.cut_x(size, col);
        let x1 = self.cut_x(size, col + 1);
        let y0 = self.cut_y(size, row);
        let y1 = self.cut_y(size, row + 1);
        let cell = RectAu { x: x0, y: y0, width: x1 - x0, height: y1 - y0 };
        proof {
            assert(cell == nine_patch_cell(self.slice, size, col as int, row as int));
        }
        if (col != 1 || row != 1 || self.fill) && cell.width > 0 && cell.height > 0 {
            out.push(BrushSegment {
                local_rect: cell,
                extra_data: GpuBlock { x: 0, y: 0, z: 0, w: 0 },
            });
        }
    }

    /// Slice the target box into brush segments: the four corners, four
    /// edges and (when filled) the center of the three-by-three grid, in
    /// row-major order, skipping cells of zero area.
    pub fn create_segments(&self, size: SizeAu) -> (r: Vec<BrushSegment>)
        requires
            nine_patch_wf(self.slice, size),
        ensures
            r@ == nine_patch_segments(*self, size),
    {
        let mut segments: Vec<BrushSegment> = Vec::new();
        self.push_cell(size, 0, 0, &mut segments);
        self.push_cell(size, 1, 0, &mut segments);
        self.push_cell(size, 2, 0, &mut segments);
        self.push_cell(size, 0, 1, &mut segments);
        self.push_cell(size, 1, 1, &mut segments);
        self.push_cell(size, 2, 1, &mut segments);
        self.push_cell(size, 0, 2, &mut segments);
        self.push_cell(size, 1, 2, &mut segments);
        self.push_cell(size, 2, 2, &mut segments);
        proof {
            assert(segments@ =~= nine_patch_segments(*self, size));
        }
        segments
    }
}

} // verus!
