//! Plain border styling and the segment builder that decomposes a border's
//! box into renderable segments.
//!
//! Styles are normalized against the resolved widths before decomposition:
//! a side of zero width collapses to `Hidden`, so degenerate widths behave
//! predictably. The builder then emits, in a fixed order, one corner
//! segment per corner whose two adjacent sides are visible and one edge
//! segment per visible side.

use vstd::prelude::*;
use crate::gpu_cache::GpuBlock;
use crate::prim_store::{
    brush_extra_data, BorderSegmentInfo, BorderSegmentKind, BrushSegment,
};
use crate::units::{ColorU, RectAu, SideOffsetsAu, SizeAu};

verus! {

/// The drawing style of one border side. `Hidden` draws nothing and is
/// what degenerate sides normalize to.
#[derive(Clone, Copy, Debug, PartialEq, Eq, Hash, Structural)]
pub enum BorderStyle {
    Hidden,
    Solid,
    Double,
    Dotted,
    Dashed,
    Groove,
    Ridge,
    Inset,
    Outset,
}

/// One side of a plain border: quantized color and style.
#[derive(Clone, Copy, Debug, PartialEq, Eq, Hash, Structural)]
pub struct BorderSideAu {
    pub color: ColorU,
    pub style: BorderStyle,
}

/// Corner rounding radii in app units, one size per corner.
#[derive(Clone, Copy, Debug, PartialEq, Eq, Hash, Structural)]
pub struct BorderRadiusAu {
    pub top_left: SizeAu,
    pub top_right: SizeAu,
    pub bottom_left: SizeAu,
    pub bottom_right: SizeAu,
}

/// A complete plain border description, quantized: four sides, corner
/// radii, and the antialiasing flag.
#[derive(Clone, Copy, Debug, PartialEq, Eq, Hash, Structural)]
pub struct NormalBorderAu {
    pub left: BorderSideAu,
    pub right: BorderSideAu,
    pub top: BorderSideAu,
    pub bottom: BorderSideAu,
    pub radius: BorderRadiusAu,
    pub do_aa: bool,
}

/// One side after normalization: a side of zero (or negative) width, or
/// one already hidden, collapses to `Hidden`; its color is kept.
pub open spec fn normalize_side(side: BorderSideAu, width: i32) -> BorderSideAu {
    if width <= 0 || side.style == BorderStyle::Hidden {
        BorderSideAu { color: side.color, style: BorderStyle::Hidden }
    } else {
        side
    }
}

/// The whole border normalized against its widths; radii and the
/// antialiasing flag are untouched.
pub open spec fn normalize_spec(border: NormalBorderAu, widths: SideOffsetsAu) -> NormalBorderAu {
    NormalBorderAu {
        left: normalize_side(border.left, widths.left),
        right: normalize_side(border.right, widths.right),
        top: normalize_side(border.top, widths.top),
        bottom: normalize_side(border.bottom, widths.bottom),
        radius: border.radius,
        do_aa: border.do_aa,
    }
}

/// The border with every side's color replaced and everything else kept:
/// the single state-copying rule drop shadows use.
pub open spec fn with_color_spec(border: NormalBorderAu, color: ColorU) -> NormalBorderAu {
    NormalBorderAu {
        left: BorderSideAu { color, style: border.left.style },
        right: BorderSideAu { color, style: border.right.style },
        top: BorderSideAu { color, style: border.top.style },
        bottom: BorderSideAu { color, style: border.bottom.style },
        radius: border.radius,
        do_aa: border.do_aa,
    }
}

/// Law: color substitution changes only colors. Every style, radius and
/// flag of the substituted border is bit-identical to the input border's.
pub proof fn lemma_with_color_preserves_geometry(border: NormalBorderAu, color: ColorU)
    ensures
        with_color_spec(border, color).left.style == border.left.style,
        with_color_spec(border, color).right.style == border.right.style,
        with_color_spec(border, color).top.style == border.top.style,
        with_color_spec(border, color).bottom.style == border.bottom.style,
        with_color_spec(border, color).radius == border.radius,
        with_color_spec(border, color).do_aa == border.do_aa,
{
}

impl NormalBorderAu {
    /// Collapse degenerate sides in place, before segment decomposition.
    pub fn normalize(&mut self, widths: &SideOffsetsAu)
        ensures
            *final(self) == normalize_spec(*old(self), *widths),
    {
        self.left = normalize_side_exec(&self.left, widths.left);
        self.right = normalize_side_exec(&self.right, widths.right);
        self.top = normalize_side_exec(&self.top, widths.top);
        self.bottom = normalize_side_exec(&self.bottom, widths.bottom);
    }

    /// The border with every side's color replaced by `color`.
    pub fn with_color(&self, color: ColorU) -> (r: Self)
        ensures
            r == with_color_spec(*self, color),
    {
        NormalBorderAu {
            left: BorderSideAu { color, style: self.left.style },
            right: BorderSideAu { color, style: self.right.style },
            top: BorderSideAu { color, style: self.top.style },
            bottom: BorderSideAu { color, style: self.bottom.style },
            radius: self.radius,
            do_aa: self.do_aa,
        }
    }
}

fn normalize_side_exec(side: &BorderSideAu, width: i32) -> (r: BorderSideAu)
    ensures
        r == normalize_side(*side, width),
{
    if width <= 0 || side.style == BorderStyle::Hidden {
        BorderSideAu { color: side.color, style: BorderStyle::Hidden }
    } else {
        *side
    }
}

/// A side draws something exactly when it has positive width and is not
/// hidden (after normalization).
pub open spec fn side_visible(side: BorderSideAu, width: i32) -> bool {
    width > 0 && side.style != BorderStyle::Hidden
}

pub fn side_is_visible(side: &BorderSideAu, width: i32) -> (r: bool)
    ensures
        r == side_visible(*side, width),
{
    width > 0 && side.style != BorderStyle::Hidden
}

/// Valid geometry for segment decomposition: non-negative widths that fit
/// within the bounding size on both axes.
pub open spec fn border_geometry_wf(size: SizeAu, widths: SideOffsetsAu) -> bool {
    &&& 0 <= widths.left
    &&& 0 <= widths.right
    &&& 0 <= widths.top
    &&& 0 <= widths.bottom
    &&& widths.left + widths.right <= size.width
    &&& widths.top + widths.bottom <= size.height
}

/// The local rectangle of one border segment: corners are the overlap of
/// their two adjacent bands, edges the band between their two corners.
pub open spec fn segment_rect(size: SizeAu, widths: SideOffsetsAu, kind: BorderSegmentKind) -> RectAu {
    match kind {
        BorderSegmentKind::TopLeft => RectAu { x: 0, y: 0, width: widths.left, height: widths.top },
        BorderSegmentKind::TopRight => RectAu {
            x: (size.width - widths.right) as i32,
            y: 0,
            width: widths.right,
            height: widths.top,
        },
        BorderSegmentKind::BottomLeft => RectAu {
            x: 0,
            y: (size.height - widths.bottom) as i32,
            width: widths.left,
            height: widths.bottom,
        },
        BorderSegmentKind::BottomRight => RectAu {
            x: (size.width - widths.right) as i32,
            y: (size.height - widths.bottom) as i32,
            width: widths.right,
            height: widths.bottom,
        },
        BorderSegmentKind::Left => RectAu {
            x: 0,
            y: widths.top,
            width: widths.left,
            height: (size.height - widths.top - widths.bottom) as i32,
        },
        BorderSegmentKind::Top => RectAu {
            x: widths.left,
            y: 0,
            width: (size.width - widths.left - widths.right) as i32,
            height: widths.top,
        },
        BorderSegmentKind::Right => RectAu {
            x: (size.width - widths.right) as i32,
            y: widths.top,
            width: widths.right,
            height: (size.height - widths.top - widths.bottom) as i32,
        },
        BorderSegmentKind::Bottom => RectAu {
            x: widths.left,
            y: (size.height - widths.bottom) as i32,
            width: (size.width - widths.left - widths.right) as i32,
            height: widths.bottom,
        },
    }
}

/// Whether the builder emits a segment of the given kind: a corner needs
/// both adjacent sides visible, an edge its own side.
pub open spec fn segment_present(
    border: NormalBorderAu,
    widths: SideOffsetsAu,
    kind: BorderSegmentKind,
) -> bool {
    match kind {
        BorderSegmentKind::TopLeft => side_visible(border.top, widths.top) && side_visible(
            border.left,
            widths.left,
        ),
        BorderSegmentKind::TopRight => side_visible(border.top, widths.top) && side_visible(
            border.right,
            widths.right,
        ),
        BorderSegmentKind::BottomLeft => side_visible(border.bottom, widths.bottom) && side_visible(
            border.left,
            widths.left,
        ),
        BorderSegmentKind::BottomRight => side_visible(border.bottom, widths.bottom)
            && side_visible(border.right, widths.right),
        BorderSegmentKind::Left => side_visible(border.left, widths.left),
        BorderSegmentKind::Top => side_visible(border.top, widths.top),
        BorderSegmentKind::Right => side_visible(border.right, widths.right),
        BorderSegmentKind::Bottom => side_visible(border.bottom, widths.bottom),
    }
}

/// The raw edge segment one kind contributes: one entry, or none.
pub open spec fn border_segment_seq(
    border: NormalBorderAu,
    size: SizeAu,
    widths: SideOffsetsAu,
    kind: BorderSegmentKind,
) -> Seq<BorderSegmentInfo> {
    if segment_present(border, widths, kind) {
        seq![BorderSegmentInfo { local_rect: segment_rect(size, widths, kind), kind }]
    } else {
        Seq::empty()
    }
}

/// The brush segment one kind contributes: one entry, or none.
pub open spec fn brush_segment_seq(
    border: NormalBorderAu,
    size: SizeAu,
    widths: SideOffsetsAu,
    kind: BorderSegmentKind,
) -> Seq<BrushSegment> {
    if segment_present(border, widths, kind) {
        seq![
            BrushSegment {
                local_rect: segment_rect(size, widths, kind),
                extra_data: brush_extra_data(),
            },
        ]
    } else {
        Seq::empty()
    }
}

/// All raw edge segments, in builder order: the four corners, then the
/// four edges.
pub open spec fn plain_border_segments(
    border: NormalBorderAu,
    size: SizeAu,
    widths: SideOffsetsAu,
) -> Seq<BorderSegmentInfo> {
    border_segment_seq(border, size, widths, BorderSegmentKind::TopLeft) + border_segment_seq(
        border,
        size,
        widths,
        BorderSegmentKind::TopRight,
    ) + border_segment_seq(border, size, widths, BorderSegmentKind::BottomLeft)
        + border_segment_seq(border, size, widths, BorderSegmentKind::BottomRight)
        + border_segment_seq(border, size, widths, BorderSegmentKind::Left) + border_segment_seq(
        border,
        size,
        widths,
        BorderSegmentKind::Top,
    ) + border_segment_seq(border, size, widths, BorderSegmentKind::Right) + border_segment_seq(
        border,
        size,
        widths,
        BorderSegmentKind::Bottom,
    )
}

/// All brush segments, in the same order as the raw edge segments.
pub open spec fn plain_brush_segments(
    border: NormalBorderAu,
    size: SizeAu,
    widths: SideOffsetsAu,
) -> Seq<BrushSegment> {
    brush_segment_seq(border, size, widths, BorderSegmentKind::TopLeft) + brush_segment_seq(
        border,
        size,
        widths,
        BorderSegmentKind::TopRight,
    ) + brush_segment_seq(border, size, widths, BorderSegmentKind::BottomLeft)
        + brush_segment_seq(border, size, widths, BorderSegmentKind::BottomRight)
        + brush_segment_seq(border, size, widths, BorderSegmentKind::Left) + brush_segment_seq(
        border,
        size,
        widths,
        BorderSegmentKind::Top,
    ) + brush_segment_seq(border, size, widths, BorderSegmentKind::Right) + brush_segment_seq(
        border,
        size,
        widths,
        BorderSegmentKind::Bottom,
    )
}

/// Append one kind's contribution to both output lists.
fn push_segment(
    border: &NormalBorderAu,
    size: SizeAu,
    widths: &SideOffsetsAu,
    kind: BorderSegmentKind,
    rect: RectAu,
    present: bool,
    border_segments: &mut Vec<BorderSegmentInfo>,
    brush_segments: &mut Vec<BrushSegment>,
)
    requires
        rect == segment_rect(size, *widths, kind),
        present == segment_present(*border, *widths, kind),
    ensures
        final(border_segments)@ == old(border_segments)@ + border_segment_seq(
            *border,
            size,
            *widths,
            kind,
        ),
        final(brush_segments)@ == old(brush_segments)@ + brush_segment_seq(
            *border,
            size,
            *widths,
            kind,
        ),
{
    if present {
        border_segments.push(BorderSegmentInfo { local_rect: rect, kind });
        brush_segments.push(BrushSegment {
            local_rect: rect,
            extra_data: GpuBlock { x: 0, y: 0, z: 0, w: 0 },
        });
    }
    proof {
        assert(border_segments@ =~= old(border_segments)@ + border_segment_seq(
            *border,
            size,
            *widths,
            kind,
        ));
        assert(brush_segments@ =~= old(brush_segments)@ + brush_segment_seq(
            *border,
            size,
            *widths,
            kind,
        ));
    }
}

/// Decompose a border's box into segments: appends the raw edge segments
/// and the brush segments, in the builder's fixed order.
#[verifier::rlimit(60)]
pub fn create_border_segments(
    size: SizeAu,
    border: &NormalBorderAu,
    widths: &SideOffsetsAu,
    border_segments: &mut Vec<BorderSegmentInfo>,
    brush_segments: &mut Vec<BrushSegment>,
)
    requires
        border_geometry_wf(size, *widths),
    ensures
        final(border_segments)@ == old(border_segments)@ + plain_border_segments(
            *border,
            size,
            *widths,
        ),
        final(brush_segments)@ == old(brush_segments)@ + plain_brush_segments(
            *border,
            size,
            *widths,
        ),
{
    let top_vis = side_is_visible(&border.top, widths.top);
    let right_vis = side_is_visible(&border.right, widths.right);
    let bottom_vis = side_is_visible(&border.bottom, widths.bottom);
    let left_vis = side_is_visible(&border.left, widths.left);
    let right_x = size.width - widths.right;
    let bottom_y = size.height - widths.bottom;
    let inner_w = size.width - widths.left - widths.right;
    let inner_h = size.height - widths.top - widths.bottom;

    push_segment(
        border,
        size,
        widths,
        BorderSegmentKind::TopLeft,
        RectAu { x: 0, y: 0, width: widths.left, height: widths.top },
        top_vis && left_vis,
        border_segments,
        brush_segments,
    );
    push_segment(
        border,
        size,
        widths,
        BorderSegmentKind::TopRight,
        RectAu { x: right_x, y: 0, width: widths.right, height: widths.top },
        top_vis && right_vis,
        border_segments,
        brush_segments,
    );
    push_segment(
        border,
        size,
        widths,
        BorderSegmentKind::BottomLeft,
        RectAu { x: 0, y: bottom_y, width: widths.left, height: widths.bottom },
        bottom_vis && left_vis,
        border_segments,
        brush_segments,
    );
    push_segment(
        border,
        size,
        widths,
        BorderSegmentKind::BottomRight,
        RectAu { x: right_x, y: bottom_y, width: widths.right, height: widths.bottom },
        bottom_vis && right_vis,
        border_segments,
        brush_segments,
    );
    push_segment(
        border,
        size,
        widths,
        BorderSegmentKind::Left,
        RectAu { x: 0, y: widths.top, width: widths.left, height: inner_h },
        left_vis,
        border_segments,
        brush_segments,
    );
    push_segment(
        border,
        size,
        widths,
        BorderSegmentKind::Top,
        RectAu { x: widths.left, y: 0, width: inner_w, height: widths.top },
        top_vis,
        border_segments,
        brush_segments,
    );
    push_segment(
        border,
        size,
        widths,
        BorderSegmentKind::Right,
        RectAu { x: right_x, y: widths.top, width: widths.right, height: inner_h },
        right_vis,
        border_segments,
        brush_segments,
    );
    push_segment(
        border,
        size,
        widths,
        BorderSegmentKind::Bottom,
        RectAu { x: widths.left, y: bottom_y, width: inner_w, height: widths.bottom },
        bottom_vis,
        border_segments,
        brush_segments,
    );
    proof {
        assert(border_segments@ =~= old(border_segments)@ + plain_border_segments(
            *border,
            size,
            *widths,
        ));
        assert(brush_segments@ =~= old(brush_segments)@ + plain_brush_segments(
            *border,
            size,
            *widths,
        ));
    }
}

} // verus!
