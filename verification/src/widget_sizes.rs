//! The sizes and positions that a leaf widget computes: content with padding and margins,
//! widened to a preferred size and aligned in an area.
use vstd::prelude::*;
use crate::types::{Edges, HAlign, Pos, Rect, Size, VAlign};
use crate::utils::{inner_len, inner_opt_len, len_for_align, len_for_opt_len, outer_len, pos_for_align_of};

verus! {

/// The size of a leaf widget and its size with margins.
pub struct LeafSizes {
    pub size: Size<i32>,
    pub margin_size: Size<i32>,
}

/// The optional size without the edges.
pub open spec fn inner_opt_size_of(size: Size<Option<i32>>, edges: Edges<i32>) -> Size<Option<i32>> {
    Size { width: inner_opt_len(size.width, edges.left, edges.right), height: inner_opt_len(size.height, edges.top, edges.bottom) }
}

/// The size with the edges.
pub open spec fn outer_size_of(size: Size<i32>, edges: Edges<i32>) -> Size<i32> {
    Size { width: outer_len(size.width, edges.left, edges.right), height: outer_len(size.height, edges.top, edges.bottom) }
}

/// The size without the edges.
pub open spec fn inner_size_of(size: Size<i32>, edges: Edges<i32>) -> Size<i32> {
    Size { width: inner_len(size.width, edges.left, edges.right), height: inner_len(size.height, edges.top, edges.bottom) }
}

/// The sizes of a leaf widget whose padding holds content of the given size: the content with
/// the padding, widened to the preferred size, with the margins and aligned in the area; the
/// size is then the aligned margin size without the margins.
pub open spec fn leaf_size_of(
    content_size: Size<i32>,
    padding_edges: Edges<i32>,
    margin_edges: Edges<i32>,
    preferred_size: Size<Option<i32>>,
    area_size: Size<Option<i32>>,
    h_align: HAlign,
    v_align: VAlign,
) -> LeafSizes {
    let s1 = outer_size_of(content_size, padding_edges);
    let s2 = Size { width: len_for_opt_len(s1.width, preferred_size.width), height: len_for_opt_len(s1.height, preferred_size.height) };
    let m1 = outer_size_of(s2, margin_edges);
    let m2 = Size {
        width: len_for_align(m1.width, area_size.width, h_align == HAlign::Fill),
        height: len_for_align(m1.height, area_size.height, v_align == VAlign::Fill),
    };
    LeafSizes { size: inner_size_of(m2, margin_edges), margin_size: m2 }
}

/// The margin position of a leaf widget: its margin size aligned in the area bounds and moved
/// back by the client position.
pub open spec fn leaf_margin_pos_of(margin_bounds: Rect<i32>, client_pos: Pos<i32>, area_bounds: Rect<i32>, h_align: HAlign, v_align: VAlign) -> Pos<i32> {
    let p = pos_for_align_of(Size { width: margin_bounds.width, height: margin_bounds.height }, area_bounds, h_align, v_align);
    Pos { x: p.x.wrapping_sub(client_pos.x), y: p.y.wrapping_sub(client_pos.y) }
}

} // verus!
