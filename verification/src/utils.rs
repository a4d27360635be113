//! Arithmetic on sizes, positions and rectangles for orientations and alignments.
//!
//! Sums and differences of coordinates wrap around on overflow, as the compiled arithmetic of
//! the release profile does.
use vstd::prelude::*;
use crate::types::{Edges, HAlign, Orient, Pos, Rect, Size, VAlign};

verus! {

/// The width of a size along the orientation: the width for a horizontal orientation and the
/// height for a vertical one.
pub open spec fn orient_width_of<T>(size: Size<T>, orient: Orient) -> T {
    match orient {
        Orient::Horizontal => size.width,
        Orient::Vertical => size.height,
    }
}

/// The height of a size across the orientation.
pub open spec fn orient_height_of<T>(size: Size<T>, orient: Orient) -> T {
    match orient {
        Orient::Horizontal => size.height,
        Orient::Vertical => size.width,
    }
}

/// The size with a width along the orientation and a height across it.
pub open spec fn orient_size_of<T>(width: T, height: T, orient: Orient) -> Size<T> {
    match orient {
        Orient::Horizontal => Size { width, height },
        Orient::Vertical => Size { width: height, height: width },
    }
}

pub fn orient_size_width<T: Copy>(size: Size<T>, orient: Orient) -> (r: T)
    ensures
        r == orient_width_of(size, orient),
{
    match orient {
        Orient::Horizontal => size.width,
        Orient::Vertical => size.height,
    }
}

pub fn orient_size_height<T: Copy>(size: Size<T>, orient: Orient) -> (r: T)
    ensures
        r == orient_height_of(size, orient),
{
    match orient {
        Orient::Horizontal => size.height,
        Orient::Vertical => size.width,
    }
}

pub fn set_orient_size_width<T: Copy>(size: &mut Size<T>, width: T, orient: Orient)
    ensures
        *final(size) == orient_size_of(width, orient_height_of(*old(size), orient), orient),
{
    match orient {
        Orient::Horizontal => size.width = width,
        Orient::Vertical => size.height = width,
    }
}

pub fn orient_size<T: Copy>(width: T, height: T, orient: Orient) -> (r: Size<T>)
    ensures
        r == orient_size_of(width, height, orient),
{
    match orient {
        Orient::Horizontal => Size::new(width, height),
        Orient::Vertical => Size::new(height, width),
    }
}

/// The coordinate of a position along the orientation.
pub open spec fn orient_x_of(pos: Pos<i32>, orient: Orient) -> i32 {
    match orient {
        Orient::Horizontal => pos.x,
        Orient::Vertical => pos.y,
    }
}

/// The coordinate of a position across the orientation.
pub open spec fn orient_y_of(pos: Pos<i32>, orient: Orient) -> i32 {
    match orient {
        Orient::Horizontal => pos.y,
        Orient::Vertical => pos.x,
    }
}

pub fn orient_pos_x(pos: Pos<i32>, orient: Orient) -> (r: i32)
    ensures
        r == orient_x_of(pos, orient),
{
    match orient {
        Orient::Horizontal => pos.x,
        Orient::Vertical => pos.y,
    }
}

pub fn orient_pos_y(pos: Pos<i32>, orient: Orient) -> (r: i32)
    ensures
        r == orient_y_of(pos, orient),
{
    match orient {
        Orient::Horizontal => pos.y,
        Orient::Vertical => pos.x,
    }
}

pub fn set_orient_pos_x(pos: &mut Pos<i32>, x: i32, orient: Orient)
    ensures
        orient_x_of(*final(pos), orient) == x,
        orient_y_of(*final(pos), orient) == orient_y_of(*old(pos), orient),
{
    match orient {
        Orient::Horizontal => pos.x = x,
        Orient::Vertical => pos.y = x,
    }
}

/// The rectangle with a position and a size given along and across the orientation.
pub open spec fn orient_rect_of(x: i32, y: i32, width: i32, height: i32, orient: Orient) -> Rect<i32> {
    match orient {
        Orient::Horizontal => Rect { x, y, width, height },
        Orient::Vertical => Rect { x: y, y: x, width: height, height: width },
    }
}

/// The width of a rectangle along the orientation.
pub open spec fn orient_rect_width_of(rect: Rect<i32>, orient: Orient) -> i32 {
    match orient {
        Orient::Horizontal => rect.width,
        Orient::Vertical => rect.height,
    }
}

pub fn orient_rect(x: i32, y: i32, width: i32, height: i32, orient: Orient) -> (r: Rect<i32>)
    ensures
        r == orient_rect_of(x, y, width, height, orient),
{
    match orient {
        Orient::Horizontal => Rect::new(x, y, width, height),
        Orient::Vertical => Rect::new(y, x, height, width),
    }
}

pub fn orient_rect_width(rect: Rect<i32>, orient: Orient) -> (r: i32)
    ensures
        r == orient_rect_width_of(rect, orient),
{
    match orient {
        Orient::Horizontal => rect.width,
        Orient::Vertical => rect.height,
    }
}

pub fn set_orient_rect_width(rect: &mut Rect<i32>, width: i32, orient: Orient)
    ensures
        orient_rect_width_of(*final(rect), orient) == width,
        final(rect).x == old(rect).x,
        final(rect).y == old(rect).y,
        orient == Orient::Horizontal ==> final(rect).height == old(rect).height,
        orient == Orient::Vertical ==> final(rect).width == old(rect).width,
{
    match orient {
        Orient::Horizontal => rect.width = width,
        Orient::Vertical => rect.height = width,
    }
}

/// The lesser of two optional lengths, where `None` is an unbounded length.
pub open spec fn min_opt_of(a: Option<i32>, b: Option<i32>) -> Option<i32> {
    match (a, b) {
        (Some(a), Some(b)) => Some(if a <= b { a } else { b }),
        (Some(a), None) => Some(a),
        (None, Some(b)) => Some(b),
        (None, None) => None,
    }
}

/// Returns the lesser of an optional area width and an optional preferred width.
pub fn min_opt_width_for_opt_width(area_width: Option<i32>, preferred_width: Option<i32>) -> (r: Option<i32>)
    ensures
        r == min_opt_of(area_width, preferred_width),
{
    match (area_width, preferred_width) {
        (Some(a), Some(b)) => Some(if a <= b { a } else { b }),
        (Some(a), None) => Some(a),
        (None, Some(b)) => Some(b),
        (None, None) => None,
    }
}

/// Returns the lesser of an optional area height and an optional preferred height.
pub fn min_opt_height_for_opt_height(area_height: Option<i32>, preferred_height: Option<i32>) -> (r: Option<i32>)
    ensures
        r == min_opt_of(area_height, preferred_height),
{
    min_opt_width_for_opt_width(area_height, preferred_height)
}

/// Returns the lesser of an optional area size and an optional preferred size, side by side.
pub fn min_opt_size_for_opt_size(area_size: Size<Option<i32>>, preferred_size: Size<Option<i32>>) -> (r: Size<Option<i32>>)
    ensures
        r.width == min_opt_of(area_size.width, preferred_size.width),
        r.height == min_opt_of(area_size.height, preferred_size.height),
{
    Size::new(
        min_opt_width_for_opt_width(area_size.width, preferred_size.width),
        min_opt_height_for_opt_height(area_size.height, preferred_size.height),
    )
}

/// The length for an alignment in an optional area: the area length for a filling alignment,
/// otherwise the length limited by the area.
pub open spec fn len_for_align(len: i32, area_len: Option<i32>, is_fill: bool) -> i32 {
    match area_len {
        Some(a) => if is_fill { a } else if len <= a { len } else { a },
        None => len,
    }
}

pub fn width_for_h_align(width: i32, area_width: Option<i32>, h_align: HAlign) -> (r: i32)
    ensures
        r == len_for_align(width, area_width, h_align == HAlign::Fill),
{
    match area_width {
        Some(a) => {
            match h_align {
                HAlign::Fill => a,
                _ => if width <= a { width } else { a },
            }
        },
        None => width,
    }
}

pub fn height_for_v_align(height: i32, area_height: Option<i32>, v_align: VAlign) -> (r: i32)
    ensures
        r == len_for_align(height, area_height, v_align == VAlign::Fill),
{
    match area_height {
        Some(a) => {
            match v_align {
                VAlign::Fill => a,
                _ => if height <= a { height } else { a },
            }
        },
        None => height,
    }
}

/// The size for alignments in an optional area size.
pub fn size_for_h_align_and_v_align(size: Size<i32>, area_size: Size<Option<i32>>, h_align: HAlign, v_align: VAlign) -> (r: Size<i32>)
    ensures
        r.width == len_for_align(size.width, area_size.width, h_align == HAlign::Fill),
        r.height == len_for_align(size.height, area_size.height, v_align == VAlign::Fill),
{
    Size::new(width_for_h_align(size.width, area_size.width, h_align), height_for_v_align(size.height, area_size.height, v_align))
}

/// The greater of a length and an optional area length.
pub open spec fn len_for_opt_len(len: i32, area_len: Option<i32>) -> i32 {
    match area_len {
        Some(a) => if len >= a { len } else { a },
        None => len,
    }
}

pub fn width_for_opt_width(width: i32, area_width: Option<i32>) -> (r: i32)
    ensures
        r == len_for_opt_len(width, area_width),
{
    match area_width {
        Some(a) => if width >= a { width } else { a },
        None => width,
    }
}

pub fn height_for_opt_height(height: i32, area_height: Option<i32>) -> (r: i32)
    ensures
        r == len_for_opt_len(height, area_height),
{
    width_for_opt_width(height, area_height)
}

/// The offset of a length in an area length for an alignment: none at the start, half of the
/// free length in the centre and all of it at the end.
pub open spec fn offset_for_align(len: i32, area_len: i32, is_center: bool, is_end: bool) -> i32 {
    if is_center {
        match area_len.wrapping_sub(len).checked_div(2) {
            Some(q) => q,
            None => 0,
        }
    } else if is_end {
        area_len.wrapping_sub(len)
    } else {
        0
    }
}

/// The position of a size for alignments in area bounds.
pub open spec fn pos_for_align_of(size: Size<i32>, area_bounds: Rect<i32>, h_align: HAlign, v_align: VAlign) -> Pos<i32> {
    Pos {
        x: area_bounds.x.wrapping_add(offset_for_align(size.width, area_bounds.width, h_align == HAlign::Center, h_align == HAlign::Right)),
        y: area_bounds.y.wrapping_add(offset_for_align(size.height, area_bounds.height, v_align == VAlign::Center, v_align == VAlign::Bottom)),
    }
}

fn offset_for_alignment(len: i32, area_len: i32, is_center: bool, is_end: bool) -> (r: i32)
    ensures
        r == offset_for_align(len, area_len, is_center, is_end),
{
    if is_center {
        match area_len.wrapping_sub(len).checked_div(2) {
            Some(q) => q,
            None => 0,
        }
    } else if is_end {
        area_len.wrapping_sub(len)
    } else {
        0
    }
}

pub fn pos_for_h_align_and_v_align(size: Size<i32>, area_bounds: Rect<i32>, h_align: HAlign, v_align: VAlign) -> (r: Pos<i32>)
    ensures
        r == pos_for_align_of(size, area_bounds, h_align, v_align),
{
    let is_h_center = match h_align { HAlign::Center => true, _ => false };
    let is_right = match h_align { HAlign::Right => true, _ => false };
    let is_v_center = match v_align { VAlign::Center => true, _ => false };
    let is_bottom = match v_align { VAlign::Bottom => true, _ => false };
    let dx = offset_for_alignment(size.width, area_bounds.width, is_h_center, is_right);
    let dy = offset_for_alignment(size.height, area_bounds.height, is_v_center, is_bottom);
    Pos::new(area_bounds.x.wrapping_add(dx), area_bounds.y.wrapping_add(dy))
}

/// The length without two edges.
pub open spec fn inner_len(len: i32, e1: i32, e2: i32) -> i32 {
    len.wrapping_sub(e1).wrapping_sub(e2)
}

/// The length with two edges.
pub open spec fn outer_len(len: i32, e1: i32, e2: i32) -> i32 {
    len.wrapping_add(e1).wrapping_add(e2)
}

/// The optional length without two edges.
pub open spec fn inner_opt_len(len: Option<i32>, e1: i32, e2: i32) -> Option<i32> {
    match len {
        Some(l) => Some(inner_len(l, e1, e2)),
        None => None,
    }
}

/// Returns the optional size without the edges; an unbounded side stays unbounded.
pub fn inner_opt_size(size: Size<Option<i32>>, edges: Edges<i32>) -> (r: Size<Option<i32>>)
    ensures
        r.width == inner_opt_len(size.width, edges.left, edges.right),
        r.height == inner_opt_len(size.height, edges.top, edges.bottom),
{
    let width = match size.width {
        Some(w) => Some(w.wrapping_sub(edges.left).wrapping_sub(edges.right)),
        None => None,
    };
    let height = match size.height {
        Some(h) => Some(h.wrapping_sub(edges.top).wrapping_sub(edges.bottom)),
        None => None,
    };
    Size::new(width, height)
}

/// Returns the size without the edges.
pub fn inner_size(size: Size<i32>, edges: Edges<i32>) -> (r: Size<i32>)
    ensures
        r.width == inner_len(size.width, edges.left, edges.right),
        r.height == inner_len(size.height, edges.top, edges.bottom),
{
    Size::new(size.width.wrapping_sub(edges.left).wrapping_sub(edges.right), size.height.wrapping_sub(edges.top).wrapping_sub(edges.bottom))
}

/// Returns the size with the edges.
pub fn outer_size(size: Size<i32>, edges: Edges<i32>) -> (r: Size<i32>)
    ensures
        r.width == outer_len(size.width, edges.left, edges.right),
        r.height == outer_len(size.height, edges.top, edges.bottom),
{
    Size::new(size.width.wrapping_add(edges.left).wrapping_add(edges.right), size.height.wrapping_add(edges.top).wrapping_add(edges.bottom))
}

/// Returns the position inside the edges of the rectangle.
pub fn inner_pos(rect: Rect<i32>, edges: Edges<i32>) -> (r: Pos<i32>)
    ensures
        r.x == rect.x.wrapping_add(edges.left),
        r.y == rect.y.wrapping_add(edges.top),
{
    Pos::new(rect.x.wrapping_add(edges.left), rect.y.wrapping_add(edges.top))
}

/// Returns the rectangle inside the edges of the rectangle.
pub fn inner_rect(rect: Rect<i32>, edges: Edges<i32>) -> (r: Rect<i32>)
    ensures
        r.x == rect.x.wrapping_add(edges.left),
        r.y == rect.y.wrapping_add(edges.top),
        r.width == inner_len(rect.width, edges.left, edges.right),
        r.height == inner_len(rect.height, edges.top, edges.bottom),
{
    Rect::new(
        rect.x.wrapping_add(edges.left),
        rect.y.wrapping_add(edges.top),
        rect.width.wrapping_sub(edges.left).wrapping_sub(edges.right),
        rect.height.wrapping_sub(edges.top).wrapping_sub(edges.bottom),
    )
}

/// Returns the size widened to the optional size on each side where it is given.
pub fn max_size_for_opt_size(size: Size<i32>, opt_size: Size<Option<i32>>) -> (r: Size<i32>)
    ensures
        r.width == len_for_opt_len(size.width, opt_size.width),
        r.height == len_for_opt_len(size.height, opt_size.height),
{
    Size::new(width_for_opt_width(size.width, opt_size.width), height_for_opt_height(size.height, opt_size.height))
}

/// Returns the rectangle with the edges around it.
pub fn outer_rect(rect: Rect<i32>, edges: Edges<i32>) -> (r: Rect<i32>)
    ensures
        r.x == rect.x.wrapping_sub(edges.left),
        r.y == rect.y.wrapping_sub(edges.top),
        r.width == outer_len(rect.width, edges.left, edges.right),
        r.height == outer_len(rect.height, edges.top, edges.bottom),
{
    Rect::new(
        rect.x.wrapping_sub(edges.left),
        rect.y.wrapping_sub(edges.top),
        rect.width.wrapping_add(edges.left).wrapping_add(edges.right),
        rect.height.wrapping_add(edges.top).wrapping_add(edges.bottom),
    )
}

/// An aligned length lies inside its area: without overflow, a length that fits the area
/// length gets an offset that keeps it between the start and the end of the area.
pub proof fn lemma_aligned_inside_area(len: i32, area_len: i32, is_center: bool, is_end: bool)
    requires
        0 <= len <= area_len,
    ensures
        0 <= offset_for_align(len, area_len, is_center, is_end),
        offset_for_align(len, area_len, is_center, is_end) + len <= area_len,
{
    let d = area_len - len;
    assert(area_len.wrapping_sub(len) as int == d);
    if is_center {
        assert(0 <= d / 2 && d / 2 + len <= area_len) by (nonlinear_arith)
            requires
                0 <= d,
                d == area_len - len,
        ;
    }
}

/// A length for an alignment fits a bounded area: it is the area length for a filling
/// alignment and at most the area length otherwise.
pub proof fn lemma_len_for_align_fits(len: i32, area_len: i32, is_fill: bool)
    ensures
        len_for_align(len, Some(area_len), is_fill) <= area_len,
        is_fill ==> len_for_align(len, Some(area_len), is_fill) == area_len,
        !is_fill && len <= area_len ==> len_for_align(len, Some(area_len), is_fill) == len,
{
}

} // verus!
