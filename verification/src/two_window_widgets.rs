//! The two widgets of a window: an optional title bar above an optional content widget.
use vstd::prelude::*;
use crate::types::{Rect, Size, WidgetIndexPair};
use crate::utils::{height_for_opt_height, len_for_opt_len, width_for_opt_width};
use crate::widget::Widget;

verus! {

/// The widget index pair of the title bar.
pub open spec fn title_bar_pair() -> WidgetIndexPair {
    WidgetIndexPair(0, 0)
}

/// The widget index pair of the content widget.
pub open spec fn content_pair() -> WidgetIndexPair {
    WidgetIndexPair(1, 0)
}

/// The widget index pair before the given one: the content widget comes after the title bar.
pub open spec fn two_prev(has_title_bar: bool, has_content: bool, idx_pair: Option<WidgetIndexPair>) -> Option<WidgetIndexPair> {
    match idx_pair {
        None => {
            if has_content {
                Some(content_pair())
            } else if has_title_bar {
                Some(title_bar_pair())
            } else {
                None
            }
        },
        Some(p) => {
            if p == content_pair() && has_content && has_title_bar {
                Some(title_bar_pair())
            } else {
                None
            }
        },
    }
}

/// The widget index pair after the given one: the content widget comes after the title bar.
pub open spec fn two_next(has_title_bar: bool, has_content: bool, idx_pair: Option<WidgetIndexPair>) -> Option<WidgetIndexPair> {
    match idx_pair {
        None => {
            if has_title_bar {
                Some(title_bar_pair())
            } else if has_content {
                Some(content_pair())
            } else {
                None
            }
        },
        Some(p) => {
            if p == title_bar_pair() && has_title_bar && has_content {
                Some(content_pair())
            } else {
                None
            }
        },
    }
}

/// The widget for the widget index pair.
pub open spec fn two_child<W>(title_bar: Option<W>, content: Option<W>, idx_pair: WidgetIndexPair) -> Option<W> {
    if idx_pair == title_bar_pair() {
        title_bar
    } else if idx_pair == content_pair() {
        content
    } else {
        None
    }
}

/// The area height that is left under the title bar: never below zero.
pub open spec fn height_under(area_height: i32, title_bar_height: i32) -> i32 {
    if area_height >= title_bar_height {
        area_height.wrapping_sub(title_bar_height)
    } else {
        0
    }
}

/// The area size of the content widget under a title bar of the given margin height.
pub open spec fn content_area_size(area_size: Size<Option<i32>>, title_bar_height: Option<i32>) -> Size<Option<i32>> {
    match (title_bar_height, area_size.height) {
        (Some(th), Some(h)) => Size { width: area_size.width, height: Some(height_under(h, th)) },
        _ => area_size,
    }
}

/// The widgets after `update_size`: the title bar is sized for the area, the content widget
/// for the area under the title bar, and the title bar again to the width of the content
/// widget where the area width is unbounded or the width is trimmed (to zero without content).
pub open spec fn two_updated_size<W: Widget>(
    title_bar: Option<W>,
    content: Option<W>,
    has_trimmed_width: bool,
    theme: W::Theme,
    area_size: Size<Option<i32>>,
) -> (Option<W>, Option<W>) {
    let tb1 = match title_bar {
        Some(tb) => Some(tb.spec_updated_size(&theme, area_size)),
        None => None,
    };
    let tb_height = match tb1 {
        Some(tb) => Some(tb.spec_margin_bounds().height),
        None => None,
    };
    let c1 = match content {
        Some(c) => Some(c.spec_updated_size(&theme, content_area_size(area_size, tb_height))),
        None => None,
    };
    let tb2 = match (tb1, c1) {
        (Some(tb), Some(c)) => {
            if area_size.width is None || has_trimmed_width {
                Some(tb.spec_updated_size(&theme, Size { width: Some(c.spec_margin_bounds().width), height: Some(tb.spec_margin_bounds().height) }))
            } else {
                Some(tb)
            }
        },
        (Some(tb), None) => {
            if has_trimmed_width {
                Some(tb.spec_updated_size(&theme, Size { width: Some(0), height: Some(tb.spec_margin_bounds().height) }))
            } else {
                Some(tb)
            }
        },
        _ => tb1,
    };
    (tb2, c1)
}

/// The widgets after `update_pos`: the title bar at the top of the area with its margin height,
/// and the content widget in the rest of the area.
pub open spec fn two_updated_pos<W: Widget>(title_bar: Option<W>, content: Option<W>, theme: W::Theme, area_bounds: Rect<i32>) -> (Option<W>, Option<W>) {
    match title_bar {
        Some(tb) => {
            let th = tb.spec_margin_bounds().height;
            let tb2 = tb.spec_updated_pos(&theme, Rect { x: area_bounds.x, y: area_bounds.y, width: area_bounds.width, height: th });
            let rest = Rect { x: area_bounds.x, y: area_bounds.y.wrapping_add(th), width: area_bounds.width, height: area_bounds.height.wrapping_sub(th) };
            (Some(tb2), match content {
                Some(c) => Some(c.spec_updated_pos(&theme, rest)),
                None => None,
            })
        },
        None => (None, match content {
            Some(c) => Some(c.spec_updated_pos(&theme, area_bounds)),
            None => None,
        }),
    }
}

/// The size of the two widgets one above the other: the greater margin width and the sum of
/// the margin heights, wrapping around on overflow.
pub open spec fn two_size<W: Widget>(title_bar: Option<W>, content: Option<W>) -> Size<i32> {
    match (title_bar, content) {
        (Some(tb), Some(c)) => {
            let tw = tb.spec_margin_bounds().width;
            let cw = c.spec_margin_bounds().width;
            Size {
                width: if tw >= cw { tw } else { cw },
                height: tb.spec_margin_bounds().height.wrapping_add(c.spec_margin_bounds().height),
            }
        },
        (Some(tb), None) => Size { width: tb.spec_margin_bounds().width, height: tb.spec_margin_bounds().height },
        (None, Some(c)) => Size { width: c.spec_margin_bounds().width, height: c.spec_margin_bounds().height },
        (None, None) => Size { width: 0, height: 0 },
    }
}

/// The two widgets of a window: an optional title bar above an optional content widget.
///
/// The title bar has the widget index pair `(0, 0)` and the content widget `(1, 0)`.
pub struct TwoWindowWidgets<W> {
    pub has_trimmed_width: bool,
    pub has_trimmed_height: bool,
    pub title_bar: Option<W>,
    pub content: Option<W>,
}

impl<W: Widget> TwoWindowWidgets<W> {
    pub fn new() -> (r: Self)
        ensures
            !r.has_trimmed_width,
            !r.has_trimmed_height,
            r.title_bar is None,
            r.content is None,
    {
        TwoWindowWidgets { has_trimmed_width: false, has_trimmed_height: false, title_bar: None, content: None }
    }

    /// Returns the widget index pair before the given one, or the last one for `None`.
    pub fn prev(&self, idx_pair: Option<WidgetIndexPair>) -> (r: Option<WidgetIndexPair>)
        ensures
            r == two_prev(self.title_bar is Some, self.content is Some, idx_pair),
    {
        match idx_pair {
            None => {
                if self.content.is_some() {
                    Some(WidgetIndexPair(1, 0))
                } else if self.title_bar.is_some() {
                    Some(WidgetIndexPair(0, 0))
                } else {
                    None
                }
            },
            Some(WidgetIndexPair(1, 0)) => {
                if self.content.is_some() && self.title_bar.is_some() {
                    Some(WidgetIndexPair(0, 0))
                } else {
                    None
                }
            },
            _ => None,
        }
    }

    /// Returns the widget index pair after the given one, or the first one for `None`.
    pub fn next(&self, idx_pair: Option<WidgetIndexPair>) -> (r: Option<WidgetIndexPair>)
        ensures
            r == two_next(self.title_bar is Some, self.content is Some, idx_pair),
    {
        match idx_pair {
            None => {
                if self.title_bar.is_some() {
                    Some(WidgetIndexPair(0, 0))
                } else if self.content.is_some() {
                    Some(WidgetIndexPair(1, 0))
                } else {
                    None
                }
            },
            Some(WidgetIndexPair(0, 0)) => {
                if self.title_bar.is_some() && self.content.is_some() {
                    Some(WidgetIndexPair(1, 0))
                } else {
                    None
                }
            },
            _ => None,
        }
    }

    /// Returns the widget for the widget index pair, or `None`.
    pub fn dyn_widget(&self, idx_pair: WidgetIndexPair) -> (r: Option<&W>)
        ensures
            match r {
                Some(w) => two_child(self.title_bar, self.content, idx_pair) == Some(*w),
                None => two_child(self.title_bar, self.content, idx_pair) is None,
            },
    {
        match idx_pair {
            WidgetIndexPair(0, 0) => {
                match &self.title_bar {
                    Some(title_bar) => Some(title_bar),
                    None => None,
                }
            },
            WidgetIndexPair(1, 0) => {
                match &self.content {
                    Some(content) => Some(content),
                    None => None,
                }
            },
            _ => None,
        }
    }

    /// Returns the mutable widget for the widget index pair, or `None`.
    pub fn dyn_widget_mut(&mut self, idx_pair: WidgetIndexPair) -> (r: Option<&mut W>)
        ensures
            match r {
                Some(w) => {
                    &&& two_child(old(self).title_bar, old(self).content, idx_pair) == Some(*w)
                    &&& idx_pair == title_bar_pair() ==> final(self).title_bar == Some(*final(w)) && final(self).content == old(self).content
                    &&& idx_pair == content_pair() ==> final(self).content == Some(*final(w)) && final(self).title_bar == old(self).title_bar
                },
                None => {
                    &&& two_child(old(self).title_bar, old(self).content, idx_pair) is None
                    &&& final(self).title_bar == old(self).title_bar
                    &&& final(self).content == old(self).content
                },
            },
            final(self).has_trimmed_width == old(self).has_trimmed_width,
            final(self).has_trimmed_height == old(self).has_trimmed_height,
    {
        match idx_pair {
            WidgetIndexPair(0, 0) => self.title_bar.as_mut(),
            WidgetIndexPair(1, 0) => self.content.as_mut(),
            _ => None,
        }
    }

    /// Computes the sizes of the widgets for the area size.
    ///
    /// The title bar is sized for the area, the content widget for the area under the title
    /// bar, and the title bar again to the width of the content widget where the area width is
    /// unbounded or the width is trimmed (to zero without content).
    pub fn update_size(&mut self, theme: &W::Theme, area_size: Size<Option<i32>>)
        ensures
            (final(self).title_bar, final(self).content) == two_updated_size(old(self).title_bar, old(self).content, old(self).has_trimmed_width, *theme, area_size),
            final(self).has_trimmed_width == old(self).has_trimmed_width,
            final(self).has_trimmed_height == old(self).has_trimmed_height,
    {
        let mut area_size2 = area_size;
        match self.title_bar.as_mut() {
            Some(title_bar) => {
                title_bar.update_size(theme, area_size);
                match area_size2.height {
                    Some(area_height2) => {
                        let h = title_bar.margin_height();
                        if area_height2 >= h {
                            area_size2.height = Some(area_height2.wrapping_sub(h));
                        } else {
                            area_size2.height = Some(0);
                        }
                    },
                    None => {},
                }
            },
            None => {},
        }
        match self.content.as_mut() {
            Some(content) => content.update_size(theme, area_size2),
            None => {},
        }
        let content_width = match &self.content {
            Some(content) => Some(content.margin_width()),
            None => None,
        };
        let has_trimmed_width = self.has_trimmed_width;
        match self.title_bar.as_mut() {
            Some(title_bar) => {
                match content_width {
                    Some(w) => {
                        if area_size.width.is_none() || has_trimmed_width {
                            let h = title_bar.margin_height();
                            title_bar.update_size(theme, Size::new(Some(w), Some(h)));
                        }
                    },
                    None => {
                        if has_trimmed_width {
                            let h = title_bar.margin_height();
                            title_bar.update_size(theme, Size::new(Some(0), Some(h)));
                        }
                    },
                }
            },
            None => {},
        }
    }

    /// Computes the positions of the widgets in the area bounds: the title bar at the top with
    /// its margin height, and the content widget in the rest.
    pub fn update_pos(&mut self, theme: &W::Theme, area_bounds: Rect<i32>)
        ensures
            (final(self).title_bar, final(self).content) == two_updated_pos(old(self).title_bar, old(self).content, *theme, area_bounds),
            final(self).has_trimmed_width == old(self).has_trimmed_width,
            final(self).has_trimmed_height == old(self).has_trimmed_height,
    {
        let mut area_bounds2 = area_bounds;
        match self.title_bar.as_mut() {
            Some(title_bar) => {
                let h = title_bar.margin_height();
                let area_bounds3 = Rect::new(area_bounds.x, area_bounds.y, area_bounds.width, h);
                title_bar.update_pos(theme, area_bounds3);
                area_bounds2.y = area_bounds2.y.wrapping_add(h);
                area_bounds2.height = area_bounds2.height.wrapping_sub(h);
            },
            None => {},
        }
        match self.content.as_mut() {
            Some(content) => content.update_pos(theme, area_bounds2),
            None => {},
        }
    }

    /// Returns the padding size of the window for the area size: the size of the widgets one
    /// above the other, widened to the area on each side that is not trimmed.
    pub fn padding_size(&self, area_size: Size<Option<i32>>) -> (r: Size<i32>)
        ensures
            r.width == if self.has_trimmed_width {
                two_size(self.title_bar, self.content).width
            } else {
                len_for_opt_len(two_size(self.title_bar, self.content).width, area_size.width)
            },
            r.height == if self.has_trimmed_height {
                two_size(self.title_bar, self.content).height
            } else {
                len_for_opt_len(two_size(self.title_bar, self.content).height, area_size.height)
            },
    {
        let size = match (&self.title_bar, &self.content) {
            (Some(title_bar), Some(content)) => {
                let tw = title_bar.margin_width();
                let cw = content.margin_width();
                Size::new(if tw >= cw { tw } else { cw }, title_bar.margin_height().wrapping_add(content.margin_height()))
            },
            (Some(title_bar), None) => Size::new(title_bar.margin_width(), title_bar.margin_height()),
            (None, Some(content)) => Size::new(content.margin_width(), content.margin_height()),
            (None, None) => Size::new(0, 0),
        };
        let width = if self.has_trimmed_width {
            size.width
        } else {
            width_for_opt_width(size.width, area_size.width)
        };
        let height = if self.has_trimmed_height {
            size.height
        } else {
            height_for_opt_height(size.height, area_size.height)
        };
        Size::new(width, height)
    }
}

/// The two widgets come in one order: `next` goes from the title bar to the content widget and
/// `prev` back, the title bar having position 0 and the content widget position 1.
pub proof fn lemma_two_walk_moves(has_title_bar: bool, has_content: bool, idx_pair: Option<WidgetIndexPair>)
    ensures
        two_next(has_title_bar, has_content, idx_pair) matches Some(q) ==> {
            &&& q.0 < 2 && q.1 == 0
            &&& idx_pair matches Some(p) ==> p.0 < q.0
        },
        two_prev(has_title_bar, has_content, idx_pair) matches Some(q) ==> {
            &&& q.0 < 2 && q.1 == 0
            &&& idx_pair matches Some(p) ==> q.0 < p.0
        },
{
}

/// The padding size of the window fills the area on each side that is not trimmed.
pub proof fn lemma_padding_size_fills_area(len: i32, area_len: i32)
    ensures
        len_for_opt_len(len, Some(area_len)) >= area_len,
        len_for_opt_len(len, Some(area_len)) >= len,
{
}

/// The title bar sits above the content widget: the content widget gets the area height under
/// the title bar, which is never negative, and together with the title bar it takes the whole
/// area height where the title bar fits in it; the content area starts where the title bar
/// area ends.
pub proof fn lemma_content_under_title_bar(area_bounds: Rect<i32>, area_height: i32, title_bar_height: i32)
    requires
        0 <= title_bar_height,
    ensures
        height_under(area_height, title_bar_height) >= 0,
        title_bar_height <= area_height ==> title_bar_height + height_under(area_height, title_bar_height) == area_height,
        area_height < title_bar_height ==> height_under(area_height, title_bar_height) == 0,
        area_bounds.y + title_bar_height <= i32::MAX
            ==> area_bounds.y.wrapping_add(title_bar_height) == area_bounds.y + title_bar_height,
{
}

/// The title bar and the content widget share the area: the title bar is placed in a strip at
/// the top of the area as high as its margin height, and the content widget in the rest of the
/// area below it, so that the two areas together cover exactly the area; without a title bar
/// the content widget is placed in the whole area.
pub proof fn lemma_update_pos_splits_area<W: Widget>(title_bar: Option<W>, content: Option<W>, theme: W::Theme, area_bounds: Rect<i32>)
    requires
        title_bar matches Some(t) ==> {
            &&& i32::MIN <= area_bounds.y + t.spec_margin_bounds().height <= i32::MAX
            &&& i32::MIN <= area_bounds.height - t.spec_margin_bounds().height <= i32::MAX
        },
    ensures
        match title_bar {
            Some(t) => {
                let th = t.spec_margin_bounds().height;
                let title_area = Rect { x: area_bounds.x, y: area_bounds.y, width: area_bounds.width, height: th };
                let content_area = Rect {
                    x: area_bounds.x,
                    y: (area_bounds.y + th) as i32,
                    width: area_bounds.width,
                    height: (area_bounds.height - th) as i32,
                };
                &&& title_area.y + title_area.height == content_area.y
                &&& content_area.y + content_area.height == area_bounds.y + area_bounds.height
                &&& two_updated_pos(title_bar, content, theme, area_bounds).0 == Some(t.spec_updated_pos(&theme, title_area))
                &&& two_updated_pos(title_bar, content, theme, area_bounds).1 == match content {
                    Some(c) => Some(c.spec_updated_pos(&theme, content_area)),
                    None => None::<W>,
                }
            },
            None => {
                &&& two_updated_pos(title_bar, content, theme, area_bounds).0 is None
                &&& two_updated_pos(title_bar, content, theme, area_bounds).1 == match content {
                    Some(c) => Some(c.spec_updated_pos(&theme, area_bounds)),
                    None => None::<W>,
                }
            },
        },
{
}

} // verus!
