//! Basic geometric and index types shared by widgets and windows.
use vstd::prelude::*;

verus! {

/// An index of a window in a window container.
#[derive(Copy, Clone, Debug, PartialEq, Eq, Structural)]
pub struct WindowIndex(pub usize);

/// A pair of indices that identifies a child widget in its container.
#[derive(Copy, Clone, Debug, PartialEq, Eq, Structural)]
pub struct WidgetIndexPair(pub usize, pub usize);

/// A position.
#[derive(Copy, Clone, Debug, PartialEq, Eq, Structural)]
pub struct Pos<T> {
    pub x: T,
    pub y: T,
}

impl<T> Pos<T> {
    pub fn new(x: T, y: T) -> (p: Self)
        ensures
            p.x == x,
            p.y == y,
    {
        Pos { x, y }
    }
}

/// A size.
#[derive(Copy, Clone, Debug, PartialEq, Eq, Structural)]
pub struct Size<T> {
    pub width: T,
    pub height: T,
}

impl<T> Size<T> {
    pub fn new(width: T, height: T) -> (s: Self)
        ensures
            s.width == width,
            s.height == height,
    {
        Size { width, height }
    }
}

/// A rectangle given by its top left corner and its size.
#[derive(Copy, Clone, Debug, PartialEq, Eq, Structural)]
pub struct Rect<T> {
    pub x: T,
    pub y: T,
    pub width: T,
    pub height: T,
}

impl<T: Copy> Rect<T> {
    pub fn new(x: T, y: T, width: T, height: T) -> (r: Self)
        ensures
            r.x == x,
            r.y == y,
            r.width == width,
            r.height == height,
    {
        Rect { x, y, width, height }
    }

    pub fn pos(&self) -> (p: Pos<T>)
        ensures
            p.x == self.x,
            p.y == self.y,
    {
        Pos { x: self.x, y: self.y }
    }

    pub fn size(&self) -> (s: Size<T>)
        ensures
            s.width == self.width,
            s.height == self.height,
    {
        Size { width: self.width, height: self.height }
    }

    pub fn set_pos(&mut self, pos: Pos<T>)
        ensures
            final(self).x == pos.x,
            final(self).y == pos.y,
            final(self).width == old(self).width,
            final(self).height == old(self).height,
    {
        self.x = pos.x;
        self.y = pos.y;
    }

    pub fn set_size(&mut self, size: Size<T>)
        ensures
            final(self).x == old(self).x,
            final(self).y == old(self).y,
            final(self).width == size.width,
            final(self).height == size.height,
    {
        self.width = size.width;
        self.height = size.height;
    }
}

/// Widths of the four edges of a frame.
#[derive(Copy, Clone, Debug, PartialEq, Eq, Structural)]
pub struct Edges<T> {
    pub top: T,
    pub bottom: T,
    pub left: T,
    pub right: T,
}

impl<T> Edges<T> {
    pub fn new(top: T, bottom: T, left: T, right: T) -> (e: Self)
        ensures
            e.top == top,
            e.bottom == bottom,
            e.left == left,
            e.right == right,
    {
        Edges { top, bottom, left, right }
    }
}

/// A horizontal alignment.
#[derive(Copy, Clone, Debug, PartialEq, Eq, Structural)]
pub enum HAlign {
    Left,
    Center,
    Right,
    Fill,
}

/// A vertical alignment.
#[derive(Copy, Clone, Debug, PartialEq, Eq, Structural)]
pub enum VAlign {
    Top,
    Center,
    Bottom,
    Fill,
}

/// An orientation of a linear layout.
#[derive(Copy, Clone, Debug, PartialEq, Eq, Structural)]
pub enum Orient {
    Horizontal,
    Vertical,
}

/// An alignment of the lines of a text.
#[derive(Copy, Clone, Debug, PartialEq, Eq, Structural)]
pub enum TextAlign {
    Left,
    Center,
    Right,
}

/// The state of a widget under the pointer or the touch: normal (neither hovered nor pressed),
/// hovered, or pressed.
#[derive(Copy, Clone, Debug, PartialEq, Eq, Structural)]
pub enum WidgetState {
    Normal,
    Hover,
    Active,
}

/// An icon of a title button.
#[derive(Copy, Clone, Debug, PartialEq, Eq, Structural)]
pub enum TitleButtonIcon {
    Menu,
    Maximize,
    Close,
}

/// A direction of a traversal of widgets.
#[derive(Copy, Clone, Debug, PartialEq, Eq, Structural)]
pub enum Dir {
    Prev,
    Next,
}

/// A path of widget index pairs from a window to a widget.
///
/// A relative widget path always holds at least one widget index pair.
#[derive(Clone, Debug, PartialEq, Eq)]
pub struct RelWidgetPath {
    pub widget_index_pairs: Vec<WidgetIndexPair>,
}

impl RelWidgetPath {
    pub open spec fn view(&self) -> Seq<WidgetIndexPair> {
        self.widget_index_pairs@
    }

    pub fn new(idx_pair: WidgetIndexPair) -> (p: Self)
        ensures
            p@ == seq![idx_pair],
    {
        let mut v: Vec<WidgetIndexPair> = Vec::new();
        v.push(idx_pair);
        RelWidgetPath { widget_index_pairs: v }
    }

    pub fn push(&mut self, idx_pair: WidgetIndexPair)
        ensures
            final(self)@ == old(self)@.push(idx_pair),
    {
        self.widget_index_pairs.push(idx_pair);
    }

    /// Removes the last widget index pair unless it is the only one.
    pub fn pop(&mut self) -> (r: Option<WidgetIndexPair>)
        ensures
            old(self)@.len() > 1 ==> {
                &&& r == Some(old(self)@.last())
                &&& final(self)@ == old(self)@.drop_last()
            },
            old(self)@.len() <= 1 ==> r is None && final(self)@ == old(self)@,
    {
        if self.widget_index_pairs.len() > 1 {
            self.widget_index_pairs.pop()
        } else {
            None
        }
    }

    pub fn len(&self) -> (n: usize)
        ensures
            n == self@.len(),
    {
        self.widget_index_pairs.len()
    }

    pub fn get(&self, i: usize) -> (r: Option<WidgetIndexPair>)
        ensures
            i < self@.len() ==> r == Some(self@[i as int]),
            i >= self@.len() ==> r is None,
    {
        if i < self.widget_index_pairs.len() {
            Some(self.widget_index_pairs[i])
        } else {
            None
        }
    }

    /// Returns a copy of the widget index pairs.
    pub fn widget_index_pairs(&self) -> (v: Vec<WidgetIndexPair>)
        ensures
            v@ == self@,
    {
        let mut v: Vec<WidgetIndexPair> = Vec::new();
        let mut i: usize = 0;
        while i < self.widget_index_pairs.len()
            invariant
                i <= self.widget_index_pairs@.len(),
                v@ == self.widget_index_pairs@.subrange(0, i as int),
            decreases self.widget_index_pairs@.len() - i,
        {
            v.push(self.widget_index_pairs[i]);
            i = i + 1;
        }
        v
    }

    pub fn to_abs_widget_path(&self, idx: WindowIndex) -> (p: AbsWidgetPath)
        ensures
            p.window_index == idx,
            p.rel_widget_path@ == self@,
    {
        AbsWidgetPath { window_index: idx, rel_widget_path: self.copy() }
    }

    pub fn copy(&self) -> (p: Self)
        ensures
            p@ == self@,
    {
        RelWidgetPath { widget_index_pairs: self.widget_index_pairs() }
    }
}

/// A path from a window container to a widget: a window index and a relative widget path.
#[derive(Clone, Debug, PartialEq, Eq)]
pub struct AbsWidgetPath {
    pub window_index: WindowIndex,
    pub rel_widget_path: RelWidgetPath,
}

impl AbsWidgetPath {
    pub fn new(idx: WindowIndex, idx_pair: WidgetIndexPair) -> (p: Self)
        ensures
            p.window_index == idx,
            p.rel_widget_path@ == seq![idx_pair],
    {
        AbsWidgetPath { window_index: idx, rel_widget_path: RelWidgetPath::new(idx_pair) }
    }

    pub fn window_index(&self) -> (i: WindowIndex)
        ensures
            i == self.window_index,
    {
        self.window_index
    }

    pub fn as_rel_widget_path(&self) -> (p: &RelWidgetPath)
        ensures
            *p == self.rel_widget_path,
    {
        &self.rel_widget_path
    }

    pub fn clone_path(&self) -> (p: Self)
        ensures
            p.window_index == self.window_index,
            p.rel_widget_path@ == self.rel_widget_path@,
    {
        AbsWidgetPath { window_index: self.window_index, rel_widget_path: self.rel_widget_path.copy() }
    }

    pub fn push(&mut self, idx_pair: WidgetIndexPair)
        ensures
            final(self).window_index == old(self).window_index,
            final(self).rel_widget_path@ == old(self).rel_widget_path@.push(idx_pair),
    {
        self.rel_widget_path.push(idx_pair);
    }
}

} // verus!
