//! A toplevel window: a window with a title bar of title buttons and a title above a content
//! widget.
use std::sync::atomic::AtomicBool;
use std::sync::atomic::Ordering;
use std::sync::Arc;
use vstd::prelude::*;
use crate::child_index_set::ChildIndexSet;
use crate::theme::Theme;
use crate::linear_layout_widgets::layout_child;
use crate::title_bar::{TitleBar, TitleBarView};
use crate::title_button::{new_title_button_view, TitleButton, TitleButtonView};
use crate::two_window_widgets::{content_pair, title_bar_pair, two_child, two_next, two_prev, TwoWindowWidgets};
use crate::types::{Edges, Pos, Rect, RelWidgetPath, Size, TitleButtonIcon, WidgetIndexPair, WindowIndex};
use crate::utils::{inner_opt_size, inner_pos, inner_rect, outer_size};
use crate::widget::{clone_arc, paths_diverge, widget_descend, Widget};
use crate::window::{opt_path_view, widget_descend_mut, ChildWindowIndex, ParentWindowIndex, ParentWindowTag, SelfWindowIndex, SelfWindowTag, Window};

verus! {

/// The widgets that a toplevel window builds its title bar from.
///
/// A widget type of a toplevel window holds title bars, title buttons and titles.
pub trait ToplevelWidget: Widget {
    /// What the widget holds where it is a title bar.
    closed spec fn spec_title_bar(&self) -> Option<TitleBarView<Self>> {
        arbitrary()
    }

    /// What the widget holds where it is a title button.
    closed spec fn spec_title_button(&self) -> Option<TitleButtonView> {
        arbitrary()
    }

    /// Whether the widget is a title.
    closed spec fn spec_is_title(&self) -> bool {
        arbitrary()
    }

    /// The text of the widget where it is a title.
    closed spec fn spec_title_text(&self) -> Seq<char> {
        arbitrary()
    }

    /// Returns the widget of the title bar: its children are the widgets of the title bar.
    fn from_title_bar(title_bar: TitleBar<Self>) -> (r: Self)
        ensures
            r.spec_title_bar() == Some(title_bar@),
            forall|i: WidgetIndexPair| #[trigger] r.spec_child(i) == layout_child(title_bar@.widgets, i),
    ;

    /// Returns the widget of the title button; it stays that title button when it shares a
    /// change flag.
    fn from_title_button(title_button: TitleButton) -> (r: Self)
        ensures
            r.spec_title_button() == Some(title_button@),
            !r.spec_is_title(),
            forall|f: Arc<AtomicBool>| #[trigger] r.spec_with_change_flag(f).spec_title_button() == Some(title_button@),
    ;

    /// Returns a new title with the text; it stays that title when it shares a change flag.
    fn new_title(text: &str) -> (r: Self)
        ensures
            r.spec_is_title(),
            r.spec_title_text() == text@,
            r.spec_title_button() is None,
            forall|f: Arc<AtomicBool>| #[trigger] r.spec_with_change_flag(f).spec_is_title()
                && r.spec_with_change_flag(f).spec_title_text() == text@,
    ;

    /// Sets the text of the widget if it is a title and returns whether it is one; a widget
    /// that is no title stays as it is.
    fn set_title_text(&mut self, text: &str) -> (r: bool)
        ensures
            r == old(self).spec_is_title(),
            r ==> final(self).spec_is_title() && final(self).spec_title_text() == text@,
            !r ==> *final(self) == *old(self),
    ;
}

/// The title bar that a new toplevel window builds: a disabled menu button, an empty title, a
/// maximize button and a close button, and no other child.
pub open spec fn new_title_bar_built<W: ToplevelWidget>(title_bar: W) -> bool {
    &&& title_bar.spec_child(WidgetIndexPair(0, 0)) matches Some(c)
        && c.spec_title_button() == Some(TitleButtonView { is_enabled: false, ..new_title_button_view(TitleButtonIcon::Menu) })
    &&& title_bar.spec_child(WidgetIndexPair(1, 0)) matches Some(c)
        && c.spec_is_title() && c.spec_title_text() == Seq::<char>::empty()
    &&& title_bar.spec_child(WidgetIndexPair(2, 0)) matches Some(c)
        && c.spec_title_button() == Some(new_title_button_view(TitleButtonIcon::Maximize))
    &&& title_bar.spec_child(WidgetIndexPair(3, 0)) matches Some(c)
        && c.spec_title_button() == Some(new_title_button_view(TitleButtonIcon::Close))
    &&& forall|i: WidgetIndexPair| #[trigger] title_bar.spec_child(i) is Some <==> (i.1 == 0 && i.0 < 4)
}

/// The integer is an `i32`.
pub open spec fn fits_i32(x: int) -> bool {
    i32::MIN <= x <= i32::MAX
}

/// The widget of the two widgets of a window that the path leads to, or `None`.
pub open spec fn two_path_widget<W: Widget>(widgets: TwoWindowWidgets<W>, path: Seq<WidgetIndexPair>) -> Option<W> {
    if path.len() == 0 {
        None
    } else {
        match two_child(widgets.title_bar, widgets.content, path[0]) {
            Some(c) => widget_descend(c, path.drop_first()),
            None => None,
        }
    }
}

/// The title widget of the window after its text is set: a title widget gets the text and the
/// widgets off its path stay as they are; where the path leads to no title, all the widgets
/// stay as they are.
pub open spec fn title_text_set<W: ToplevelWidget>(
    old_widgets: TwoWindowWidgets<W>,
    new_widgets: TwoWindowWidgets<W>,
    title_path: Option<Seq<WidgetIndexPair>>,
    text: Seq<char>,
) -> bool {
    match title_path {
        Some(p) => match two_path_widget(old_widgets, p) {
            Some(w) => {
                if w.spec_is_title() {
                    &&& two_path_widget(new_widgets, p) matches Some(w2) && w2.spec_is_title() && w2.spec_title_text() == text
                    &&& forall|q: Seq<WidgetIndexPair>| #[trigger] paths_diverge(p, q)
                        ==> two_path_widget(new_widgets, q) == two_path_widget(old_widgets, q)
                    &&& new_widgets.has_trimmed_width == old_widgets.has_trimmed_width
                    &&& new_widgets.has_trimmed_height == old_widgets.has_trimmed_height
                } else {
                    new_widgets == old_widgets
                }
            },
            None => new_widgets == old_widgets,
        },
        None => new_widgets == old_widgets,
    }
}

/// A toplevel window.
///
/// The title bar has the widget index pair `(0, 0)` and the content widget `(1, 0)`. The
/// widgets of the window share its change flag, and the window raises it when it or a setting
/// that changes its look changes.
pub struct ToplevelWindow<W> {
    title: Option<String>,
    size: Size<i32>,
    padding_bounds: Rect<i32>,
    edges: Edges<i32>,
    is_visible: bool,
    is_focused: bool,
    is_maximized: bool,
    is_resizable: bool,
    change_flag_arc: Arc<AtomicBool>,
    is_moved: bool,
    min_size: Size<Option<i32>>,
    preferred_size: Size<Option<i32>>,
    child_index_set: ChildIndexSet,
    pub widgets: TwoWindowWidgets<W>,
    focused_rel_widget_path: Option<RelWidgetPath>,
    menu_button_path: Option<RelWidgetPath>,
    title_path: Option<RelWidgetPath>,
    maximize_button_path: Option<RelWidgetPath>,
    close_button_path: Option<RelWidgetPath>,
}

/// Raises the change flag.
fn raise_change_flag(flag_arc: &Arc<AtomicBool>) {
    flag_arc.store(true, Ordering::SeqCst);
}

/// Lowers the change flag.
fn lower_change_flag(flag_arc: &Arc<AtomicBool>) {
    flag_arc.store(false, Ordering::SeqCst);
}

/// Reads the change flag.
fn read_change_flag(flag_arc: &Arc<AtomicBool>) -> bool {
    flag_arc.load(Ordering::SeqCst)
}

/// Returns a path of two widget index pairs.
fn path2(a: WidgetIndexPair, b: WidgetIndexPair) -> (r: RelWidgetPath)
    ensures
        r@ == seq![a, b],
{
    let mut p = RelWidgetPath::new(a);
    p.push(b);
    p
}

/// Returns the mutable widget of the two widgets that the path leads to, or `None`.
fn path_widget_mut<'a, W: Widget>(widgets: &'a mut TwoWindowWidgets<W>, path: &RelWidgetPath) -> (r: Option<&'a mut W>)
    ensures
        match r {
            Some(x) => {
                &&& two_path_widget(*old(widgets), path@) == Some(*x)
                &&& two_path_widget(*final(widgets), path@) == Some(*final(x))
                &&& *final(x) == *x ==> *final(widgets) == *old(widgets)
                &&& forall|q: Seq<WidgetIndexPair>| #[trigger] paths_diverge(path@, q)
                    ==> two_path_widget(*final(widgets), q) == two_path_widget(*old(widgets), q)
                &&& final(widgets).has_trimmed_width == old(widgets).has_trimmed_width
                &&& final(widgets).has_trimmed_height == old(widgets).has_trimmed_height
            },
            None => two_path_widget(*old(widgets), path@) is None && *final(widgets) == *old(widgets),
        },
{
    if path.len() == 0 {
        return None;
    }
    proof {
        assert(path@.subrange(1, path@.len() as int) =~= path@.drop_first());
    }
    let ghost w0 = *widgets;
    let ghost w1 = *final(widgets);
    match widgets.dyn_widget_mut(path.widget_index_pairs[0]) {
        Some(w) => {
            let ghost c0 = *w;
            let ghost c1 = *final(w);
            let r = widget_descend_mut(w, path, 1);
            proof {
                if r is Some {
                    assert forall|q: Seq<WidgetIndexPair>| #[trigger] paths_diverge(path@, q)
                        implies two_path_widget(w1, q) == two_path_widget(w0, q) by {
                        if q[0] != path@[0] {
                            assert(two_child(w1.title_bar, w1.content, q[0]) == two_child(w0.title_bar, w0.content, q[0]));
                        } else {
                            assert(paths_diverge(path@.subrange(1, path@.len() as int), q.drop_first()));
                        }
                    }
                }
            }
            r
        },
        None => None,
    }
}

/// Returns a reference to the path, or `None`.
fn opt_path_ref(p: &Option<RelWidgetPath>) -> (r: Option<&RelWidgetPath>)
    ensures
        match r {
            Some(q) => opt_path_view(*p) == Some(q@),
            None => p is None,
        },
{
    match p {
        Some(path) => Some(path),
        None => None,
    }
}

impl<W: ToplevelWidget> ToplevelWindow<W> {
    /// The title of the window.
    pub closed spec fn spec_title(&self) -> Option<Seq<char>> {
        match self.title {
            Some(t) => Some(t@),
            None => None,
        }
    }

    /// The change flag that the window and its widgets raise when they change.
    pub closed spec fn spec_change_flag(&self) -> Arc<AtomicBool> {
        self.change_flag_arc
    }

    /// The widgets of the window.
    pub closed spec fn spec_widgets(&self) -> TwoWindowWidgets<W> {
        self.widgets
    }

    pub closed spec fn spec_size(&self) -> Size<i32> {
        self.size
    }

    pub closed spec fn spec_padding_bounds(&self) -> Rect<i32> {
        self.padding_bounds
    }

    pub closed spec fn spec_edges(&self) -> Edges<i32> {
        self.edges
    }

    pub closed spec fn spec_is_visible(&self) -> bool {
        self.is_visible
    }

    pub closed spec fn spec_is_focused(&self) -> bool {
        self.is_focused
    }

    pub closed spec fn spec_is_maximized(&self) -> bool {
        self.is_maximized
    }

    pub closed spec fn spec_is_resizable_setting(&self) -> bool {
        self.is_resizable
    }

    pub closed spec fn spec_is_moved(&self) -> bool {
        self.is_moved
    }

    pub closed spec fn spec_min_size(&self) -> Size<Option<i32>> {
        self.min_size
    }

    pub closed spec fn spec_preferred_size(&self) -> Size<Option<i32>> {
        self.preferred_size
    }

    pub closed spec fn spec_menu_button_path(&self) -> Option<Seq<WidgetIndexPair>> {
        opt_path_view(self.menu_button_path)
    }

    pub closed spec fn spec_title_path(&self) -> Option<Seq<WidgetIndexPair>> {
        opt_path_view(self.title_path)
    }

    pub closed spec fn spec_maximize_button_path(&self) -> Option<Seq<WidgetIndexPair>> {
        opt_path_view(self.maximize_button_path)
    }

    pub closed spec fn spec_close_button_path(&self) -> Option<Seq<WidgetIndexPair>> {
        opt_path_view(self.close_button_path)
    }

    /// Returns a new visible and resizable toplevel window with a title bar: a disabled menu
    /// button, an empty title, a maximize button and a close button, in this order.
    ///
    /// The paths of the menu button, the title and the maximize button are kept; the path of
    /// the close button is set as the path of the maximize button, so that the close button
    /// path stays unset.
    pub fn new() -> (r: Option<Self>)
        ensures
            r matches Some(w) && {
                &&& w.spec_title() is None
                &&& w.spec_size() == (Size { width: 0i32, height: 0i32 })
                &&& w.spec_padding_bounds() == (Rect { x: 0i32, y: 0i32, width: 0i32, height: 0i32 })
                &&& w.spec_is_visible()
                &&& !w.spec_is_focused()
                &&& !w.spec_is_maximized()
                &&& w.spec_is_resizable_setting()
                &&& !w.spec_is_moved()
                &&& w.spec_child_indices() == Set::<usize>::empty()
                &&& w.spec_widgets().title_bar matches Some(t) && new_title_bar_built(t)
                &&& w.spec_widgets().content is None
                &&& !w.spec_widgets().has_trimmed_width
                &&& !w.spec_widgets().has_trimmed_height
                &&& w.spec_focused_rel_widget_path() is None
                &&& w.spec_menu_button_path() == Some(seq![title_bar_pair(), WidgetIndexPair(0, 0)])
                &&& w.spec_title_path() == Some(seq![title_bar_pair(), WidgetIndexPair(1, 0)])
                &&& w.spec_maximize_button_path() == Some(seq![title_bar_pair(), WidgetIndexPair(3, 0)])
                &&& w.spec_close_button_path() is None
            },
    {
        let mut window = ToplevelWindow {
            title: None,
            size: Size::new(0, 0),
            padding_bounds: Rect::new(0, 0, 0, 0),
            edges: Edges::new(0, 0, 0, 0),
            is_visible: true,
            is_focused: false,
            is_maximized: false,
            is_resizable: true,
            change_flag_arc: Arc::new(AtomicBool::new(false)),
            is_moved: false,
            min_size: Size::new(None, None),
            preferred_size: Size::new(None, None),
            child_index_set: ChildIndexSet::new(),
            widgets: TwoWindowWidgets::new(),
            focused_rel_widget_path: None,
            menu_button_path: None,
            title_path: None,
            maximize_button_path: None,
            close_button_path: None,
        };
        let mut title_bar: TitleBar<W> = TitleBar::new();
        title_bar.set_change_flag_arc(clone_arc(&window.change_flag_arc));
        let mut menu_button = TitleButton::new(TitleButtonIcon::Menu);
        menu_button.set_enabled(false);
        let menu_button_widget = W::from_title_button(menu_button);
        let menu_button_idx_pair = match title_bar.add(menu_button_widget) {
            Some(idx_pair) => idx_pair,
            None => return None,
        };
        let title_widget = W::new_title("");
        let title_idx_pair = match title_bar.add(title_widget) {
            Some(idx_pair) => idx_pair,
            None => return None,
        };
        let maximize_button_widget = W::from_title_button(TitleButton::new(TitleButtonIcon::Maximize));
        let maximize_button_idx_pair = match title_bar.add(maximize_button_widget) {
            Some(idx_pair) => idx_pair,
            None => return None,
        };
        let close_button_widget = W::from_title_button(TitleButton::new(TitleButtonIcon::Close));
        let close_button_idx_pair = match title_bar.add(close_button_widget) {
            Some(idx_pair) => idx_pair,
            None => return None,
        };
        let ghost flag = window.change_flag_arc;
        let ghost added = seq![menu_button_widget, title_widget, maximize_button_widget, close_button_widget];
        proof {
            assert(title_bar@.widgets =~= Seq::new(4, |k: int| added[k].spec_with_change_flag(flag)));
        }
        let title_bar_widget = W::from_title_bar(title_bar);
        proof {
            reveal_strlit("");
            assert(""@ =~= Seq::<char>::empty());
            assert(title_bar_widget.spec_child(WidgetIndexPair(0, 0)) == Some(added[0].spec_with_change_flag(flag)));
            assert(title_bar_widget.spec_child(WidgetIndexPair(1, 0)) == Some(added[1].spec_with_change_flag(flag)));
            assert(title_bar_widget.spec_child(WidgetIndexPair(2, 0)) == Some(added[2].spec_with_change_flag(flag)));
            assert(title_bar_widget.spec_child(WidgetIndexPair(3, 0)) == Some(added[3].spec_with_change_flag(flag)));
            assert(added[0] == menu_button_widget && added[1] == title_widget);
            assert(added[2] == maximize_button_widget && added[3] == close_button_widget);
            assert(menu_button_widget.spec_with_change_flag(flag).spec_title_button()
                == Some(TitleButtonView { is_enabled: false, ..new_title_button_view(TitleButtonIcon::Menu) }));
            assert(title_widget.spec_with_change_flag(flag).spec_is_title());
            assert(title_widget.spec_with_change_flag(flag).spec_title_text() == Seq::<char>::empty());
            assert(maximize_button_widget.spec_with_change_flag(flag).spec_title_button() == Some(new_title_button_view(TitleButtonIcon::Maximize)));
            assert(close_button_widget.spec_with_change_flag(flag).spec_title_button() == Some(new_title_button_view(TitleButtonIcon::Close)));
            assert(new_title_bar_built(title_bar_widget));
        }
        window.widgets.title_bar = Some(title_bar_widget);
        raise_change_flag(&window.change_flag_arc);
        let title_bar_idx_pair = WidgetIndexPair(0, 0);
        window.menu_button_path = Some(path2(title_bar_idx_pair, menu_button_idx_pair));
        window.title_path = Some(path2(title_bar_idx_pair, title_idx_pair));
        window.maximize_button_path = Some(path2(title_bar_idx_pair, maximize_button_idx_pair));
        window.maximize_button_path = Some(path2(title_bar_idx_pair, close_button_idx_pair));
        Some(window)
    }
}

impl<W: ToplevelWidget> ToplevelWindow<W> {
    /// Sets the title of the window and the text of its title widget.
    pub fn set_title(&mut self, title: &str)
        ensures
            final(self).spec_title() == Some(title@),
            title_text_set(old(self).spec_widgets(), final(self).spec_widgets(), old(self).spec_title_path(), title@),
            final(self).spec_title_path() == old(self).spec_title_path(),
            final(self).spec_menu_button_path() == old(self).spec_menu_button_path(),
            final(self).spec_maximize_button_path() == old(self).spec_maximize_button_path(),
            final(self).spec_close_button_path() == old(self).spec_close_button_path(),
            final(self).spec_focused_rel_widget_path() == old(self).spec_focused_rel_widget_path(),
    {
        self.title = Some(title.to_owned());
        let title_path = match &self.title_path {
            Some(path) => Some(path.copy()),
            None => None,
        };
        match title_path {
            Some(title_path) => {
                match path_widget_mut(&mut self.widgets, &title_path) {
                    Some(title_widget) => {
                        title_widget.set_title_text(title);
                    },
                    None => {},
                }
            },
            None => {},
        }
        raise_change_flag(&self.change_flag_arc);
    }

    /// Unsets the title of the window and empties the text of its title widget.
    pub fn unset_title(&mut self)
        ensures
            final(self).spec_title() is None,
            title_text_set(old(self).spec_widgets(), final(self).spec_widgets(), old(self).spec_title_path(), Seq::<char>::empty()),
            final(self).spec_title_path() == old(self).spec_title_path(),
            final(self).spec_menu_button_path() == old(self).spec_menu_button_path(),
            final(self).spec_maximize_button_path() == old(self).spec_maximize_button_path(),
            final(self).spec_close_button_path() == old(self).spec_close_button_path(),
            final(self).spec_focused_rel_widget_path() == old(self).spec_focused_rel_widget_path(),
    {
        self.title = None;
        let title_path = match &self.title_path {
            Some(path) => Some(path.copy()),
            None => None,
        };
        match title_path {
            Some(title_path) => {
                match path_widget_mut(&mut self.widgets, &title_path) {
                    Some(title_widget) => {
                        proof {
                            reveal_strlit("");
                            assert(""@ =~= Seq::<char>::empty());
                        }
                        title_widget.set_title_text("");
                    },
                    None => {},
                }
            },
            None => {},
        }
        raise_change_flag(&self.change_flag_arc);
    }

    pub fn set_visible(&mut self, is_visible: bool)
        ensures
            final(self).spec_is_visible() == is_visible,
            final(self).spec_widgets() == old(self).spec_widgets(),
    {
        let old_visible_flag = self.is_visible;
        self.is_visible = is_visible;
        if old_visible_flag != self.is_visible {
            raise_change_flag(&self.change_flag_arc);
        }
    }

    pub fn set_resizeble(&mut self, is_resizable: bool)
        ensures
            final(self).spec_is_resizable_setting() == is_resizable,
            final(self).spec_widgets() == old(self).spec_widgets(),
    {
        let old_resizable_flag = self.is_resizable;
        self.is_resizable = is_resizable;
        if old_resizable_flag != self.is_resizable {
            raise_change_flag(&self.change_flag_arc);
        }
    }

    pub fn has_trimmed_width(&self) -> (r: bool)
        ensures
            r == self.spec_widgets().has_trimmed_width,
    {
        self.widgets.has_trimmed_width
    }

    pub fn set_trimmed_width(&mut self, is_trimmed_width: bool)
        ensures
            final(self).spec_widgets() == (TwoWindowWidgets { has_trimmed_width: is_trimmed_width, ..old(self).spec_widgets() }),
    {
        let old_trimmed_width_flag = self.widgets.has_trimmed_width;
        self.widgets.has_trimmed_width = is_trimmed_width;
        if old_trimmed_width_flag != self.widgets.has_trimmed_width {
            raise_change_flag(&self.change_flag_arc);
        }
    }

    pub fn has_trimmed_height(&self) -> (r: bool)
        ensures
            r == self.spec_widgets().has_trimmed_height,
    {
        self.widgets.has_trimmed_height
    }

    pub fn set_trimmed_height(&mut self, is_trimmed_height: bool)
        ensures
            final(self).spec_widgets() == (TwoWindowWidgets { has_trimmed_height: is_trimmed_height, ..old(self).spec_widgets() }),
    {
        let old_trimmed_height_flag = self.widgets.has_trimmed_height;
        self.widgets.has_trimmed_height = is_trimmed_height;
        if old_trimmed_height_flag != self.widgets.has_trimmed_height {
            raise_change_flag(&self.change_flag_arc);
        }
    }

    /// Sets the title bar, which shares the change flag of the window, and returns its widget
    /// index pair.
    pub fn set_dyn_title_bar(&mut self, widget: W) -> (r: Option<WidgetIndexPair>)
        ensures
            r == Some(title_bar_pair()),
            final(self).spec_widgets().title_bar matches Some(t) && crate::widget::same_but_change_flag(t, widget)
                && t == widget.spec_with_change_flag(old(self).spec_change_flag()),
            final(self).spec_change_flag() == old(self).spec_change_flag(),
            final(self).spec_widgets().content == old(self).spec_widgets().content,
            final(self).spec_widgets().has_trimmed_width == old(self).spec_widgets().has_trimmed_width,
            final(self).spec_widgets().has_trimmed_height == old(self).spec_widgets().has_trimmed_height,
            final(self).spec_focused_rel_widget_path() == old(self).spec_focused_rel_widget_path(),
    {
        let mut widget = widget;
        widget.set_change_flag_arc(clone_arc(&self.change_flag_arc));
        self.widgets.title_bar = Some(widget);
        raise_change_flag(&self.change_flag_arc);
        Some(WidgetIndexPair(0, 0))
    }

    /// Sets the title bar, which shares the change flag of the window, and returns its widget
    /// index pair.
    pub fn set_title_bar(&mut self, widget: W) -> (r: Option<WidgetIndexPair>)
        ensures
            r == Some(title_bar_pair()),
            final(self).spec_widgets().title_bar matches Some(t) && crate::widget::same_but_change_flag(t, widget)
                && t == widget.spec_with_change_flag(old(self).spec_change_flag()),
            final(self).spec_change_flag() == old(self).spec_change_flag(),
            final(self).spec_widgets().content == old(self).spec_widgets().content,
            final(self).spec_widgets().has_trimmed_width == old(self).spec_widgets().has_trimmed_width,
            final(self).spec_widgets().has_trimmed_height == old(self).spec_widgets().has_trimmed_height,
            final(self).spec_focused_rel_widget_path() == old(self).spec_focused_rel_widget_path(),
    {
        self.set_dyn_title_bar(widget)
    }

    /// Unsets the title bar and returns it.
    pub fn unset_title_bar(&mut self) -> (r: Option<W>)
        ensures
            r == old(self).spec_widgets().title_bar,
            final(self).spec_widgets() == (TwoWindowWidgets { title_bar: None, ..old(self).spec_widgets() }),
            final(self).spec_focused_rel_widget_path() == old(self).spec_focused_rel_widget_path(),
    {
        let title_bar = self.widgets.title_bar.take();
        raise_change_flag(&self.change_flag_arc);
        title_bar
    }

    /// Sets the content widget, which shares the change flag of the window, and returns its
    /// widget index pair.
    pub fn set_dyn(&mut self, widget: W) -> (r: Option<WidgetIndexPair>)
        ensures
            r == Some(content_pair()),
            final(self).spec_widgets().content matches Some(c) && crate::widget::same_but_change_flag(c, widget)
                && c == widget.spec_with_change_flag(old(self).spec_change_flag()),
            final(self).spec_change_flag() == old(self).spec_change_flag(),
            final(self).spec_widgets().title_bar == old(self).spec_widgets().title_bar,
            final(self).spec_widgets().has_trimmed_width == old(self).spec_widgets().has_trimmed_width,
            final(self).spec_widgets().has_trimmed_height == old(self).spec_widgets().has_trimmed_height,
            final(self).spec_focused_rel_widget_path() == old(self).spec_focused_rel_widget_path(),
    {
        let mut widget = widget;
        widget.set_change_flag_arc(clone_arc(&self.change_flag_arc));
        self.widgets.content = Some(widget);
        raise_change_flag(&self.change_flag_arc);
        Some(WidgetIndexPair(1, 0))
    }

    /// Sets the content widget, which shares the change flag of the window, and returns its
    /// widget index pair.
    pub fn set(&mut self, widget: W) -> (r: Option<WidgetIndexPair>)
        ensures
            r == Some(content_pair()),
            final(self).spec_widgets().content matches Some(c) && crate::widget::same_but_change_flag(c, widget)
                && c == widget.spec_with_change_flag(old(self).spec_change_flag()),
            final(self).spec_change_flag() == old(self).spec_change_flag(),
            final(self).spec_widgets().title_bar == old(self).spec_widgets().title_bar,
            final(self).spec_widgets().has_trimmed_width == old(self).spec_widgets().has_trimmed_width,
            final(self).spec_widgets().has_trimmed_height == old(self).spec_widgets().has_trimmed_height,
            final(self).spec_focused_rel_widget_path() == old(self).spec_focused_rel_widget_path(),
    {
        self.set_dyn(widget)
    }

    /// Unsets the content widget and returns it.
    pub fn unset(&mut self) -> (r: Option<W>)
        ensures
            r == old(self).spec_widgets().content,
            final(self).spec_widgets() == (TwoWindowWidgets { content: None, ..old(self).spec_widgets() }),
            final(self).spec_focused_rel_widget_path() == old(self).spec_focused_rel_widget_path(),
    {
        let content = self.widgets.content.take();
        raise_change_flag(&self.change_flag_arc);
        content
    }

    pub fn menu_button_path(&self) -> (r: Option<&RelWidgetPath>)
        ensures
            match r {
                Some(p) => self.spec_menu_button_path() == Some(p@),
                None => self.spec_menu_button_path() is None,
            },
    {
        opt_path_ref(&self.menu_button_path)
    }

    pub fn set_menu_button_path(&mut self, path: Option<RelWidgetPath>)
        ensures
            final(self).spec_menu_button_path() == opt_path_view(path),
            final(self).spec_title_path() == old(self).spec_title_path(),
            final(self).spec_maximize_button_path() == old(self).spec_maximize_button_path(),
            final(self).spec_close_button_path() == old(self).spec_close_button_path(),
            final(self).spec_widgets() == old(self).spec_widgets(),
            final(self).spec_focused_rel_widget_path() == old(self).spec_focused_rel_widget_path(),
    {
        self.menu_button_path = path;
    }

    pub fn title_path(&self) -> (r: Option<&RelWidgetPath>)
        ensures
            match r {
                Some(p) => self.spec_title_path() == Some(p@),
                None => self.spec_title_path() is None,
            },
    {
        opt_path_ref(&self.title_path)
    }

    pub fn set_title_path(&mut self, path: Option<RelWidgetPath>)
        ensures
            final(self).spec_title_path() == opt_path_view(path),
            final(self).spec_menu_button_path() == old(self).spec_menu_button_path(),
            final(self).spec_maximize_button_path() == old(self).spec_maximize_button_path(),
            final(self).spec_close_button_path() == old(self).spec_close_button_path(),
            final(self).spec_widgets() == old(self).spec_widgets(),
            final(self).spec_focused_rel_widget_path() == old(self).spec_focused_rel_widget_path(),
    {
        self.title_path = path;
    }

    pub fn maximize_button_path(&self) -> (r: Option<&RelWidgetPath>)
        ensures
            match r {
                Some(p) => self.spec_maximize_button_path() == Some(p@),
                None => self.spec_maximize_button_path() is None,
            },
    {
        opt_path_ref(&self.maximize_button_path)
    }

    pub fn set_maximize_button_path(&mut self, path: Option<RelWidgetPath>)
        ensures
            final(self).spec_maximize_button_path() == opt_path_view(path),
            final(self).spec_menu_button_path() == old(self).spec_menu_button_path(),
            final(self).spec_title_path() == old(self).spec_title_path(),
            final(self).spec_close_button_path() == old(self).spec_close_button_path(),
            final(self).spec_widgets() == old(self).spec_widgets(),
            final(self).spec_focused_rel_widget_path() == old(self).spec_focused_rel_widget_path(),
    {
        self.maximize_button_path = path;
    }

    pub fn close_button_path(&self) -> (r: Option<&RelWidgetPath>)
        ensures
            match r {
                Some(p) => self.spec_close_button_path() == Some(p@),
                None => self.spec_close_button_path() is None,
            },
    {
        opt_path_ref(&self.close_button_path)
    }

    pub fn set_close_button_path(&mut self, path: Option<RelWidgetPath>)
        ensures
            final(self).spec_close_button_path() == opt_path_view(path),
            final(self).spec_menu_button_path() == old(self).spec_menu_button_path(),
            final(self).spec_title_path() == old(self).spec_title_path(),
            final(self).spec_maximize_button_path() == old(self).spec_maximize_button_path(),
            final(self).spec_widgets() == old(self).spec_widgets(),
            final(self).spec_focused_rel_widget_path() == old(self).spec_focused_rel_widget_path(),
    {
        self.close_button_path = path;
    }

    pub fn size(&self) -> (r: Size<i32>)
        ensures
            r == self.spec_size(),
    {
        self.size
    }

    pub fn padding_bounds(&self) -> (r: Rect<i32>)
        ensures
            r == self.spec_padding_bounds(),
    {
        self.padding_bounds
    }

    pub fn edges(&self) -> (r: Edges<i32>)
        ensures
            r == self.spec_edges(),
    {
        self.edges
    }

    pub fn is_visible(&self) -> (r: bool)
        ensures
            r == self.spec_is_visible(),
    {
        self.is_visible
    }

    /// Sets the focus of the window; a toplevel window always accepts it.
    pub fn set_focus(&mut self, is_focused: bool) -> (r: bool)
        ensures
            r,
            final(self).spec_is_focused() == is_focused,
            final(self).spec_widgets() == old(self).spec_widgets(),
    {
        let old_focus_flag = self.is_focused;
        self.is_focused = is_focused;
        if old_focus_flag != self.is_focused {
            raise_change_flag(&self.change_flag_arc);
        }
        true
    }

    pub fn is_maximized(&self) -> (r: bool)
        ensures
            r == self.spec_is_maximized(),
    {
        self.is_maximized
    }

    /// Sets the maximization of the window; a toplevel window always accepts it.
    pub fn set_maximized(&mut self, is_maximized: bool) -> (r: bool)
        ensures
            r,
            final(self).spec_is_maximized() == is_maximized,
            final(self).spec_widgets() == old(self).spec_widgets(),
    {
        let old_maximized_flag = self.is_maximized;
        self.is_maximized = is_maximized;
        if old_maximized_flag != self.is_maximized {
            raise_change_flag(&self.change_flag_arc);
        }
        true
    }

    /// A toplevel window is resizable while it is not maximized and its resizing is allowed.
    pub fn is_resizable(&self) -> (r: bool)
        ensures
            r == (!self.spec_is_maximized() && self.spec_is_resizable_setting()),
    {
        !self.is_maximized && self.is_resizable
    }

    /// Returns whether the window or one of its widgets changed since the flag was cleared.
    pub fn is_changed(&self) -> bool {
        read_change_flag(&self.change_flag_arc)
    }

    pub fn clear_change_flag(&mut self)
        ensures
            *final(self) == *old(self),
    {
        lower_change_flag(&self.change_flag_arc);
    }

    pub fn is_moved(&self) -> (r: bool)
        ensures
            r == self.spec_is_moved(),
    {
        self.is_moved
    }

    /// Marks the window as moved; a toplevel window can always be moved.
    pub fn _move(&mut self) -> (r: bool)
        ensures
            r,
            final(self).spec_is_moved(),
            final(self).spec_widgets() == old(self).spec_widgets(),
    {
        self.is_moved = true;
        true
    }

    pub fn clear_move_flag(&mut self) -> (r: bool)
        ensures
            r,
            !final(self).spec_is_moved(),
            final(self).spec_widgets() == old(self).spec_widgets(),
    {
        self.is_moved = false;
        true
    }

    pub fn min_size(&self) -> (r: Size<Option<i32>>)
        ensures
            r == self.spec_min_size(),
    {
        self.min_size
    }

    pub fn set_min_size(&mut self, size: Size<Option<i32>>)
        ensures
            final(self).spec_min_size() == size,
            final(self).spec_widgets() == old(self).spec_widgets(),
    {
        let old_min_size = self.min_size;
        self.min_size = size;
        if old_min_size.width != self.min_size.width || old_min_size.height != self.min_size.height {
            raise_change_flag(&self.change_flag_arc);
        }
    }

    pub fn preferred_size(&self) -> (r: Size<Option<i32>>)
        ensures
            r == self.spec_preferred_size(),
    {
        self.preferred_size
    }

    pub fn set_preferred_size(&mut self, size: Size<Option<i32>>)
        ensures
            final(self).spec_preferred_size() == size,
            final(self).spec_widgets() == old(self).spec_widgets(),
    {
        let old_preferred_size = self.preferred_size;
        self.preferred_size = size;
        if old_preferred_size.width != self.preferred_size.width || old_preferred_size.height != self.preferred_size.height {
            raise_change_flag(&self.change_flag_arc);
        }
    }

    /// Computes the sizes: the edges from the theme, the widgets for the area inside the
    /// edges, the padding size of the widgets, and the size of the window with the edges.
    pub fn update_size(&mut self, theme: &W::Theme, area_size: Size<Option<i32>>)
        where W::Theme: Theme,
        ensures
            final(self).spec_edges() == theme.spec_toplevel_window_edges(),
            (final(self).spec_widgets().title_bar, final(self).spec_widgets().content) == crate::two_window_widgets::two_updated_size(
                old(self).spec_widgets().title_bar, old(self).spec_widgets().content, old(self).spec_widgets().has_trimmed_width, *theme,
                crate::widget_sizes::inner_opt_size_of(area_size, theme.spec_toplevel_window_edges())),
            final(self).spec_size() == crate::widget_sizes::outer_size_of(
                Size { width: final(self).spec_padding_bounds().width, height: final(self).spec_padding_bounds().height },
                theme.spec_toplevel_window_edges()),
            final(self).spec_padding_bounds().x == old(self).spec_padding_bounds().x,
            final(self).spec_padding_bounds().y == old(self).spec_padding_bounds().y,
            final(self).spec_padding_bounds().width == (if old(self).spec_widgets().has_trimmed_width {
                crate::two_window_widgets::two_size(final(self).spec_widgets().title_bar, final(self).spec_widgets().content).width
            } else {
                crate::utils::len_for_opt_len(
                    crate::two_window_widgets::two_size(final(self).spec_widgets().title_bar, final(self).spec_widgets().content).width,
                    crate::widget_sizes::inner_opt_size_of(area_size, theme.spec_toplevel_window_edges()).width)
            }),
            final(self).spec_padding_bounds().height == (if old(self).spec_widgets().has_trimmed_height {
                crate::two_window_widgets::two_size(final(self).spec_widgets().title_bar, final(self).spec_widgets().content).height
            } else {
                crate::utils::len_for_opt_len(
                    crate::two_window_widgets::two_size(final(self).spec_widgets().title_bar, final(self).spec_widgets().content).height,
                    crate::widget_sizes::inner_opt_size_of(area_size, theme.spec_toplevel_window_edges()).height)
            }),
            !old(self).spec_widgets().has_trimmed_width ==> match area_size.width {
                Some(aw) => (fits_i32(aw - theme.spec_toplevel_window_edges().left)
                    && fits_i32(aw - theme.spec_toplevel_window_edges().left - theme.spec_toplevel_window_edges().right))
                    ==> final(self).spec_padding_bounds().width
                        >= aw - theme.spec_toplevel_window_edges().left - theme.spec_toplevel_window_edges().right,
                None => true,
            },
            !old(self).spec_widgets().has_trimmed_height ==> match area_size.height {
                Some(ah) => (fits_i32(ah - theme.spec_toplevel_window_edges().top)
                    && fits_i32(ah - theme.spec_toplevel_window_edges().top - theme.spec_toplevel_window_edges().bottom))
                    ==> final(self).spec_padding_bounds().height
                        >= ah - theme.spec_toplevel_window_edges().top - theme.spec_toplevel_window_edges().bottom,
                None => true,
            },
            final(self).spec_widgets().has_trimmed_width == old(self).spec_widgets().has_trimmed_width,
            final(self).spec_widgets().has_trimmed_height == old(self).spec_widgets().has_trimmed_height,
            final(self).spec_focused_rel_widget_path() == old(self).spec_focused_rel_widget_path(),
    {
        self.edges = theme.toplevel_window_edges();
        let padding_area_size = inner_opt_size(area_size, self.edges);
        self.widgets.update_size(theme, padding_area_size);
        let padding_size = self.widgets.padding_size(padding_area_size);
        self.padding_bounds.set_size(padding_size);
        self.size = outer_size(self.padding_bounds.size(), self.edges);
    }

    /// Computes the positions: the padding bounds and the widgets inside the edges of the area
    /// bounds.
    pub fn update_pos(&mut self, theme: &W::Theme, area_bounds: Rect<i32>)
        ensures
            final(self).spec_padding_bounds().x == area_bounds.x.wrapping_add(old(self).spec_edges().left),
            final(self).spec_padding_bounds().y == area_bounds.y.wrapping_add(old(self).spec_edges().top),
            final(self).spec_padding_bounds().width == old(self).spec_padding_bounds().width,
            final(self).spec_padding_bounds().height == old(self).spec_padding_bounds().height,
            (final(self).spec_widgets().title_bar, final(self).spec_widgets().content) == crate::two_window_widgets::two_updated_pos(
                old(self).spec_widgets().title_bar, old(self).spec_widgets().content, *theme,
                Rect {
                    x: area_bounds.x.wrapping_add(old(self).spec_edges().left),
                    y: area_bounds.y.wrapping_add(old(self).spec_edges().top),
                    width: crate::utils::inner_len(area_bounds.width, old(self).spec_edges().left, old(self).spec_edges().right),
                    height: crate::utils::inner_len(area_bounds.height, old(self).spec_edges().top, old(self).spec_edges().bottom),
                }),
            final(self).spec_edges() == old(self).spec_edges(),
            final(self).spec_focused_rel_widget_path() == old(self).spec_focused_rel_widget_path(),
    {
        self.padding_bounds.set_pos(inner_pos(area_bounds, self.edges));
        self.widgets.update_pos(theme, inner_rect(area_bounds, self.edges));
    }
}

impl<W: ToplevelWidget> ToplevelWindow<W> {
    /// What the window observers of a toplevel window are: the title bar and the content are
    /// its two children, it keeps no window index, it has no parent and refuses one, and it
    /// takes a child window that it does not have yet and gives up one that it has.
    pub proof fn lemma_window_observers(w: Self)
        ensures
            w.spec_parent_index() is None,
            w.spec_index() is None,
            w.spec_content_index_pair() == (if w.spec_widgets().content is Some { Some(content_pair()) } else { None }),
            forall|i: WidgetIndexPair| #[trigger] w.spec_child(i) == two_child(w.spec_widgets().title_bar, w.spec_widgets().content, i),
            forall|i: Option<WidgetIndexPair>| #[trigger] w.spec_prev(i) == two_prev(w.spec_widgets().title_bar is Some, w.spec_widgets().content is Some, i),
            forall|i: Option<WidgetIndexPair>| #[trigger] w.spec_next(i) == two_next(w.spec_widgets().title_bar is Some, w.spec_widgets().content is Some, i),
            forall|i: WindowIndex| #[trigger] w.spec_indexed(i) == w,
            w.spec_unindexed() == w,
            forall|i: WindowIndex, p: Pos<i32>| !#[trigger] w.spec_accepts_parent(i, p),
            !w.spec_accepts_parent_unset(),
            forall|i: WindowIndex| #[trigger] w.spec_accepts_child(i) == !w.spec_child_indices().contains(i.0),
            forall|i: WindowIndex| #[trigger] w.spec_accepts_child_removal(i) == w.spec_child_indices().contains(i.0),
            forall|p: Option<Seq<WidgetIndexPair>>| #[trigger] w.spec_accepts_focused_path(p),
    {
    }
}

impl<W: ToplevelWidget> Window for ToplevelWindow<W> {
    type W = W;

    closed spec fn spec_parent_index(&self) -> Option<WindowIndex> {
        None
    }

    closed spec fn spec_child_indices(&self) -> Set<usize> {
        self.child_index_set.indices()
    }

    closed spec fn spec_index(&self) -> Option<WindowIndex> {
        None
    }

    closed spec fn spec_indexed(&self, idx: WindowIndex) -> Self {
        *self
    }

    closed spec fn spec_unindexed(&self) -> Self {
        *self
    }

    closed spec fn spec_accepts_parent(&self, idx: WindowIndex, pos: Pos<i32>) -> bool {
        false
    }

    closed spec fn spec_with_parent(&self, idx: WindowIndex, pos: Pos<i32>) -> Self {
        *self
    }

    closed spec fn spec_accepts_parent_unset(&self) -> bool {
        false
    }

    closed spec fn spec_without_parent(&self) -> Self {
        *self
    }

    closed spec fn spec_accepts_child(&self, idx: WindowIndex) -> bool {
        !self.child_index_set.indices().contains(idx.0)
    }

    closed spec fn spec_accepts_child_removal(&self, idx: WindowIndex) -> bool {
        self.child_index_set.indices().contains(idx.0)
    }

    closed spec fn spec_accepts_focused_path(&self, path: Option<Seq<WidgetIndexPair>>) -> bool {
        true
    }

    closed spec fn spec_focused_rel_widget_path(&self) -> Option<Seq<WidgetIndexPair>> {
        opt_path_view(self.focused_rel_widget_path)
    }

    closed spec fn spec_content_index_pair(&self) -> Option<WidgetIndexPair> {
        if self.widgets.content is Some {
            Some(content_pair())
        } else {
            None
        }
    }

    closed spec fn spec_child(&self, idx_pair: WidgetIndexPair) -> Option<W> {
        two_child(self.widgets.title_bar, self.widgets.content, idx_pair)
    }

    closed spec fn spec_prev(&self, idx_pair: Option<WidgetIndexPair>) -> Option<WidgetIndexPair> {
        two_prev(self.widgets.title_bar is Some, self.widgets.content is Some, idx_pair)
    }

    closed spec fn spec_next(&self, idx_pair: Option<WidgetIndexPair>) -> Option<WidgetIndexPair> {
        two_next(self.widgets.title_bar is Some, self.widgets.content is Some, idx_pair)
    }

    fn title(&self) -> (r: Option<&str>)
        ensures
            match r {
                Some(t) => self.spec_title() == Some(t@),
                None => self.spec_title() is None,
            },
    {
        match &self.title {
            Some(title) => Some(title.as_str()),
            None => None,
        }
    }

    fn is_focused(&self) -> (r: bool)
        ensures
            r == self.spec_is_focused(),
    {
        self.is_focused
    }

    /// A toplevel window keeps no window index.
    fn set_index(&mut self, idx: SelfWindowIndex) {
    }

    fn unset_index(&mut self, tag: SelfWindowTag) {
    }

    /// A toplevel window takes no parent.
    fn set_parent(&mut self, idx: ParentWindowIndex, pos: Pos<i32>) -> (r: Option<()>) {
        None
    }

    fn unset_parent(&mut self, tag: ParentWindowTag) -> (r: Option<()>) {
        None
    }

    fn parent_index(&self) -> (r: Option<WindowIndex>) {
        None
    }

    /// The child indices come in increasing order, each child once.
    fn child_indices(&self) -> (r: Vec<WindowIndex>)
        ensures
            forall|i: int, j: int| 0 <= i < j < r@.len() ==> r@[i].0 < r@[j].0,
            forall|k: usize| #[trigger] self.spec_child_indices().contains(k) ==> exists|i: int| 0 <= i < r@.len() && r@[i].0 == k,
    {
        self.child_index_set.child_index_iter()
    }

    /// A toplevel window accepts a child that it does not have yet.
    fn add_child(&mut self, idx: ChildWindowIndex) -> (r: Option<()>)
        ensures
            r is Some <==> !old(self).spec_child_indices().contains(idx.spec_window_index().0),
    {
        let r = self.child_index_set.add(idx);
        proof {
            if r is None {
                assert(old(self).child_index_set.indices().insert(idx.spec_window_index().0) =~= old(self).child_index_set.indices());
            }
        }
        r
    }

    fn remove_child(&mut self, idx: ChildWindowIndex) -> (r: Option<()>)
        ensures
            r is Some <==> old(self).spec_child_indices().contains(idx.spec_window_index().0),
    {
        let r = self.child_index_set.remove(idx);
        proof {
            if r is None {
                assert(old(self).child_index_set.indices().remove(idx.spec_window_index().0) =~= old(self).child_index_set.indices());
            }
        }
        r
    }

    fn prev(&self, idx_pair: Option<WidgetIndexPair>) -> (r: Option<WidgetIndexPair>) {
        self.widgets.prev(idx_pair)
    }

    fn next(&self, idx_pair: Option<WidgetIndexPair>) -> (r: Option<WidgetIndexPair>) {
        self.widgets.next(idx_pair)
    }

    fn dyn_widget_for_index_pair(&self, idx_pair: WidgetIndexPair) -> (r: Option<&W>) {
        self.widgets.dyn_widget(idx_pair)
    }

    fn dyn_widget_mut_for_index_pair(&mut self, idx_pair: WidgetIndexPair) -> (r: Option<&mut W>) {
        self.widgets.dyn_widget_mut(idx_pair)
    }

    fn content_index_pair(&self) -> (r: Option<WidgetIndexPair>) {
        if self.widgets.content.is_some() {
            Some(WidgetIndexPair(1, 0))
        } else {
            None
        }
    }

    fn focused_rel_widget_path(&self) -> (r: Option<&RelWidgetPath>) {
        opt_path_ref(&self.focused_rel_widget_path)
    }

    /// A toplevel window always accepts a focused relative widget path.
    fn set_only_focused_rel_widget_path(&mut self, rel_widget_path: Option<RelWidgetPath>) -> (r: bool)
        ensures
            r,
    {
        self.focused_rel_widget_path = rel_widget_path;
        true
    }
}

} // verus!
