use std::sync::atomic::AtomicBool;
use std::sync::Arc;
use lwltk::linear_layout_widgets::LinearLayoutWidgets;
use lwltk::types::{Edges, HAlign, Orient, Pos, Rect, Size, VAlign, WidgetIndexPair, WidgetState};
use lwltk::utils::{inner_pos, inner_size, max_size_for_opt_size, outer_size, pos_for_h_align_and_v_align, size_for_h_align_and_v_align};
use lwltk::widget::Widget;

/// A theme of the tests: the edges of the buttons; the texts take no room.
#[allow(dead_code)]
struct MockTheme {
    font_size: f64,
    button_font_size: f64,
    button_margin_edges: Edges<i32>,
    button_padding_edges: Edges<i32>,
}

#[allow(dead_code)]
impl MockTheme {
    fn new() -> Self {
        MockTheme {
            font_size: 12.0,
            button_font_size: 12.0,
            button_margin_edges: Edges::new(0, 0, 0, 0),
            button_padding_edges: Edges::new(0, 0, 0, 0),
        }
    }

    fn set_font_size(&mut self, font_size: f64) {
        self.font_size = font_size;
    }

    fn set_button_font_size(&mut self, font_size: f64) {
        self.button_font_size = font_size;
    }

    fn set_button_margin_edges(&mut self, edges: Edges<i32>) {
        self.button_margin_edges = edges;
    }

    fn set_button_padding_edges(&mut self, edges: Edges<i32>) {
        self.button_padding_edges = edges;
    }
}

/// A button of the tests: a widget whose text takes no room, so that its size comes from its
/// padding, its preferred size and its margins.
#[allow(dead_code)]
struct Button {
    state: WidgetState,
    text: String,
    margin_bounds: Rect<i32>,
    bounds: Rect<i32>,
    weight: u32,
    h_align: HAlign,
    v_align: VAlign,
    preferred_size: Size<Option<i32>>,
    is_focused: bool,
}

#[allow(dead_code)]
impl Button {
    fn new(text: &str) -> Self {
        Button {
            state: WidgetState::Normal,
            text: String::from(text),
            margin_bounds: Rect::new(0, 0, 0, 0),
            bounds: Rect::new(0, 0, 0, 0),
            weight: 0,
            h_align: HAlign::Left,
            v_align: VAlign::Top,
            preferred_size: Size::new(None, None),
            is_focused: false,
        }
    }

    fn text(&self) -> &str {
        self.text.as_str()
    }

    fn set_weight(&mut self, weight: u32) {
        self.weight = weight;
    }

    fn set_h_align(&mut self, align: HAlign) {
        self.h_align = align;
    }

    fn set_v_align(&mut self, align: VAlign) {
        self.v_align = align;
    }

    fn set_preferred_size(&mut self, size: Size<Option<i32>>) {
        self.preferred_size = size;
    }
}

impl Widget for Button {
    type Theme = MockTheme;

    fn state(&self) -> WidgetState {
        self.state
    }

    fn set_state(&mut self, state: WidgetState) {
        self.state = state;
    }


    fn margin_bounds(&self) -> Rect<i32> {
        self.margin_bounds
    }

    fn bounds(&self) -> Rect<i32> {
        self.bounds
    }

    fn weight(&self) -> u32 {
        self.weight
    }

    fn h_align(&self) -> HAlign {
        self.h_align
    }

    fn v_align(&self) -> VAlign {
        self.v_align
    }

    fn is_focusable(&self) -> bool {
        true
    }

    fn is_focused(&self) -> bool {
        self.is_focused
    }

    fn set_change_flag_arc(&mut self, _flag_arc: Arc<AtomicBool>) {}

    fn set_focus(&mut self, is_focused: bool) -> bool {
        self.is_focused = is_focused;
        true
    }

    fn update_size(&mut self, theme: &MockTheme, area_size: Size<Option<i32>>) {
        let text_size = Size::new(0, 0);
        self.bounds.set_size(outer_size(text_size, theme.button_padding_edges));
        self.bounds.set_size(max_size_for_opt_size(self.bounds.size(), self.preferred_size));
        self.margin_bounds.set_size(outer_size(self.bounds.size(), theme.button_margin_edges));
        self.margin_bounds.set_size(size_for_h_align_and_v_align(self.margin_bounds.size(), area_size, self.h_align, self.v_align));
        self.bounds.set_size(inner_size(self.margin_bounds.size(), theme.button_margin_edges));
    }

    fn update_pos(&mut self, theme: &MockTheme, area_bounds: Rect<i32>) {
        self.margin_bounds.set_pos(pos_for_h_align_and_v_align(self.margin_bounds.size(), area_bounds, self.h_align, self.v_align));
        self.bounds.set_pos(inner_pos(self.margin_bounds, theme.button_margin_edges));
    }

    fn prev(&self, _idx_pair: Option<WidgetIndexPair>) -> Option<WidgetIndexPair> {
        None
    }

    fn next(&self, _idx_pair: Option<WidgetIndexPair>) -> Option<WidgetIndexPair> {
        None
    }

    fn dyn_widget_for_index_pair(&self, _idx_pair: WidgetIndexPair) -> Option<&Self> {
        None
    }

    fn dyn_widget_mut_for_index_pair(&mut self, _idx_pair: WidgetIndexPair) -> Option<&mut Self> {
        None
    }
}

#[test]
fn test_linear_layout_widgets_add_widgets()
{
    let mut widgets: LinearLayoutWidgets<Button> = LinearLayoutWidgets::new();
    match widgets.add_dyn(Button::new("B1")) {
        Some(idx_pair) => assert_eq!(WidgetIndexPair(0, 0), idx_pair),
        None => assert!(false),
    }
    match widgets.add_dyn(Button::new("B2")) {
        Some(idx_pair) => assert_eq!(WidgetIndexPair(1, 0), idx_pair),
        None => assert!(false),
    }
    match widgets.add_dyn(Button::new("B3")) {
        Some(idx_pair) => assert_eq!(WidgetIndexPair(2, 0), idx_pair),
        None => assert!(false),
    }
    assert_eq!(3, widgets.widgets.len());
    assert_eq!(Some("B1"), Some(&widgets.widgets[0]).map(|b: &Button| b.text()));
    assert_eq!(Some("B2"), Some(&widgets.widgets[1]).map(|b: &Button| b.text()));
    assert_eq!(Some("B3"), Some(&widgets.widgets[2]).map(|b: &Button| b.text()));
}

#[test]
fn test_linear_layout_widgets_insert_widgets()
{
    let mut widgets: LinearLayoutWidgets<Button> = LinearLayoutWidgets::new();
    match widgets.add_dyn(Button::new("B1")) {
        Some(idx_pair) => assert_eq!(WidgetIndexPair(0, 0), idx_pair),
        None => assert!(false),
    }
    match widgets.add_dyn(Button::new("B2")) {
        Some(idx_pair) => assert_eq!(WidgetIndexPair(1, 0), idx_pair),
        None => assert!(false),
    }
    match widgets.add_dyn(Button::new("B3")) {
        Some(idx_pair) => assert_eq!(WidgetIndexPair(2, 0), idx_pair),
        None => assert!(false),
    }
    match widgets.insert_dyn(WidgetIndexPair(1, 0), Button::new("B4")) {
        Some(idx_pair) => assert_eq!(WidgetIndexPair(1, 0), idx_pair),
        None => assert!(false),
    }
    match widgets.insert_dyn(WidgetIndexPair(4, 0), Button::new("B5")) {
        Some(idx_pair) => assert_eq!(WidgetIndexPair(4, 0), idx_pair),
        None => assert!(false),
    }
    assert_eq!(5, widgets.widgets.len());
    assert_eq!(Some("B1"), Some(&widgets.widgets[0]).map(|b: &Button| b.text()));
    assert_eq!(Some("B4"), Some(&widgets.widgets[1]).map(|b: &Button| b.text()));
    assert_eq!(Some("B2"), Some(&widgets.widgets[2]).map(|b: &Button| b.text()));
    assert_eq!(Some("B3"), Some(&widgets.widgets[3]).map(|b: &Button| b.text()));
    assert_eq!(Some("B5"), Some(&widgets.widgets[4]).map(|b: &Button| b.text()));
}

#[test]
fn test_linear_layout_widgets_do_not_insert_widget_for_too_large_index()
{
    let mut widgets: LinearLayoutWidgets<Button> = LinearLayoutWidgets::new();
    match widgets.add_dyn(Button::new("B1")) {
        Some(idx_pair) => assert_eq!(WidgetIndexPair(0, 0), idx_pair),
        None => assert!(false),
    }
    match widgets.add_dyn(Button::new("B2")) {
        Some(idx_pair) => assert_eq!(WidgetIndexPair(1, 0), idx_pair),
        None => assert!(false),
    }
    match widgets.add_dyn(Button::new("B3")) {
        Some(idx_pair) => assert_eq!(WidgetIndexPair(2, 0), idx_pair),
        None => assert!(false),
    }
    match widgets.insert_dyn(WidgetIndexPair(4, 0), Button::new("B4")) {
        Some(_) => assert!(false),
        None => assert!(true),
    }
    assert_eq!(3, widgets.widgets.len());
    assert_eq!(Some("B1"), Some(&widgets.widgets[0]).map(|b: &Button| b.text()));
    assert_eq!(Some("B2"), Some(&widgets.widgets[1]).map(|b: &Button| b.text()));
    assert_eq!(Some("B3"), Some(&widgets.widgets[2]).map(|b: &Button| b.text()));
}

#[test]
fn test_linear_layout_widgets_remove_widget()
{
    let mut widgets: LinearLayoutWidgets<Button> = LinearLayoutWidgets::new();
    match widgets.add_dyn(Button::new("B1")) {
        Some(idx_pair) => assert_eq!(WidgetIndexPair(0, 0), idx_pair),
        None => assert!(false),
    }
    match widgets.add_dyn(Button::new("B2")) {
        Some(idx_pair) => assert_eq!(WidgetIndexPair(1, 0), idx_pair),
        None => assert!(false),
    }
    match widgets.add_dyn(Button::new("B3")) {
        Some(idx_pair) => assert_eq!(WidgetIndexPair(2, 0), idx_pair),
        None => assert!(false),
    }
    match widgets.remove(WidgetIndexPair(1, 0)) {
        Some(widget) => assert_eq!(Some("B2"), Some(&widget).map(|b: &Button| b.text())),
        None => assert!(false),
    }
    assert_eq!(2, widgets.widgets.len());
    assert_eq!(Some("B1"), Some(&widgets.widgets[0]).map(|b: &Button| b.text()));
    assert_eq!(Some("B3"), Some(&widgets.widgets[1]).map(|b: &Button| b.text()));
}

#[test]
fn test_linear_layout_widgets_do_not_remove_widget_for_too_large_index()
{
    let mut widgets: LinearLayoutWidgets<Button> = LinearLayoutWidgets::new();
    match widgets.add_dyn(Button::new("B1")) {
        Some(idx_pair) => assert_eq!(WidgetIndexPair(0, 0), idx_pair),
        None => assert!(false),
    }
    match widgets.add_dyn(Button::new("B2")) {
        Some(idx_pair) => assert_eq!(WidgetIndexPair(1, 0), idx_pair),
        None => assert!(false),
    }
    match widgets.add_dyn(Button::new("B3")) {
        Some(idx_pair) => assert_eq!(WidgetIndexPair(2, 0), idx_pair),
        None => assert!(false),
    }
    match widgets.remove(WidgetIndexPair(3, 0)) {
        Some(_) => assert!(false),
        None => assert!(true),
    }
    assert_eq!(3, widgets.widgets.len());
    assert_eq!(Some("B1"), Some(&widgets.widgets[0]).map(|b: &Button| b.text()));
    assert_eq!(Some("B2"), Some(&widgets.widgets[1]).map(|b: &Button| b.text()));
    assert_eq!(Some("B3"), Some(&widgets.widgets[2]).map(|b: &Button| b.text()));
}

#[test]
fn test_linear_layout_widgets_remove_last_widget()
{
    let mut widgets: LinearLayoutWidgets<Button> = LinearLayoutWidgets::new();
    match widgets.add_dyn(Button::new("B1")) {
        Some(idx_pair) => assert_eq!(WidgetIndexPair(0, 0), idx_pair),
        None => assert!(false),
    }
    match widgets.add_dyn(Button::new("B2")) {
        Some(idx_pair) => assert_eq!(WidgetIndexPair(1, 0), idx_pair),
        None => assert!(false),
    }
    match widgets.add_dyn(Button::new("B3")) {
        Some(idx_pair) => assert_eq!(WidgetIndexPair(2, 0), idx_pair),
        None => assert!(false),
    }
    match widgets.remove_last() {
        Some(widget) => assert_eq!(Some("B3"), Some(&widget).map(|b: &Button| b.text())),
        None => assert!(false),
    }
    assert_eq!(2, widgets.widgets.len());
    assert_eq!(Some("B1"), Some(&widgets.widgets[0]).map(|b: &Button| b.text()));
    assert_eq!(Some("B2"), Some(&widgets.widgets[1]).map(|b: &Button| b.text()));
}

#[test]
fn test_linear_layout_widgets_do_not_remove_last_widget_for_no_widgets()
{
    let mut widgets: LinearLayoutWidgets<Button> = LinearLayoutWidgets::new();
    match widgets.remove_last() {
        Some(_) => assert!(false),
        None => assert!(true),
    }
    assert_eq!(0, widgets.widgets.len());
}

#[test]
fn test_linear_layout_widgets_give_previous_widget_index_pairs()
{
    let mut widgets: LinearLayoutWidgets<Button> = LinearLayoutWidgets::new();
    widgets.add_dyn(Button::new("B1"));
    widgets.add_dyn(Button::new("B2"));
    widgets.add_dyn(Button::new("B3"));
    let mut idx_pair: Option<WidgetIndexPair> = None;
    idx_pair = widgets.prev(idx_pair);
    assert_eq!(Some(WidgetIndexPair(2, 0)), idx_pair);
    idx_pair = widgets.prev(idx_pair);
    assert_eq!(Some(WidgetIndexPair(1, 0)), idx_pair);
    idx_pair = widgets.prev(idx_pair);
    assert_eq!(Some(WidgetIndexPair(0, 0)), idx_pair);
    idx_pair = widgets.prev(idx_pair);
    assert_eq!(None, idx_pair);
}

#[test]
fn test_linear_layout_widgets_do_not_give_previous_widget_index_pair_for_bad_index()
{
    let mut widgets: LinearLayoutWidgets<Button> = LinearLayoutWidgets::new();
    widgets.add_dyn(Button::new("B1"));
    widgets.add_dyn(Button::new("B2"));
    widgets.add_dyn(Button::new("B3"));
    let idx_pair = widgets.prev(Some(WidgetIndexPair(0, 1)));
    assert_eq!(None, idx_pair);
}

#[test]
fn test_linear_layout_widgets_give_next_widget_index_pairs()
{
    let mut widgets: LinearLayoutWidgets<Button> = LinearLayoutWidgets::new();
    widgets.add_dyn(Button::new("B1"));
    widgets.add_dyn(Button::new("B2"));
    widgets.add_dyn(Button::new("B3"));
    let mut idx_pair: Option<WidgetIndexPair> = None;
    idx_pair = widgets.next(idx_pair);
    assert_eq!(Some(WidgetIndexPair(0, 0)), idx_pair);
    idx_pair = widgets.next(idx_pair);
    assert_eq!(Some(WidgetIndexPair(1, 0)), idx_pair);
    idx_pair = widgets.next(idx_pair);
    assert_eq!(Some(WidgetIndexPair(2, 0)), idx_pair);
    idx_pair = widgets.next(idx_pair);
    assert_eq!(None, idx_pair);
}

#[test]
fn test_linear_layout_widgets_do_not_give_next_widget_index_pair_for_bad_index()
{
    let mut widgets: LinearLayoutWidgets<Button> = LinearLayoutWidgets::new();
    widgets.add_dyn(Button::new("B1"));
    widgets.add_dyn(Button::new("B2"));
    widgets.add_dyn(Button::new("B3"));
    let idx_pair = widgets.next(Some(WidgetIndexPair(0, 1)));
    assert_eq!(None, idx_pair);
}

#[test]
fn test_linear_layout_widgets_give_widget()
{
    let mut widgets: LinearLayoutWidgets<Button> = LinearLayoutWidgets::new();
    widgets.add_dyn(Button::new("B1"));
    widgets.add_dyn(Button::new("B2"));
    widgets.add_dyn(Button::new("B3"));
    match widgets.dyn_widget(WidgetIndexPair(1, 0)) {
        Some(widget) => assert_eq!(Some("B2"), Some(widget).map(|b: &Button| b.text())),
        None => assert!(false),
    }
}

#[test]
fn test_linear_layout_widgets_do_not_give_widget_for_bad_index()
{
    let mut widgets: LinearLayoutWidgets<Button> = LinearLayoutWidgets::new();
    widgets.add_dyn(Button::new("B1"));
    widgets.add_dyn(Button::new("B2"));
    widgets.add_dyn(Button::new("B3"));
    match widgets.dyn_widget(WidgetIndexPair(0, 1)) {
        Some(_) => assert!(false),
        None => assert!(true),
    }
}

#[test]
fn test_linear_layout_widgets_give_mutable_widget()
{
    let mut widgets: LinearLayoutWidgets<Button> = LinearLayoutWidgets::new();
    widgets.add_dyn(Button::new("B1"));
    widgets.add_dyn(Button::new("B2"));
    widgets.add_dyn(Button::new("B3"));
    match widgets.dyn_widget_mut(WidgetIndexPair(1, 0)) {
        Some(widget) => assert_eq!(Some("B2"), Some(widget).map(|b: &mut Button| b.text())),
        None => assert!(false),
    }
}

#[test]
fn test_linear_layout_widgets_do_not_give_mutable_widget_for_bad_index()
{
    let mut widgets: LinearLayoutWidgets<Button> = LinearLayoutWidgets::new();
    widgets.add_dyn(Button::new("B1"));
    widgets.add_dyn(Button::new("B2"));
    widgets.add_dyn(Button::new("B3"));
    match widgets.dyn_widget_mut(WidgetIndexPair(0, 1)) {
        Some(_) => assert!(false),
        None => assert!(true),
    }
}

#[test]
fn test_linear_layout_widgets_update_size_and_position_for_horizontal_orientation()
{
    let mut theme = MockTheme::new();
    theme.set_font_size(32.0);
    theme.set_button_margin_edges(Edges::new(2, 2, 2, 2));
    theme.set_button_padding_edges(Edges::new(4, 4, 4, 4));
    theme.set_button_font_size(16.0);
    let mut widgets: LinearLayoutWidgets<Button> = LinearLayoutWidgets::new();
    let mut button1 = Button::new("B1");
    button1.set_preferred_size(Size::new(Some(40), Some(50)));
    widgets.add_dyn(button1);
    let mut button2 = Button::new("B2");
    button2.set_preferred_size(Size::new(Some(50), Some(40)));
    widgets.add_dyn(button2);
    let mut button3 = Button::new("B3");
    button3.set_preferred_size(Size::new(Some(60), Some(30)));
    widgets.add_dyn(button3);
    let area_size = Size::new(None, None);
    let orient = Orient::Horizontal;
    let h_align = HAlign::Left;
    let v_align = VAlign::Top;
    let preferred_size = Size::new(None, None);
    widgets.update_size(&theme, area_size, orient, h_align, v_align, preferred_size);
    let expected_zero_weight_width_sum = 40 + 4 + 50 + 4 + 60 + 4;
    assert_eq!(expected_zero_weight_width_sum, widgets.zero_weight_width_sum);
    let expected_weight_sum = 0;
    assert_eq!(expected_weight_sum, widgets.weight_sum);
    let expected_weight_width = 0;
    assert_eq!(expected_weight_width, widgets.weight_width);
    let expected_weight_width_rem = 0;
    assert_eq!(expected_weight_width_rem, widgets.weight_width_rem);
    assert_eq!(Size::new(44, 54), widgets.widgets[0].margin_size());
    assert_eq!(Size::new(40, 50), widgets.widgets[0].size());
    assert_eq!(Size::new(54, 44), widgets.widgets[1].margin_size());
    assert_eq!(Size::new(50, 40), widgets.widgets[1].size());
    assert_eq!(Size::new(64, 34), widgets.widgets[2].margin_size());
    assert_eq!(Size::new(60, 30), widgets.widgets[2].size());
    let size = widgets.size(area_size, orient, h_align, v_align, preferred_size);
    let area_bounds = Rect::new(20, 10, size.width, size.height);
    widgets.update_pos(&theme, area_bounds, orient, h_align, v_align, preferred_size);
    assert_eq!(Pos::new(20, 10), widgets.widgets[0].margin_pos());
    assert_eq!(Pos::new(20 + 2, 10 + 2), widgets.widgets[0].pos());
    assert_eq!(Pos::new(20 + 44, 10), widgets.widgets[1].margin_pos());
    assert_eq!(Pos::new(20 + 44 + 2, 10 + 2), widgets.widgets[1].pos());
    assert_eq!(Pos::new(20 + 44 + 54, 10), widgets.widgets[2].margin_pos());
    assert_eq!(Pos::new(20 + 44 + 54 + 2, 10 + 2), widgets.widgets[2].pos());
}

#[test]
fn test_linear_layout_widgets_update_size_and_position_for_horizontal_orientation_and_filled_widgets()
{
    let mut theme = MockTheme::new();
    theme.set_font_size(32.0);
    theme.set_button_margin_edges(Edges::new(2, 2, 2, 2));
    theme.set_button_padding_edges(Edges::new(4, 4, 4, 4));
    theme.set_button_font_size(16.0);
    let mut widgets: LinearLayoutWidgets<Button> = LinearLayoutWidgets::new();
    let mut button1 = Button::new("B1");
    button1.set_v_align(VAlign::Fill);
    button1.set_preferred_size(Size::new(Some(40), Some(50)));
    widgets.add_dyn(button1);
    let mut button2 = Button::new("B2");
    button2.set_v_align(VAlign::Fill);
    button2.set_preferred_size(Size::new(Some(50), Some(40)));
    widgets.add_dyn(button2);
    let mut button3 = Button::new("B3");
    button3.set_v_align(VAlign::Fill);
    button3.set_preferred_size(Size::new(Some(60), Some(30)));
    widgets.add_dyn(button3);
    let area_size = Size::new(None, None);
    let orient = Orient::Horizontal;
    let h_align = HAlign::Left;
    let v_align = VAlign::Top;
    let preferred_size = Size::new(None, None);
    widgets.update_size(&theme, area_size, orient, h_align, v_align, preferred_size);
    let expected_zero_weight_width_sum = 40 + 4 + 50 + 4 + 60 + 4;
    assert_eq!(expected_zero_weight_width_sum, widgets.zero_weight_width_sum);
    let expected_weight_sum = 0;
    assert_eq!(expected_weight_sum, widgets.weight_sum);
    let expected_weight_width = 0;
    assert_eq!(expected_weight_width, widgets.weight_width);
    let expected_weight_width_rem = 0;
    assert_eq!(expected_weight_width_rem, widgets.weight_width_rem);
    assert_eq!(Size::new(44, 54), widgets.widgets[0].margin_size());
    assert_eq!(Size::new(40, 50), widgets.widgets[0].size());
    assert_eq!(Size::new(54, 54), widgets.widgets[1].margin_size());
    assert_eq!(Size::new(50, 50), widgets.widgets[1].size());
    assert_eq!(Size::new(64, 54), widgets.widgets[2].margin_size());
    assert_eq!(Size::new(60, 50), widgets.widgets[2].size());
    let size = widgets.size(area_size, orient, h_align, v_align, preferred_size);
    let area_bounds = Rect::new(20, 10, size.width, size.height);
    widgets.update_pos(&theme, area_bounds, orient, h_align, v_align, preferred_size);
    assert_eq!(Pos::new(20, 10), widgets.widgets[0].margin_pos());
    assert_eq!(Pos::new(20 + 2, 10 + 2), widgets.widgets[0].pos());
    assert_eq!(Pos::new(20 + 44, 10), widgets.widgets[1].margin_pos());
    assert_eq!(Pos::new(20 + 44 + 2, 10 + 2), widgets.widgets[1].pos());
    assert_eq!(Pos::new(20 + 44 + 54, 10), widgets.widgets[2].margin_pos());
    assert_eq!(Pos::new(20 + 44 + 54 + 2, 10 + 2), widgets.widgets[2].pos());
}

#[test]
fn test_linear_layout_widgets_update_size_and_position_for_horizontal_orientation_and_weighted_widgets()
{
    let mut theme = MockTheme::new();
    theme.set_font_size(32.0);
    theme.set_button_margin_edges(Edges::new(2, 2, 2, 2));
    theme.set_button_padding_edges(Edges::new(4, 4, 4, 4));
    theme.set_button_font_size(16.0);
    let mut widgets: LinearLayoutWidgets<Button> = LinearLayoutWidgets::new();
    let mut button1 = Button::new("B1");
    button1.set_weight(1);
    button1.set_preferred_size(Size::new(Some(40), Some(30)));
    widgets.add_dyn(button1);
    let mut button2 = Button::new("B2");
    button2.set_preferred_size(Size::new(Some(50), Some(30)));
    widgets.add_dyn(button2);
    let mut button3 = Button::new("B3");
    button3.set_weight(3);
    button3.set_preferred_size(Size::new(Some(40), Some(30)));
    widgets.add_dyn(button3);
    let mut button4 = Button::new("B4");
    button4.set_weight(2);
    button4.set_preferred_size(Size::new(Some(90), Some(30)));
    widgets.add_dyn(button4);
    let area_size = Size::new(None, None);
    let orient = Orient::Horizontal;
    let h_align = HAlign::Left;
    let v_align = VAlign::Top;
    let preferred_size = Size::new(None, None);
    widgets.update_size(&theme, area_size, orient, h_align, v_align, preferred_size);
    let expected_zero_weight_width_sum = 50 + 4;
    assert_eq!(expected_zero_weight_width_sum, widgets.zero_weight_width_sum);
    let expected_weight_sum = 6;
    assert_eq!(expected_weight_sum, widgets.weight_sum);
    let expected_weight_width = 47;
    assert_eq!(expected_weight_width, widgets.weight_width);
    let expected_weight_width_rem = 0;
    assert_eq!(expected_weight_width_rem, widgets.weight_width_rem);
    assert_eq!(Size::new(44, 34), widgets.widgets[0].margin_size());
    assert_eq!(Size::new(40, 30), widgets.widgets[0].size());
    assert_eq!(Size::new(54, 34), widgets.widgets[1].margin_size());
    assert_eq!(Size::new(50, 30), widgets.widgets[1].size());
    assert_eq!(Size::new(44, 34), widgets.widgets[2].margin_size());
    assert_eq!(Size::new(40, 30), widgets.widgets[2].size());
    assert_eq!(Size::new(94, 34), widgets.widgets[3].margin_size());
    assert_eq!(Size::new(90, 30), widgets.widgets[3].size());
    let size = widgets.size(area_size, orient, h_align, v_align, preferred_size);
    let area_bounds = Rect::new(20, 10, size.width, size.height);
    widgets.update_pos(&theme, area_bounds, orient, h_align, v_align, preferred_size);
    assert_eq!(Pos::new(20, 10), widgets.widgets[0].margin_pos());
    assert_eq!(Pos::new(20 + 2, 10 + 2), widgets.widgets[0].pos());
    assert_eq!(Pos::new(20 + 47, 10), widgets.widgets[1].margin_pos());
    assert_eq!(Pos::new(20 + 47 + 2, 10 + 2), widgets.widgets[1].pos());
    assert_eq!(Pos::new(20 + 47 + 54, 10), widgets.widgets[2].margin_pos());
    assert_eq!(Pos::new(20 + 47 + 54 + 2, 10 + 2), widgets.widgets[2].pos());
    assert_eq!(Pos::new(20 + 47 + 54 + 141, 10), widgets.widgets[3].margin_pos());
    assert_eq!(Pos::new(20 + 47 + 54 + 141 + 2, 10 + 2), widgets.widgets[3].pos());
}

#[test]
fn test_linear_layout_widgets_update_size_and_position_for_horizontal_orientation_and_filled_weighted_widgets()
{
    let mut theme = MockTheme::new();
    theme.set_font_size(32.0);
    theme.set_button_margin_edges(Edges::new(2, 2, 2, 2));
    theme.set_button_padding_edges(Edges::new(4, 4, 4, 4));
    theme.set_button_font_size(16.0);
    let mut widgets: LinearLayoutWidgets<Button> = LinearLayoutWidgets::new();
    let mut button1 = Button::new("B1");
    button1.set_h_align(HAlign::Fill);
    button1.set_weight(1);
    button1.set_preferred_size(Size::new(Some(40), Some(30)));
    widgets.add_dyn(button1);
    let mut button2 = Button::new("B2");
    button2.set_preferred_size(Size::new(Some(50), Some(30)));
    widgets.add_dyn(button2);
    let mut button3 = Button::new("B3");
    button3.set_h_align(HAlign::Fill);
    button3.set_weight(3);
    button3.set_preferred_size(Size::new(Some(40), Some(30)));
    widgets.add_dyn(button3);
    let mut button4 = Button::new("B4");
    button4.set_h_align(HAlign::Fill);
    button4.set_weight(2);
    button4.set_preferred_size(Size::new(Some(90), Some(30)));
    widgets.add_dyn(button4);
    let area_size = Size::new(None, None);
    let orient = Orient::Horizontal;
    let h_align = HAlign::Left;
    let v_align = VAlign::Top;
    let preferred_size = Size::new(None, None);
    widgets.update_size(&theme, area_size, orient, h_align, v_align, preferred_size);
    let expected_zero_weight_width_sum = 50 + 4;
    assert_eq!(expected_zero_weight_width_sum, widgets.zero_weight_width_sum);
    let expected_weight_sum = 6;
    assert_eq!(expected_weight_sum, widgets.weight_sum);
    let expected_weight_width = 47;
    assert_eq!(expected_weight_width, widgets.weight_width);
    let expected_weight_width_rem = 0;
    assert_eq!(expected_weight_width_rem, widgets.weight_width_rem);
    assert_eq!(Size::new(47, 34), widgets.widgets[0].margin_size());
    assert_eq!(Size::new(43, 30), widgets.widgets[0].size());
    assert_eq!(Size::new(54, 34), widgets.widgets[1].margin_size());
    assert_eq!(Size::new(50, 30), widgets.widgets[1].size());
    assert_eq!(Size::new(141, 34), widgets.widgets[2].margin_size());
    assert_eq!(Size::new(137, 30), widgets.widgets[2].size());
    assert_eq!(Size::new(94, 34), widgets.widgets[3].margin_size());
    assert_eq!(Size::new(90, 30), widgets.widgets[3].size());
    let size = widgets.size(area_size, orient, h_align, v_align, preferred_size);
    let area_bounds = Rect::new(20, 10, size.width, size.height);
    widgets.update_pos(&theme, area_bounds, orient, h_align, v_align, preferred_size);
    assert_eq!(Pos::new(20, 10), widgets.widgets[0].margin_pos());
    assert_eq!(Pos::new(20 + 2, 10 + 2), widgets.widgets[0].pos());
    assert_eq!(Pos::new(20 + 47, 10), widgets.widgets[1].margin_pos());
    assert_eq!(Pos::new(20 + 47 + 2, 10 + 2), widgets.widgets[1].pos());
    assert_eq!(Pos::new(20 + 47 + 54, 10), widgets.widgets[2].margin_pos());
    assert_eq!(Pos::new(20 + 47 + 54 + 2, 10 + 2), widgets.widgets[2].pos());
    assert_eq!(Pos::new(20 + 47 + 54 + 141, 10), widgets.widgets[3].margin_pos());
    assert_eq!(Pos::new(20 + 47 + 54 + 141 + 2, 10 + 2), widgets.widgets[3].pos());
}

#[test]
fn test_linear_layout_widgets_update_size_and_position_for_horizontal_orientation_and_weighted_widgets_and_area_width()
{
    let mut theme = MockTheme::new();
    theme.set_font_size(32.0);
    theme.set_button_margin_edges(Edges::new(2, 2, 2, 2));
    theme.set_button_padding_edges(Edges::new(4, 4, 4, 4));
    theme.set_button_font_size(16.0);
    let mut widgets: LinearLayoutWidgets<Button> = LinearLayoutWidgets::new();
    let mut button1 = Button::new("B1");
    button1.set_weight(1);
    button1.set_preferred_size(Size::new(Some(40), Some(30)));
    widgets.add_dyn(button1);
    let mut button2 = Button::new("B2");
    button2.set_preferred_size(Size::new(Some(50), Some(30)));
    widgets.add_dyn(button2);
    let mut button3 = Button::new("B3");
    button3.set_weight(3);
    button3.set_preferred_size(Size::new(Some(40), Some(30)));
    widgets.add_dyn(button3);
    let mut button4 = Button::new("B4");
    button4.set_weight(2);
    button4.set_preferred_size(Size::new(Some(90), Some(30)));
    widgets.add_dyn(button4);
    let area_width = 50 + 4 + 50 * (1 + 3 + 2) + 2;
    let area_size = Size::new(Some(area_width), None);
    let orient = Orient::Horizontal;
    let h_align = HAlign::Left;
    let v_align = VAlign::Top;
    let preferred_size = Size::new(None, None);
    widgets.update_size(&theme, area_size, orient, h_align, v_align, preferred_size);
    let expected_zero_weight_width_sum = 50 + 4;
    assert_eq!(expected_zero_weight_width_sum, widgets.zero_weight_width_sum);
    let expected_weight_sum = 6;
    assert_eq!(expected_weight_sum, widgets.weight_sum);
    let expected_weight_width = 47;
    assert_eq!(expected_weight_width, widgets.weight_width);
    let expected_weight_width_rem = 0;
    assert_eq!(expected_weight_width_rem, widgets.weight_width_rem);
    assert_eq!(Size::new(44, 34), widgets.widgets[0].margin_size());
    assert_eq!(Size::new(40, 30), widgets.widgets[0].size());
    assert_eq!(Size::new(54, 34), widgets.widgets[1].margin_size());
    assert_eq!(Size::new(50, 30), widgets.widgets[1].size());
    assert_eq!(Size::new(44, 34), widgets.widgets[2].margin_size());
    assert_eq!(Size::new(40, 30), widgets.widgets[2].size());
    assert_eq!(Size::new(94, 34), widgets.widgets[3].margin_size());
    assert_eq!(Size::new(90, 30), widgets.widgets[3].size());
    let size = widgets.size(area_size, orient, h_align, v_align, preferred_size);
    let area_bounds = Rect::new(20, 10, area_width, size.height);
    widgets.update_pos(&theme, area_bounds, orient, h_align, v_align, preferred_size);
    assert_eq!(Pos::new(20, 10), widgets.widgets[0].margin_pos());
    assert_eq!(Pos::new(20 + 2, 10 + 2), widgets.widgets[0].pos());
    assert_eq!(Pos::new(20 + 47, 10), widgets.widgets[1].margin_pos());
    assert_eq!(Pos::new(20 + 47 + 2, 10 + 2), widgets.widgets[1].pos());
    assert_eq!(Pos::new(20 + 47 + 54, 10), widgets.widgets[2].margin_pos());
    assert_eq!(Pos::new(20 + 47 + 54 + 2, 10 + 2), widgets.widgets[2].pos());
    assert_eq!(Pos::new(20 + 47 + 54 + 141, 10), widgets.widgets[3].margin_pos());
    assert_eq!(Pos::new(20 + 47 + 54 + 141 + 2, 10 + 2), widgets.widgets[3].pos());
}

#[test]
fn test_linear_layout_widgets_update_size_and_position_for_horizontal_orientation_and_filled_weighted_widgets_and_area_width()
{
    let mut theme = MockTheme::new();
    theme.set_font_size(32.0);
    theme.set_button_margin_edges(Edges::new(2, 2, 2, 2));
    theme.set_button_padding_edges(Edges::new(4, 4, 4, 4));
    theme.set_button_font_size(16.0);
    let mut widgets: LinearLayoutWidgets<Button> = LinearLayoutWidgets::new();
    let mut button1 = Button::new("B1");
    button1.set_h_align(HAlign::Fill);
    button1.set_weight(1);
    button1.set_preferred_size(Size::new(Some(40), Some(30)));
    widgets.add_dyn(button1);
    let mut button2 = Button::new("B2");
    button2.set_preferred_size(Size::new(Some(50), Some(30)));
    widgets.add_dyn(button2);
    let mut button3 = Button::new("B3");
    button3.set_h_align(HAlign::Fill);
    button3.set_weight(3);
    button3.set_preferred_size(Size::new(Some(40), Some(30)));
    widgets.add_dyn(button3);
    let mut button4 = Button::new("B4");
    button4.set_h_align(HAlign::Fill);
    button4.set_weight(2);
    button4.set_preferred_size(Size::new(Some(90), Some(30)));
    widgets.add_dyn(button4);
    let area_width = 50 + 4 + 50 * (1 + 3 + 2) + 2;
    let area_size = Size::new(Some(area_width), None);
    let orient = Orient::Horizontal;
    let h_align = HAlign::Left;
    let v_align = VAlign::Top;
    let preferred_size = Size::new(None, None);
    widgets.update_size(&theme, area_size, orient, h_align, v_align, preferred_size);
    let expected_zero_weight_width_sum = 50 + 4;
    assert_eq!(expected_zero_weight_width_sum, widgets.zero_weight_width_sum);
    let expected_weight_sum = 6;
    assert_eq!(expected_weight_sum, widgets.weight_sum);
    let expected_weight_width = 50;
    assert_eq!(expected_weight_width, widgets.weight_width);
    let expected_weight_width_rem = 2;
    assert_eq!(expected_weight_width_rem, widgets.weight_width_rem);
    assert_eq!(Size::new(51, 34), widgets.widgets[0].margin_size());
    assert_eq!(Size::new(47, 30), widgets.widgets[0].size());
    assert_eq!(Size::new(54, 34), widgets.widgets[1].margin_size());
    assert_eq!(Size::new(50, 30), widgets.widgets[1].size());
    assert_eq!(Size::new(151, 34), widgets.widgets[2].margin_size());
    assert_eq!(Size::new(147, 30), widgets.widgets[2].size());
    assert_eq!(Size::new(100, 34), widgets.widgets[3].margin_size());
    assert_eq!(Size::new(96, 30), widgets.widgets[3].size());
    let size = widgets.size(area_size, orient, h_align, v_align, preferred_size);
    let area_bounds = Rect::new(20, 10, area_width, size.height);
    widgets.update_pos(&theme, area_bounds, orient, h_align, v_align, preferred_size);
    assert_eq!(Pos::new(20, 10), widgets.widgets[0].margin_pos());
    assert_eq!(Pos::new(20 + 2, 10 + 2), widgets.widgets[0].pos());
    assert_eq!(Pos::new(20 + 51, 10), widgets.widgets[1].margin_pos());
    assert_eq!(Pos::new(20 + 51 + 2, 10 + 2), widgets.widgets[1].pos());
    assert_eq!(Pos::new(20 + 51 + 54, 10), widgets.widgets[2].margin_pos());
    assert_eq!(Pos::new(20 + 51 + 54 + 2, 10 + 2), widgets.widgets[2].pos());
    assert_eq!(Pos::new(20 + 51 + 54 + 151, 10), widgets.widgets[3].margin_pos());
    assert_eq!(Pos::new(20 + 51 + 54 + 151 + 2, 10 + 2), widgets.widgets[3].pos());
}

#[test]
fn test_linear_layout_widgets_update_size_and_position_for_horizontal_orientation_and_weighted_widgets_and_area_width_and_fill_alignment()
{
    let mut theme = MockTheme::new();
    theme.set_font_size(32.0);
    theme.set_button_margin_edges(Edges::new(2, 2, 2, 2));
    theme.set_button_padding_edges(Edges::new(4, 4, 4, 4));
    theme.set_button_font_size(16.0);
    let mut widgets: LinearLayoutWidgets<Button> = LinearLayoutWidgets::new();
    let mut button1 = Button::new("B1");
    button1.set_weight(1);
    button1.set_preferred_size(Size::new(Some(40), Some(30)));
    widgets.add_dyn(button1);
    let mut button2 = Button::new("B2");
    button2.set_preferred_size(Size::new(Some(50), Some(30)));
    widgets.add_dyn(button2);
    let mut button3 = Button::new("B3");
    button3.set_weight(3);
    button3.set_preferred_size(Size::new(Some(40), Some(30)));
    widgets.add_dyn(button3);
    let mut button4 = Button::new("B4");
    button4.set_weight(2);
    button4.set_preferred_size(Size::new(Some(90), Some(30)));
    widgets.add_dyn(button4);
    let area_width = 50 + 4 + 50 * (1 + 3 + 2) + 2;
    let area_size = Size::new(Some(area_width), None);
    let orient = Orient::Horizontal;
    let h_align = HAlign::Fill;
    let v_align = VAlign::Top;
    let preferred_size = Size::new(None, None);
    widgets.update_size(&theme, area_size, orient, h_align, v_align, preferred_size);
    let expected_zero_weight_width_sum = 50 + 4;
    assert_eq!(expected_zero_weight_width_sum, widgets.zero_weight_width_sum);
    let expected_weight_sum = 6;
    assert_eq!(expected_weight_sum, widgets.weight_sum);
    let expected_weight_width = 50;
    assert_eq!(expected_weight_width, widgets.weight_width);
    let expected_weight_width_rem = 2;
    assert_eq!(expected_weight_width_rem, widgets.weight_width_rem);
    assert_eq!(Size::new(44, 34), widgets.widgets[0].margin_size());
    assert_eq!(Size::new(40, 30), widgets.widgets[0].size());
    assert_eq!(Size::new(54, 34), widgets.widgets[1].margin_size());
    assert_eq!(Size::new(50, 30), widgets.widgets[1].size());
    assert_eq!(Size::new(44, 34), widgets.widgets[2].margin_size());
    assert_eq!(Size::new(40, 30), widgets.widgets[2].size());
    assert_eq!(Size::new(94, 34), widgets.widgets[3].margin_size());
    assert_eq!(Size::new(90, 30), widgets.widgets[3].size());
    let size = widgets.size(area_size, orient, h_align, v_align, preferred_size);
    let area_bounds = Rect::new(20, 10, area_width, size.height);
    widgets.update_pos(&theme, area_bounds, orient, h_align, v_align, preferred_size);
    assert_eq!(Pos::new(20, 10), widgets.widgets[0].margin_pos());
    assert_eq!(Pos::new(20 + 2, 10 + 2), widgets.widgets[0].pos());
    assert_eq!(Pos::new(20 + 51, 10), widgets.widgets[1].margin_pos());
    assert_eq!(Pos::new(20 + 51 + 2, 10 + 2), widgets.widgets[1].pos());
    assert_eq!(Pos::new(20 + 51 + 54, 10), widgets.widgets[2].margin_pos());
    assert_eq!(Pos::new(20 + 51 + 54 + 2, 10 + 2), widgets.widgets[2].pos());
    assert_eq!(Pos::new(20 + 51 + 54 + 151, 10), widgets.widgets[3].margin_pos());
    assert_eq!(Pos::new(20 + 51 + 54 + 151 + 2, 10 + 2), widgets.widgets[3].pos());
}

#[test]
fn test_linear_layout_widgets_update_size_and_position_for_horizontal_orientation_and_filled_weighted_widgets_and_area_width_and_fill_alignment()
{
    let mut theme = MockTheme::new();
    theme.set_font_size(32.0);
    theme.set_button_margin_edges(Edges::new(2, 2, 2, 2));
    theme.set_button_padding_edges(Edges::new(4, 4, 4, 4));
    theme.set_button_font_size(16.0);
    let mut widgets: LinearLayoutWidgets<Button> = LinearLayoutWidgets::new();
    let mut button1 = Button::new("B1");
    button1.set_h_align(HAlign::Fill);
    button1.set_weight(1);
    button1.set_preferred_size(Size::new(Some(40), Some(30)));
    widgets.add_dyn(button1);
    let mut button2 = Button::new("B2");
    button2.set_preferred_size(Size::new(Some(50), Some(30)));
    widgets.add_dyn(button2);
    let mut button3 = Button::new("B3");
    button3.set_h_align(HAlign::Fill);
    button3.set_weight(3);
    button3.set_preferred_size(Size::new(Some(40), Some(30)));
    widgets.add_dyn(button3);
    let mut button4 = Button::new("B4");
    button4.set_h_align(HAlign::Fill);
    button4.set_weight(2);
    button4.set_preferred_size(Size::new(Some(90), Some(30)));
    widgets.add_dyn(button4);
    let area_width = 50 + 4 + 50 * (1 + 3 + 2) + 2;
    let area_size = Size::new(Some(area_width), None);
    let orient = Orient::Horizontal;
    let h_align = HAlign::Fill;
    let v_align = VAlign::Top;
    let preferred_size = Size::new(None, None);
    widgets.update_size(&theme, area_size, orient, h_align, v_align, preferred_size);
    let expected_zero_weight_width_sum = 50 + 4;
    assert_eq!(expected_zero_weight_width_sum, widgets.zero_weight_width_sum);
    let expected_weight_sum = 6;
    assert_eq!(expected_weight_sum, widgets.weight_sum);
    let expected_weight_width = 50;
    assert_eq!(expected_weight_width, widgets.weight_width);
    let expected_weight_width_rem = 2;
    assert_eq!(expected_weight_width_rem, widgets.weight_width_rem);
    assert_eq!(Size::new(51, 34), widgets.widgets[0].margin_size());
    assert_eq!(Size::new(47, 30), widgets.widgets[0].size());
    assert_eq!(Size::new(54, 34), widgets.widgets[1].margin_size());
    assert_eq!(Size::new(50, 30), widgets.widgets[1].size());
    assert_eq!(Size::new(151, 34), widgets.widgets[2].margin_size());
    assert_eq!(Size::new(147, 30), widgets.widgets[2].size());
    assert_eq!(Size::new(100, 34), widgets.widgets[3].margin_size());
    assert_eq!(Size::new(96, 30), widgets.widgets[3].size());
    let size = widgets.size(area_size, orient, h_align, v_align, preferred_size);
    let area_bounds = Rect::new(20, 10, area_width, size.height);
    widgets.update_pos(&theme, area_bounds, orient, h_align, v_align, preferred_size);
    assert_eq!(Pos::new(20, 10), widgets.widgets[0].margin_pos());
    assert_eq!(Pos::new(20 + 2, 10 + 2), widgets.widgets[0].pos());
    assert_eq!(Pos::new(20 + 51, 10), widgets.widgets[1].margin_pos());
    assert_eq!(Pos::new(20 + 51 + 2, 10 + 2), widgets.widgets[1].pos());
    assert_eq!(Pos::new(20 + 51 + 54, 10), widgets.widgets[2].margin_pos());
    assert_eq!(Pos::new(20 + 51 + 54 + 2, 10 + 2), widgets.widgets[2].pos());
    assert_eq!(Pos::new(20 + 51 + 54 + 151, 10), widgets.widgets[3].margin_pos());
    assert_eq!(Pos::new(20 + 51 + 54 + 151 + 2, 10 + 2), widgets.widgets[3].pos());
}

#[test]
fn test_linear_layout_widgets_update_size_and_position_for_horizontal_orientation_and_weighted_widgets_and_area_width_and_fill_alignment_and_second_remainder()
{
    let mut theme = MockTheme::new();
    theme.set_font_size(32.0);
    theme.set_button_margin_edges(Edges::new(2, 2, 2, 2));
    theme.set_button_padding_edges(Edges::new(4, 4, 4, 4));
    theme.set_button_font_size(16.0);
    let mut widgets: LinearLayoutWidgets<Button> = LinearLayoutWidgets::new();
    let mut button1 = Button::new("B1");
    button1.set_weight(1);
    button1.set_preferred_size(Size::new(Some(40), Some(30)));
    widgets.add_dyn(button1);
    let mut button2 = Button::new("B2");
    button2.set_preferred_size(Size::new(Some(50), Some(30)));
    widgets.add_dyn(button2);
    let mut button3 = Button::new("B3");
    button3.set_weight(3);
    button3.set_preferred_size(Size::new(Some(40), Some(30)));
    widgets.add_dyn(button3);
    let mut button4 = Button::new("B4");
    button4.set_weight(2);
    button4.set_preferred_size(Size::new(Some(90), Some(30)));
    widgets.add_dyn(button4);
    let area_width = 50 + 4 + 50 * (1 + 3 + 2) + 4;
    let area_size = Size::new(Some(area_width), None);
    let orient = Orient::Horizontal;
    let h_align = HAlign::Fill;
    let v_align = VAlign::Top;
    let preferred_size = Size::new(None, None);
    widgets.update_size(&theme, area_size, orient, h_align, v_align, preferred_size);
    let expected_zero_weight_width_sum = 50 + 4;
    assert_eq!(expected_zero_weight_width_sum, widgets.zero_weight_width_sum);
    let expected_weight_sum = 6;
    assert_eq!(expected_weight_sum, widgets.weight_sum);
    let expected_weight_width = 50;
    assert_eq!(expected_weight_width, widgets.weight_width);
    let expected_weight_width_rem = 4;
    assert_eq!(expected_weight_width_rem, widgets.weight_width_rem);
    assert_eq!(Size::new(44, 34), widgets.widgets[0].margin_size());
    assert_eq!(Size::new(40, 30), widgets.widgets[0].size());
    assert_eq!(Size::new(54, 34), widgets.widgets[1].margin_size());
    assert_eq!(Size::new(50, 30), widgets.widgets[1].size());
    assert_eq!(Size::new(44, 34), widgets.widgets[2].margin_size());
    assert_eq!(Size::new(40, 30), widgets.widgets[2].size());
    assert_eq!(Size::new(94, 34), widgets.widgets[3].margin_size());
    assert_eq!(Size::new(90, 30), widgets.widgets[3].size());
    let size = widgets.size(area_size, orient, h_align, v_align, preferred_size);
    let area_bounds = Rect::new(20, 10, area_width, size.height);
    widgets.update_pos(&theme, area_bounds, orient, h_align, v_align, preferred_size);
    assert_eq!(Pos::new(20, 10), widgets.widgets[0].margin_pos());
    assert_eq!(Pos::new(20 + 2, 10 + 2), widgets.widgets[0].pos());
    assert_eq!(Pos::new(20 + 51, 10), widgets.widgets[1].margin_pos());
    assert_eq!(Pos::new(20 + 51 + 2, 10 + 2), widgets.widgets[1].pos());
    assert_eq!(Pos::new(20 + 51 + 54, 10), widgets.widgets[2].margin_pos());
    assert_eq!(Pos::new(20 + 51 + 54 + 2, 10 + 2), widgets.widgets[2].pos());
    assert_eq!(Pos::new(20 + 51 + 54 + 153, 10), widgets.widgets[3].margin_pos());
    assert_eq!(Pos::new(20 + 51 + 54 + 153 + 2, 10 + 2), widgets.widgets[3].pos());
}

#[test]
fn test_linear_layout_widgets_update_size_and_position_for_horizontal_orientation_and_filled_weighted_widgets_and_area_width_and_fill_alignment_and_second_remainder()
{
    let mut theme = MockTheme::new();
    theme.set_font_size(32.0);
    theme.set_button_margin_edges(Edges::new(2, 2, 2, 2));
    theme.set_button_padding_edges(Edges::new(4, 4, 4, 4));
    theme.set_button_font_size(16.0);
    let mut widgets: LinearLayoutWidgets<Button> = LinearLayoutWidgets::new();
    let mut button1 = Button::new("B1");
    button1.set_h_align(HAlign::Fill);
    button1.set_weight(1);
    button1.set_preferred_size(Size::new(Some(40), Some(30)));
    widgets.add_dyn(button1);
    let mut button2 = Button::new("B2");
    button2.set_preferred_size(Size::new(Some(50), Some(30)));
    widgets.add_dyn(button2);
    let mut button3 = Button::new("B3");
    button3.set_h_align(HAlign::Fill);
    button3.set_weight(3);
    button3.set_preferred_size(Size::new(Some(40), Some(30)));
    widgets.add_dyn(button3);
    let mut button4 = Button::new("B4");
    button4.set_h_align(HAlign::Fill);
    button4.set_weight(2);
    button4.set_preferred_size(Size::new(Some(90), Some(30)));
    widgets.add_dyn(button4);
    let area_width = 50 + 4 + 50 * (1 + 3 + 2) + 4;
    let area_size = Size::new(Some(area_width), None);
    let orient = Orient::Horizontal;
    let h_align = HAlign::Fill;
    let v_align = VAlign::Top;
    let preferred_size = Size::new(None, None);
    widgets.update_size(&theme, area_size, orient, h_align, v_align, preferred_size);
    let expected_zero_weight_width_sum = 50 + 4;
    assert_eq!(expected_zero_weight_width_sum, widgets.zero_weight_width_sum);
    let expected_weight_sum = 6;
    assert_eq!(expected_weight_sum, widgets.weight_sum);
    let expected_weight_width = 50;
    assert_eq!(expected_weight_width, widgets.weight_width);
    let expected_weight_width_rem = 4;
    assert_eq!(expected_weight_width_rem, widgets.weight_width_rem);
    assert_eq!(Size::new(51, 34), widgets.widgets[0].margin_size());
    assert_eq!(Size::new(47, 30), widgets.widgets[0].size());
    assert_eq!(Size::new(54, 34), widgets.widgets[1].margin_size());
    assert_eq!(Size::new(50, 30), widgets.widgets[1].size());
    assert_eq!(Size::new(153, 34), widgets.widgets[2].margin_size());
    assert_eq!(Size::new(149, 30), widgets.widgets[2].size());
    assert_eq!(Size::new(100, 34), widgets.widgets[3].margin_size());
    assert_eq!(Size::new(96, 30), widgets.widgets[3].size());
    let size = widgets.size(area_size, orient, h_align, v_align, preferred_size);
    let area_bounds = Rect::new(20, 10, area_width, size.height);
    widgets.update_pos(&theme, area_bounds, orient, h_align, v_align, preferred_size);
    assert_eq!(Pos::new(20, 10), widgets.widgets[0].margin_pos());
    assert_eq!(Pos::new(20 + 2, 10 + 2), widgets.widgets[0].pos());
    assert_eq!(Pos::new(20 + 51, 10), widgets.widgets[1].margin_pos());
    assert_eq!(Pos::new(20 + 51 + 2, 10 + 2), widgets.widgets[1].pos());
    assert_eq!(Pos::new(20 + 51 + 54, 10), widgets.widgets[2].margin_pos());
    assert_eq!(Pos::new(20 + 51 + 54 + 2, 10 + 2), widgets.widgets[2].pos());
    assert_eq!(Pos::new(20 + 51 + 54 + 153, 10), widgets.widgets[3].margin_pos());
    assert_eq!(Pos::new(20 + 51 + 54 + 153 + 2, 10 + 2), widgets.widgets[3].pos());
}

#[test]
fn test_linear_layout_widgets_update_size_and_position_for_horizontal_orientation_and_weighted_widgets_and_area_width_and_preferred_width()
{
    let mut theme = MockTheme::new();
    theme.set_font_size(32.0);
    theme.set_button_margin_edges(Edges::new(2, 2, 2, 2));
    theme.set_button_padding_edges(Edges::new(4, 4, 4, 4));
    theme.set_button_font_size(16.0);
    let mut widgets: LinearLayoutWidgets<Button> = LinearLayoutWidgets::new();
    let mut button1 = Button::new("B1");
    button1.set_weight(1);
    button1.set_preferred_size(Size::new(Some(40), Some(30)));
    widgets.add_dyn(button1);
    let mut button2 = Button::new("B2");
    button2.set_preferred_size(Size::new(Some(50), Some(30)));
    widgets.add_dyn(button2);
    let mut button3 = Button::new("B3");
    button3.set_weight(3);
    button3.set_preferred_size(Size::new(Some(40), Some(30)));
    widgets.add_dyn(button3);
    let mut button4 = Button::new("B4");
    button4.set_weight(2);
    button4.set_preferred_size(Size::new(Some(90), Some(30)));
    widgets.add_dyn(button4);
    let area_width = 50 + 4 + 60 * (1 + 3 + 2) + 2;
    let area_size = Size::new(Some(area_width), None);
    let orient = Orient::Horizontal;
    let h_align = HAlign::Left;
    let v_align = VAlign::Top;
    let preferred_width = 50 + 4 + 50 * (1 + 3 + 2) + 2;
    let preferred_size = Size::new(Some(preferred_width), None);
    widgets.update_size(&theme, area_size, orient, h_align, v_align, preferred_size);
    let expected_zero_weight_width_sum = 50 + 4;
    assert_eq!(expected_zero_weight_width_sum, widgets.zero_weight_width_sum);
    let expected_weight_sum = 6;
    assert_eq!(expected_weight_sum, widgets.weight_sum);
    let expected_weight_width = 50;
    assert_eq!(expected_weight_width, widgets.weight_width);
    let expected_weight_width_rem = 2;
    assert_eq!(expected_weight_width_rem, widgets.weight_width_rem);
    assert_eq!(Size::new(44, 34), widgets.widgets[0].margin_size());
    assert_eq!(Size::new(40, 30), widgets.widgets[0].size());
    assert_eq!(Size::new(54, 34), widgets.widgets[1].margin_size());
    assert_eq!(Size::new(50, 30), widgets.widgets[1].size());
    assert_eq!(Size::new(44, 34), widgets.widgets[2].margin_size());
    assert_eq!(Size::new(40, 30), widgets.widgets[2].size());
    assert_eq!(Size::new(94, 34), widgets.widgets[3].margin_size());
    assert_eq!(Size::new(90, 30), widgets.widgets[3].size());
    let size = widgets.size(area_size, orient, h_align, v_align, preferred_size);
    let area_bounds = Rect::new(20, 10, area_width, size.height);
    widgets.update_pos(&theme, area_bounds, orient, h_align, v_align, preferred_size);
    assert_eq!(Pos::new(20, 10), widgets.widgets[0].margin_pos());
    assert_eq!(Pos::new(20 + 2, 10 + 2), widgets.widgets[0].pos());
    assert_eq!(Pos::new(20 + 51, 10), widgets.widgets[1].margin_pos());
    assert_eq!(Pos::new(20 + 51 + 2, 10 + 2), widgets.widgets[1].pos());
    assert_eq!(Pos::new(20 + 51 + 54, 10), widgets.widgets[2].margin_pos());
    assert_eq!(Pos::new(20 + 51 + 54 + 2, 10 + 2), widgets.widgets[2].pos());
    assert_eq!(Pos::new(20 + 51 + 54 + 151, 10), widgets.widgets[3].margin_pos());
    assert_eq!(Pos::new(20 + 51 + 54 + 151 + 2, 10 + 2), widgets.widgets[3].pos());
}

#[test]
fn test_linear_layout_widgets_update_size_and_position_for_horizontal_orientation_and_filled_weighted_widgets_and_area_width_and_preferred_width()
{
    let mut theme = MockTheme::new();
    theme.set_font_size(32.0);
    theme.set_button_margin_edges(Edges::new(2, 2, 2, 2));
    theme.set_button_padding_edges(Edges::new(4, 4, 4, 4));
    theme.set_button_font_size(16.0);
    let mut widgets: LinearLayoutWidgets<Button> = LinearLayoutWidgets::new();
    let mut button1 = Button::new("B1");
    button1.set_h_align(HAlign::Fill);
    button1.set_weight(1);
    button1.set_preferred_size(Size::new(Some(40), Some(30)));
    widgets.add_dyn(button1);
    let mut button2 = Button::new("B2");
    button2.set_preferred_size(Size::new(Some(50), Some(30)));
    widgets.add_dyn(button2);
    let mut button3 = Button::new("B3");
    button3.set_h_align(HAlign::Fill);
    button3.set_weight(3);
    button3.set_preferred_size(Size::new(Some(40), Some(30)));
    widgets.add_dyn(button3);
    let mut button4 = Button::new("B4");
    button4.set_h_align(HAlign::Fill);
    button4.set_weight(2);
    button4.set_preferred_size(Size::new(Some(90), Some(30)));
    widgets.add_dyn(button4);
    let area_width = 50 + 4 + 60 * (1 + 3 + 2) + 2;
    let area_size = Size::new(Some(area_width), None);
    let orient = Orient::Horizontal;
    let h_align = HAlign::Left;
    let v_align = VAlign::Top;
    let preferred_width = 50 + 4 + 50 * (1 + 3 + 2) + 2;
    let preferred_size = Size::new(Some(preferred_width), None);
    widgets.update_size(&theme, area_size, orient, h_align, v_align, preferred_size);
    let expected_zero_weight_width_sum = 50 + 4;
    assert_eq!(expected_zero_weight_width_sum, widgets.zero_weight_width_sum);
    let expected_weight_sum = 6;
    assert_eq!(expected_weight_sum, widgets.weight_sum);
    let expected_weight_width = 50;
    assert_eq!(expected_weight_width, widgets.weight_width);
    let expected_weight_width_rem = 2;
    assert_eq!(expected_weight_width_rem, widgets.weight_width_rem);
    assert_eq!(Size::new(51, 34), widgets.widgets[0].margin_size());
    assert_eq!(Size::new(47, 30), widgets.widgets[0].size());
    assert_eq!(Size::new(54, 34), widgets.widgets[1].margin_size());
    assert_eq!(Size::new(50, 30), widgets.widgets[1].size());
    assert_eq!(Size::new(151, 34), widgets.widgets[2].margin_size());
    assert_eq!(Size::new(147, 30), widgets.widgets[2].size());
    assert_eq!(Size::new(100, 34), widgets.widgets[3].margin_size());
    assert_eq!(Size::new(96, 30), widgets.widgets[3].size());
    let size = widgets.size(area_size, orient, h_align, v_align, preferred_size);
    let area_bounds = Rect::new(20, 10, area_width, size.height);
    widgets.update_pos(&theme, area_bounds, orient, h_align, v_align, preferred_size);
    assert_eq!(Pos::new(20, 10), widgets.widgets[0].margin_pos());
    assert_eq!(Pos::new(20 + 2, 10 + 2), widgets.widgets[0].pos());
    assert_eq!(Pos::new(20 + 51, 10), widgets.widgets[1].margin_pos());
    assert_eq!(Pos::new(20 + 51 + 2, 10 + 2), widgets.widgets[1].pos());
    assert_eq!(Pos::new(20 + 51 + 54, 10), widgets.widgets[2].margin_pos());
    assert_eq!(Pos::new(20 + 51 + 54 + 2, 10 + 2), widgets.widgets[2].pos());
    assert_eq!(Pos::new(20 + 51 + 54 + 151, 10), widgets.widgets[3].margin_pos());
    assert_eq!(Pos::new(20 + 51 + 54 + 151 + 2, 10 + 2), widgets.widgets[3].pos());
}

#[test]
fn test_linear_layout_widgets_update_size_and_position_for_horizontal_orientation_and_no_widgets()
{
    let mut theme = MockTheme::new();
    theme.set_font_size(32.0);
    theme.set_button_margin_edges(Edges::new(2, 2, 2, 2));
    theme.set_button_padding_edges(Edges::new(4, 4, 4, 4));
    theme.set_button_font_size(16.0);
    let mut widgets: LinearLayoutWidgets<Button> = LinearLayoutWidgets::new();
    let area_size = Size::new(None, None);
    let orient = Orient::Horizontal;
    let h_align = HAlign::Left;
    let v_align = VAlign::Top;
    let preferred_size = Size::new(None, None);
    widgets.update_size(&theme, area_size, orient, h_align, v_align, preferred_size);
    let expected_zero_weight_width_sum = 0;
    assert_eq!(expected_zero_weight_width_sum, widgets.zero_weight_width_sum);
    let expected_weight_sum = 0;
    assert_eq!(expected_weight_sum, widgets.weight_sum);
    let expected_weight_width = 0;
    assert_eq!(expected_weight_width, widgets.weight_width);
    let expected_weight_width_rem = 0;
    assert_eq!(expected_weight_width_rem, widgets.weight_width_rem);
    let size = widgets.size(area_size, orient, h_align, v_align, preferred_size);
    let area_bounds = Rect::new(20, 10, size.width, size.height);
    widgets.update_pos(&theme, area_bounds, orient, h_align, v_align, preferred_size);
}

#[test]
fn test_linear_layout_widgets_update_size_and_position_for_vertical_orientation()
{
    let mut theme = MockTheme::new();
    theme.set_font_size(32.0);
    theme.set_button_margin_edges(Edges::new(2, 2, 2, 2));
    theme.set_button_padding_edges(Edges::new(4, 4, 4, 4));
    theme.set_button_font_size(16.0);
    let mut widgets: LinearLayoutWidgets<Button> = LinearLayoutWidgets::new();
    let mut button1 = Button::new("B1");
    button1.set_preferred_size(Size::new(Some(40), Some(50)));
    widgets.add_dyn(button1);
    let mut button2 = Button::new("B2");
    button2.set_preferred_size(Size::new(Some(50), Some(40)));
    widgets.add_dyn(button2);
    let mut button3 = Button::new("B3");
    button3.set_preferred_size(Size::new(Some(60), Some(30)));
    widgets.add_dyn(button3);
    let area_size = Size::new(None, None);
    let orient = Orient::Vertical;
    let h_align = HAlign::Left;
    let v_align = VAlign::Top;
    let preferred_size = Size::new(None, None);
    widgets.update_size(&theme, area_size, orient, h_align, v_align, preferred_size);
    let expected_zero_weight_width_sum = 50 + 4 + 40 + 4 + 30 + 4;
    assert_eq!(expected_zero_weight_width_sum, widgets.zero_weight_width_sum);
    let expected_weight_sum = 0;
    assert_eq!(expected_weight_sum, widgets.weight_sum);
    let expected_weight_width = 0;
    assert_eq!(expected_weight_width, widgets.weight_width);
    let expected_weight_width_rem = 0;
    assert_eq!(expected_weight_width_rem, widgets.weight_width_rem);
    assert_eq!(Size::new(44, 54), widgets.widgets[0].margin_size());
    assert_eq!(Size::new(40, 50), widgets.widgets[0].size());
    assert_eq!(Size::new(54, 44), widgets.widgets[1].margin_size());
    assert_eq!(Size::new(50, 40), widgets.widgets[1].size());
    assert_eq!(Size::new(64, 34), widgets.widgets[2].margin_size());
    assert_eq!(Size::new(60, 30), widgets.widgets[2].size());
    let size = widgets.size(area_size, orient, h_align, v_align, preferred_size);
    let area_bounds = Rect::new(20, 10, size.width, size.height);
    widgets.update_pos(&theme, area_bounds, orient, h_align, v_align, preferred_size);
    assert_eq!(Pos::new(20, 10), widgets.widgets[0].margin_pos());
    assert_eq!(Pos::new(20 + 2, 10 + 2), widgets.widgets[0].pos());
    assert_eq!(Pos::new(20, 10 + 54), widgets.widgets[1].margin_pos());
    assert_eq!(Pos::new(20 + 2, 10 + 54 + 2), widgets.widgets[1].pos());
    assert_eq!(Pos::new(20, 10 + 54 + 44), widgets.widgets[2].margin_pos());
    assert_eq!(Pos::new(20 + 2, 10 + 54 + 44 + 2), widgets.widgets[2].pos());
}

#[test]
fn test_linear_layout_widgets_update_size_and_position_for_vertical_orientation_and_filled_widgets()
{
    let mut theme = MockTheme::new();
    theme.set_font_size(32.0);
    theme.set_button_margin_edges(Edges::new(2, 2, 2, 2));
    theme.set_button_padding_edges(Edges::new(4, 4, 4, 4));
    theme.set_button_font_size(16.0);
    let mut widgets: LinearLayoutWidgets<Button> = LinearLayoutWidgets::new();
    let mut button1 = Button::new("B1");
    button1.set_h_align(HAlign::Fill);
    button1.set_preferred_size(Size::new(Some(40), Some(50)));
    widgets.add_dyn(button1);
    let mut button2 = Button::new("B2");
    button2.set_h_align(HAlign::Fill);
    button2.set_preferred_size(Size::new(Some(50), Some(40)));
    widgets.add_dyn(button2);
    let mut button3 = Button::new("B3");
    button3.set_h_align(HAlign::Fill);
    button3.set_preferred_size(Size::new(Some(60), Some(30)));
    widgets.add_dyn(button3);
    let area_size = Size::new(None, None);
    let orient = Orient::Vertical;
    let h_align = HAlign::Left;
    let v_align = VAlign::Top;
    let preferred_size = Size::new(None, None);
    widgets.update_size(&theme, area_size, orient, h_align, v_align, preferred_size);
    let expected_zero_weight_width_sum = 50 + 4 + 40 + 4 + 30 + 4;
    assert_eq!(expected_zero_weight_width_sum, widgets.zero_weight_width_sum);
    let expected_weight_sum = 0;
    assert_eq!(expected_weight_sum, widgets.weight_sum);
    let expected_weight_width = 0;
    assert_eq!(expected_weight_width, widgets.weight_width);
    let expected_weight_width_rem = 0;
    assert_eq!(expected_weight_width_rem, widgets.weight_width_rem);
    assert_eq!(Size::new(64, 54), widgets.widgets[0].margin_size());
    assert_eq!(Size::new(60, 50), widgets.widgets[0].size());
    assert_eq!(Size::new(64, 44), widgets.widgets[1].margin_size());
    assert_eq!(Size::new(60, 40), widgets.widgets[1].size());
    assert_eq!(Size::new(64, 34), widgets.widgets[2].margin_size());
    assert_eq!(Size::new(60, 30), widgets.widgets[2].size());
    let size = widgets.size(area_size, orient, h_align, v_align, preferred_size);
    let area_bounds = Rect::new(20, 10, size.width, size.height);
    widgets.update_pos(&theme, area_bounds, orient, h_align, v_align, preferred_size);
    assert_eq!(Pos::new(20, 10), widgets.widgets[0].margin_pos());
    assert_eq!(Pos::new(20 + 2, 10 + 2), widgets.widgets[0].pos());
    assert_eq!(Pos::new(20, 10 + 54), widgets.widgets[1].margin_pos());
    assert_eq!(Pos::new(20 + 2, 10 + 54 + 2), widgets.widgets[1].pos());
    assert_eq!(Pos::new(20, 10 + 54 + 44), widgets.widgets[2].margin_pos());
    assert_eq!(Pos::new(20 + 2, 10 + 54 + 44 + 2), widgets.widgets[2].pos());
}

#[test]
fn test_linear_layout_widgets_update_size_and_position_for_vertical_orientation_and_weighted_widgets()
{
    let mut theme = MockTheme::new();
    theme.set_font_size(32.0);
    theme.set_button_margin_edges(Edges::new(2, 2, 2, 2));
    theme.set_button_padding_edges(Edges::new(4, 4, 4, 4));
    theme.set_button_font_size(16.0);
    let mut widgets: LinearLayoutWidgets<Button> = LinearLayoutWidgets::new();
    let mut button1 = Button::new("B1");
    button1.set_weight(1);
    button1.set_preferred_size(Size::new(Some(40), Some(30)));
    widgets.add_dyn(button1);
    let mut button2 = Button::new("B2");
    button2.set_preferred_size(Size::new(Some(40), Some(40)));
    widgets.add_dyn(button2);
    let mut button3 = Button::new("B3");
    button3.set_weight(3);
    button3.set_preferred_size(Size::new(Some(40), Some(30)));
    widgets.add_dyn(button3);
    let mut button4 = Button::new("B4");
    button4.set_weight(2);
    button4.set_preferred_size(Size::new(Some(40), Some(70)));
    widgets.add_dyn(button4);
    let area_size = Size::new(None, None);
    let orient = Orient::Vertical;
    let h_align = HAlign::Left;
    let v_align = VAlign::Top;
    let preferred_size = Size::new(None, None);
    widgets.update_size(&theme, area_size, orient, h_align, v_align, preferred_size);
    let expected_zero_weight_width_sum = 40 + 4;
    assert_eq!(expected_zero_weight_width_sum, widgets.zero_weight_width_sum);
    let expected_weight_sum = 6;
    assert_eq!(expected_weight_sum, widgets.weight_sum);
    let expected_weight_width = 37;
    assert_eq!(expected_weight_width, widgets.weight_width);
    let expected_weight_width_rem = 0;
    assert_eq!(expected_weight_width_rem, widgets.weight_width_rem);
    assert_eq!(Size::new(44, 34), widgets.widgets[0].margin_size());
    assert_eq!(Size::new(40, 30), widgets.widgets[0].size());
    assert_eq!(Size::new(44, 44), widgets.widgets[1].margin_size());
    assert_eq!(Size::new(40, 40), widgets.widgets[1].size());
    assert_eq!(Size::new(44, 34), widgets.widgets[2].margin_size());
    assert_eq!(Size::new(40, 30), widgets.widgets[2].size());
    assert_eq!(Size::new(44, 74), widgets.widgets[3].margin_size());
    assert_eq!(Size::new(40, 70), widgets.widgets[3].size());
    let size = widgets.size(area_size, orient, h_align, v_align, preferred_size);
    let area_bounds = Rect::new(20, 10, size.width, size.height);
    widgets.update_pos(&theme, area_bounds, orient, h_align, v_align, preferred_size);
    assert_eq!(Pos::new(20, 10), widgets.widgets[0].margin_pos());
    assert_eq!(Pos::new(20 + 2, 10 + 2), widgets.widgets[0].pos());
    assert_eq!(Pos::new(20, 10 + 37), widgets.widgets[1].margin_pos());
    assert_eq!(Pos::new(20 + 2, 10 + 37 + 2), widgets.widgets[1].pos());
    assert_eq!(Pos::new(20, 10 + 37 + 44), widgets.widgets[2].margin_pos());
    assert_eq!(Pos::new(20 + 2, 10 + 37 + 44 + 2), widgets.widgets[2].pos());
    assert_eq!(Pos::new(20, 10 + 37 + 44 + 111), widgets.widgets[3].margin_pos());
    assert_eq!(Pos::new(20 + 2, 10 + 37 + 44 + 111 + 2), widgets.widgets[3].pos());
}

#[test]
fn test_linear_layout_widgets_update_size_and_position_for_vertical_orientation_and_filled_weighted_widgets()
{
    let mut theme = MockTheme::new();
    theme.set_font_size(32.0);
    theme.set_button_margin_edges(Edges::new(2, 2, 2, 2));
    theme.set_button_padding_edges(Edges::new(4, 4, 4, 4));
    theme.set_button_font_size(16.0);
    let mut widgets: LinearLayoutWidgets<Button> = LinearLayoutWidgets::new();
    let mut button1 = Button::new("B1");
    button1.set_v_align(VAlign::Fill);
    button1.set_weight(1);
    button1.set_preferred_size(Size::new(Some(40), Some(30)));
    widgets.add_dyn(button1);
    let mut button2 = Button::new("B2");
    button2.set_preferred_size(Size::new(Some(40), Some(40)));
    widgets.add_dyn(button2);
    let mut button3 = Button::new("B3");
    button3.set_v_align(VAlign::Fill);
    button3.set_weight(3);
    button3.set_preferred_size(Size::new(Some(40), Some(30)));
    widgets.add_dyn(button3);
    let mut button4 = Button::new("B4");
    button4.set_v_align(VAlign::Fill);
    button4.set_weight(2);
    button4.set_preferred_size(Size::new(Some(40), Some(70)));
    widgets.add_dyn(button4);
    let area_size = Size::new(None, None);
    let orient = Orient::Vertical;
    let h_align = HAlign::Left;
    let v_align = VAlign::Top;
    let preferred_size = Size::new(None, None);
    widgets.update_size(&theme, area_size, orient, h_align, v_align, preferred_size);
    let expected_zero_weight_width_sum = 40 + 4;
    assert_eq!(expected_zero_weight_width_sum, widgets.zero_weight_width_sum);
    let expected_weight_sum = 6;
    assert_eq!(expected_weight_sum, widgets.weight_sum);
    let expected_weight_width = 37;
    assert_eq!(expected_weight_width, widgets.weight_width);
    let expected_weight_width_rem = 0;
    assert_eq!(expected_weight_width_rem, widgets.weight_width_rem);
    assert_eq!(Size::new(44, 37), widgets.widgets[0].margin_size());
    assert_eq!(Size::new(40, 33), widgets.widgets[0].size());
    assert_eq!(Size::new(44, 44), widgets.widgets[1].margin_size());
    assert_eq!(Size::new(40, 40), widgets.widgets[1].size());
    assert_eq!(Size::new(44, 111), widgets.widgets[2].margin_size());
    assert_eq!(Size::new(40, 107), widgets.widgets[2].size());
    assert_eq!(Size::new(44, 74), widgets.widgets[3].margin_size());
    assert_eq!(Size::new(40, 70), widgets.widgets[3].size());
    let size = widgets.size(area_size, orient, h_align, v_align, preferred_size);
    let area_bounds = Rect::new(20, 10, size.width, size.height);
    widgets.update_pos(&theme, area_bounds, orient, h_align, v_align, preferred_size);
    assert_eq!(Pos::new(20, 10), widgets.widgets[0].margin_pos());
    assert_eq!(Pos::new(20 + 2, 10 + 2), widgets.widgets[0].pos());
    assert_eq!(Pos::new(20, 10 + 37), widgets.widgets[1].margin_pos());
    assert_eq!(Pos::new(20 + 2, 10 + 37 + 2), widgets.widgets[1].pos());
    assert_eq!(Pos::new(20, 10 + 37 + 44), widgets.widgets[2].margin_pos());
    assert_eq!(Pos::new(20 + 2, 10 + 37 + 44 + 2), widgets.widgets[2].pos());
    assert_eq!(Pos::new(20, 10 + 37 + 44 + 111), widgets.widgets[3].margin_pos());
    assert_eq!(Pos::new(20 + 2, 10 + 37 + 44 + 111 + 2), widgets.widgets[3].pos());
}

#[test]
fn test_linear_layout_widgets_update_size_and_position_for_vertical_orientation_and_weighted_widgets_and_area_height()
{
    let mut theme = MockTheme::new();
    theme.set_font_size(32.0);
    theme.set_button_margin_edges(Edges::new(2, 2, 2, 2));
    theme.set_button_padding_edges(Edges::new(4, 4, 4, 4));
    theme.set_button_font_size(16.0);
    let mut widgets: LinearLayoutWidgets<Button> = LinearLayoutWidgets::new();
    let mut button1 = Button::new("B1");
    button1.set_weight(1);
    button1.set_preferred_size(Size::new(Some(40), Some(30)));
    widgets.add_dyn(button1);
    let mut button2 = Button::new("B2");
    button2.set_preferred_size(Size::new(Some(40), Some(40)));
    widgets.add_dyn(button2);
    let mut button3 = Button::new("B3");
    button3.set_weight(3);
    button3.set_preferred_size(Size::new(Some(40), Some(30)));
    widgets.add_dyn(button3);
    let mut button4 = Button::new("B4");
    button4.set_weight(2);
    button4.set_preferred_size(Size::new(Some(40), Some(70)));
    widgets.add_dyn(button4);
    let area_height = 40 + 4 + 40 * (1 + 3 + 2) + 2;
    let area_size = Size::new(None, Some(area_height));
    let orient = Orient::Vertical;
    let h_align = HAlign::Left;
    let v_align = VAlign::Top;
    let preferred_size = Size::new(None, None);
    widgets.update_size(&theme, area_size, orient, h_align, v_align, preferred_size);
    let expected_zero_weight_width_sum = 40 + 4;
    assert_eq!(expected_zero_weight_width_sum, widgets.zero_weight_width_sum);
    let expected_weight_sum = 6;
    assert_eq!(expected_weight_sum, widgets.weight_sum);
    let expected_weight_width = 37;
    assert_eq!(expected_weight_width, widgets.weight_width);
    let expected_weight_width_rem = 0;
    assert_eq!(expected_weight_width_rem, widgets.weight_width_rem);
    assert_eq!(Size::new(44, 34), widgets.widgets[0].margin_size());
    assert_eq!(Size::new(40, 30), widgets.widgets[0].size());
    assert_eq!(Size::new(44, 44), widgets.widgets[1].margin_size());
    assert_eq!(Size::new(40, 40), widgets.widgets[1].size());
    assert_eq!(Size::new(44, 34), widgets.widgets[2].margin_size());
    assert_eq!(Size::new(40, 30), widgets.widgets[2].size());
    assert_eq!(Size::new(44, 74), widgets.widgets[3].margin_size());
    assert_eq!(Size::new(40, 70), widgets.widgets[3].size());
    let size = widgets.size(area_size, orient, h_align, v_align, preferred_size);
    let area_bounds = Rect::new(20, 10, size.width, area_height);
    widgets.update_pos(&theme, area_bounds, orient, h_align, v_align, preferred_size);
    assert_eq!(Pos::new(20, 10), widgets.widgets[0].margin_pos());
    assert_eq!(Pos::new(20 + 2, 10 + 2), widgets.widgets[0].pos());
    assert_eq!(Pos::new(20, 10 + 37), widgets.widgets[1].margin_pos());
    assert_eq!(Pos::new(20 + 2, 10 + 37 + 2), widgets.widgets[1].pos());
    assert_eq!(Pos::new(20, 10 + 37 + 44), widgets.widgets[2].margin_pos());
    assert_eq!(Pos::new(20 + 2, 10 + 37 + 44 + 2), widgets.widgets[2].pos());
    assert_eq!(Pos::new(20, 10 + 37 + 44 + 111), widgets.widgets[3].margin_pos());
    assert_eq!(Pos::new(20 + 2, 10 + 37 + 44 + 111 + 2), widgets.widgets[3].pos());
}

#[test]
fn test_linear_layout_widgets_update_size_and_position_for_vertical_orientation_and_filled_weighted_widgets_and_area_height()
{
    let mut theme = MockTheme::new();
    theme.set_font_size(32.0);
    theme.set_button_margin_edges(Edges::new(2, 2, 2, 2));
    theme.set_button_padding_edges(Edges::new(4, 4, 4, 4));
    theme.set_button_font_size(16.0);
    let mut widgets: LinearLayoutWidgets<Button> = LinearLayoutWidgets::new();
    let mut button1 = Button::new("B1");
    button1.set_v_align(VAlign::Fill);
    button1.set_weight(1);
    button1.set_preferred_size(Size::new(Some(40), Some(30)));
    widgets.add_dyn(button1);
    let mut button2 = Button::new("B2");
    button2.set_preferred_size(Size::new(Some(40), Some(40)));
    widgets.add_dyn(button2);
    let mut button3 = Button::new("B3");
    button3.set_v_align(VAlign::Fill);
    button3.set_weight(3);
    button3.set_preferred_size(Size::new(Some(40), Some(30)));
    widgets.add_dyn(button3);
    let mut button4 = Button::new("B4");
    button4.set_v_align(VAlign::Fill);
    button4.set_weight(2);
    button4.set_preferred_size(Size::new(Some(40), Some(70)));
    widgets.add_dyn(button4);
    let area_height = 40 + 4 + 40 * (1 + 3 + 2) + 2;
    let area_size = Size::new(None, Some(area_height));
    let orient = Orient::Vertical;
    let h_align = HAlign::Left;
    let v_align = VAlign::Top;
    let preferred_size = Size::new(None, None);
    widgets.update_size(&theme, area_size, orient, h_align, v_align, preferred_size);
    let expected_zero_weight_width_sum = 40 + 4;
    assert_eq!(expected_zero_weight_width_sum, widgets.zero_weight_width_sum);
    let expected_weight_sum = 6;
    assert_eq!(expected_weight_sum, widgets.weight_sum);
    let expected_weight_width = 40;
    assert_eq!(expected_weight_width, widgets.weight_width);
    let expected_weight_width_rem = 2;
    assert_eq!(expected_weight_width_rem, widgets.weight_width_rem);
    assert_eq!(Size::new(44, 41), widgets.widgets[0].margin_size());
    assert_eq!(Size::new(40, 37), widgets.widgets[0].size());
    assert_eq!(Size::new(44, 44), widgets.widgets[1].margin_size());
    assert_eq!(Size::new(40, 40), widgets.widgets[1].size());
    assert_eq!(Size::new(44, 121), widgets.widgets[2].margin_size());
    assert_eq!(Size::new(40, 117), widgets.widgets[2].size());
    assert_eq!(Size::new(44, 80), widgets.widgets[3].margin_size());
    assert_eq!(Size::new(40, 76), widgets.widgets[3].size());
    let size = widgets.size(area_size, orient, h_align, v_align, preferred_size);
    let area_bounds = Rect::new(20, 10, size.width, area_height);
    widgets.update_pos(&theme, area_bounds, orient, h_align, v_align, preferred_size);
    assert_eq!(Pos::new(20, 10), widgets.widgets[0].margin_pos());
    assert_eq!(Pos::new(20 + 2, 10 + 2), widgets.widgets[0].pos());
    assert_eq!(Pos::new(20, 10 + 41), widgets.widgets[1].margin_pos());
    assert_eq!(Pos::new(20 + 2, 10 + 41 + 2), widgets.widgets[1].pos());
    assert_eq!(Pos::new(20, 10 + 41 + 44), widgets.widgets[2].margin_pos());
    assert_eq!(Pos::new(20 + 2, 10 + 41 + 44 + 2), widgets.widgets[2].pos());
    assert_eq!(Pos::new(20, 10 + 41 + 44 + 121), widgets.widgets[3].margin_pos());
    assert_eq!(Pos::new(20 + 2, 10 + 41 + 44 + 121 + 2), widgets.widgets[3].pos());
}

#[test]
fn test_linear_layout_widgets_update_size_and_position_for_vertical_orientation_and_weighted_widgets_and_area_height_and_fill_alignment()
{
    let mut theme = MockTheme::new();
    theme.set_font_size(32.0);
    theme.set_button_margin_edges(Edges::new(2, 2, 2, 2));
    theme.set_button_padding_edges(Edges::new(4, 4, 4, 4));
    theme.set_button_font_size(16.0);
    let mut widgets: LinearLayoutWidgets<Button> = LinearLayoutWidgets::new();
    let mut button1 = Button::new("B1");
    button1.set_weight(1);
    button1.set_preferred_size(Size::new(Some(40), Some(30)));
    widgets.add_dyn(button1);
    let mut button2 = Button::new("B2");
    button2.set_preferred_size(Size::new(Some(40), Some(40)));
    widgets.add_dyn(button2);
    let mut button3 = Button::new("B3");
    button3.set_weight(3);
    button3.set_preferred_size(Size::new(Some(40), Some(30)));
    widgets.add_dyn(button3);
    let mut button4 = Button::new("B4");
    button4.set_weight(2);
    button4.set_preferred_size(Size::new(Some(40), Some(70)));
    widgets.add_dyn(button4);
    let area_height = 40 + 4 + 40 * (1 + 3 + 2) + 2;
    let area_size = Size::new(None, Some(area_height));
    let orient = Orient::Vertical;
    let h_align = HAlign::Left;
    let v_align = VAlign::Fill;
    let preferred_size = Size::new(None, None);
    widgets.update_size(&theme, area_size, orient, h_align, v_align, preferred_size);
    let expected_zero_weight_width_sum = 40 + 4;
    assert_eq!(expected_zero_weight_width_sum, widgets.zero_weight_width_sum);
    let expected_weight_sum = 6;
    assert_eq!(expected_weight_sum, widgets.weight_sum);
    let expected_weight_width = 40;
    assert_eq!(expected_weight_width, widgets.weight_width);
    let expected_weight_width_rem = 2;
    assert_eq!(expected_weight_width_rem, widgets.weight_width_rem);
    assert_eq!(Size::new(44, 34), widgets.widgets[0].margin_size());
    assert_eq!(Size::new(40, 30), widgets.widgets[0].size());
    assert_eq!(Size::new(44, 44), widgets.widgets[1].margin_size());
    assert_eq!(Size::new(40, 40), widgets.widgets[1].size());
    assert_eq!(Size::new(44, 34), widgets.widgets[2].margin_size());
    assert_eq!(Size::new(40, 30), widgets.widgets[2].size());
    assert_eq!(Size::new(44, 74), widgets.widgets[3].margin_size());
    assert_eq!(Size::new(40, 70), widgets.widgets[3].size());
    let size = widgets.size(area_size, orient, h_align, v_align, preferred_size);
    let area_bounds = Rect::new(20, 10, size.width, area_height);
    widgets.update_pos(&theme, area_bounds, orient, h_align, v_align, preferred_size);
    assert_eq!(Pos::new(20, 10), widgets.widgets[0].margin_pos());
    assert_eq!(Pos::new(20 + 2, 10 + 2), widgets.widgets[0].pos());
    assert_eq!(Pos::new(20, 10 + 41), widgets.widgets[1].margin_pos());
    assert_eq!(Pos::new(20 + 2, 10 + 41 + 2), widgets.widgets[1].pos());
    assert_eq!(Pos::new(20, 10 + 41 + 44), widgets.widgets[2].margin_pos());
    assert_eq!(Pos::new(20 + 2, 10 + 41 + 44 + 2), widgets.widgets[2].pos());
    assert_eq!(Pos::new(20, 10 + 41 + 44 + 121), widgets.widgets[3].margin_pos());
    assert_eq!(Pos::new(20 + 2, 10 + 41 + 44 + 121 + 2), widgets.widgets[3].pos());
}

#[test]
fn test_linear_layout_widgets_update_size_and_position_for_vertical_orientation_and_filled_weighted_widgets_and_area_height_and_fill_alignment()
{
    let mut theme = MockTheme::new();
    theme.set_font_size(32.0);
    theme.set_button_margin_edges(Edges::new(2, 2, 2, 2));
    theme.set_button_padding_edges(Edges::new(4, 4, 4, 4));
    theme.set_button_font_size(16.0);
    let mut widgets: LinearLayoutWidgets<Button> = LinearLayoutWidgets::new();
    let mut button1 = Button::new("B1");
    button1.set_v_align(VAlign::Fill);
    button1.set_weight(1);
    button1.set_preferred_size(Size::new(Some(40), Some(30)));
    widgets.add_dyn(button1);
    let mut button2 = Button::new("B2");
    button2.set_preferred_size(Size::new(Some(40), Some(40)));
    widgets.add_dyn(button2);
    let mut button3 = Button::new("B3");
    button3.set_v_align(VAlign::Fill);
    button3.set_weight(3);
    button3.set_preferred_size(Size::new(Some(40), Some(30)));
    widgets.add_dyn(button3);
    let mut button4 = Button::new("B4");
    button4.set_v_align(VAlign::Fill);
    button4.set_weight(2);
    button4.set_preferred_size(Size::new(Some(40), Some(70)));
    widgets.add_dyn(button4);
    let area_height = 40 + 4 + 40 * (1 + 3 + 2) + 2;
    let area_size = Size::new(None, Some(area_height));
    let orient = Orient::Vertical;
    let h_align = HAlign::Left;
    let v_align = VAlign::Fill;
    let preferred_size = Size::new(None, None);
    widgets.update_size(&theme, area_size, orient, h_align, v_align, preferred_size);
    let expected_zero_weight_width_sum = 40 + 4;
    assert_eq!(expected_zero_weight_width_sum, widgets.zero_weight_width_sum);
    let expected_weight_sum = 6;
    assert_eq!(expected_weight_sum, widgets.weight_sum);
    let expected_weight_width = 40;
    assert_eq!(expected_weight_width, widgets.weight_width);
    let expected_weight_width_rem = 2;
    assert_eq!(expected_weight_width_rem, widgets.weight_width_rem);
    assert_eq!(Size::new(44, 41), widgets.widgets[0].margin_size());
    assert_eq!(Size::new(40, 37), widgets.widgets[0].size());
    assert_eq!(Size::new(44, 44), widgets.widgets[1].margin_size());
    assert_eq!(Size::new(40, 40), widgets.widgets[1].size());
    assert_eq!(Size::new(44, 121), widgets.widgets[2].margin_size());
    assert_eq!(Size::new(40, 117), widgets.widgets[2].size());
    assert_eq!(Size::new(44, 80), widgets.widgets[3].margin_size());
    assert_eq!(Size::new(40, 76), widgets.widgets[3].size());
    let size = widgets.size(area_size, orient, h_align, v_align, preferred_size);
    let area_bounds = Rect::new(20, 10, size.width, area_height);
    widgets.update_pos(&theme, area_bounds, orient, h_align, v_align, preferred_size);
    assert_eq!(Pos::new(20, 10), widgets.widgets[0].margin_pos());
    assert_eq!(Pos::new(20 + 2, 10 + 2), widgets.widgets[0].pos());
    assert_eq!(Pos::new(20, 10 + 41), widgets.widgets[1].margin_pos());
    assert_eq!(Pos::new(20 + 2, 10 + 41 + 2), widgets.widgets[1].pos());
    assert_eq!(Pos::new(20, 10 + 41 + 44), widgets.widgets[2].margin_pos());
    assert_eq!(Pos::new(20 + 2, 10 + 41 + 44 + 2), widgets.widgets[2].pos());
    assert_eq!(Pos::new(20, 10 + 41 + 44 + 121), widgets.widgets[3].margin_pos());
    assert_eq!(Pos::new(20 + 2, 10 + 41 + 44 + 121 + 2), widgets.widgets[3].pos());
}

#[test]
fn test_linear_layout_widgets_update_size_and_position_for_vertical_orientation_and_weighted_widgets_and_area_height_and_fill_alignment_and_second_remainder()
{
    let mut theme = MockTheme::new();
    theme.set_font_size(32.0);
    theme.set_button_margin_edges(Edges::new(2, 2, 2, 2));
    theme.set_button_padding_edges(Edges::new(4, 4, 4, 4));
    theme.set_button_font_size(16.0);
    let mut widgets: LinearLayoutWidgets<Button> = LinearLayoutWidgets::new();
    let mut button1 = Button::new("B1");
    button1.set_weight(1);
    button1.set_preferred_size(Size::new(Some(40), Some(30)));
    widgets.add_dyn(button1);
    let mut button2 = Button::new("B2");
    button2.set_preferred_size(Size::new(Some(40), Some(40)));
    widgets.add_dyn(button2);
    let mut button3 = Button::new("B3");
    button3.set_weight(3);
    button3.set_preferred_size(Size::new(Some(40), Some(30)));
    widgets.add_dyn(button3);
    let mut button4 = Button::new("B4");
    button4.set_weight(2);
    button4.set_preferred_size(Size::new(Some(40), Some(70)));
    widgets.add_dyn(button4);
    let area_height = 40 + 4 + 40 * (1 + 3 + 2) + 4;
    let area_size = Size::new(None, Some(area_height));
    let orient = Orient::Vertical;
    let h_align = HAlign::Left;
    let v_align = VAlign::Fill;
    let preferred_size = Size::new(None, None);
    widgets.update_size(&theme, area_size, orient, h_align, v_align, preferred_size);
    let expected_zero_weight_width_sum = 40 + 4;
    assert_eq!(expected_zero_weight_width_sum, widgets.zero_weight_width_sum);
    let expected_weight_sum = 6;
    assert_eq!(expected_weight_sum, widgets.weight_sum);
    let expected_weight_width = 40;
    assert_eq!(expected_weight_width, widgets.weight_width);
    let expected_weight_width_rem = 4;
    assert_eq!(expected_weight_width_rem, widgets.weight_width_rem);
    assert_eq!(Size::new(44, 34), widgets.widgets[0].margin_size());
    assert_eq!(Size::new(40, 30), widgets.widgets[0].size());
    assert_eq!(Size::new(44, 44), widgets.widgets[1].margin_size());
    assert_eq!(Size::new(40, 40), widgets.widgets[1].size());
    assert_eq!(Size::new(44, 34), widgets.widgets[2].margin_size());
    assert_eq!(Size::new(40, 30), widgets.widgets[2].size());
    assert_eq!(Size::new(44, 74), widgets.widgets[3].margin_size());
    assert_eq!(Size::new(40, 70), widgets.widgets[3].size());
    let size = widgets.size(area_size, orient, h_align, v_align, preferred_size);
    let area_bounds = Rect::new(20, 10, size.width, area_height);
    widgets.update_pos(&theme, area_bounds, orient, h_align, v_align, preferred_size);
    assert_eq!(Pos::new(20, 10), widgets.widgets[0].margin_pos());
    assert_eq!(Pos::new(20 + 2, 10 + 2), widgets.widgets[0].pos());
    assert_eq!(Pos::new(20, 10 + 41), widgets.widgets[1].margin_pos());
    assert_eq!(Pos::new(20 + 2, 10 + 41 + 2), widgets.widgets[1].pos());
    assert_eq!(Pos::new(20, 10 + 41 + 44), widgets.widgets[2].margin_pos());
    assert_eq!(Pos::new(20 + 2, 10 + 41 + 44 + 2), widgets.widgets[2].pos());
    assert_eq!(Pos::new(20, 10 + 41 + 44 + 123), widgets.widgets[3].margin_pos());
    assert_eq!(Pos::new(20 + 2, 10 + 41 + 44 + 123 + 2), widgets.widgets[3].pos());
}

#[test]
fn test_linear_layout_widgets_update_size_and_position_for_vertical_orientation_and_filled_weighted_widgets_and_area_height_and_fill_alignment_and_second_remainder()
{
    let mut theme = MockTheme::new();
    theme.set_font_size(32.0);
    theme.set_button_margin_edges(Edges::new(2, 2, 2, 2));
    theme.set_button_padding_edges(Edges::new(4, 4, 4, 4));
    theme.set_button_font_size(16.0);
    let mut widgets: LinearLayoutWidgets<Button> = LinearLayoutWidgets::new();
    let mut button1 = Button::new("B1");
    button1.set_v_align(VAlign::Fill);
    button1.set_weight(1);
    button1.set_preferred_size(Size::new(Some(40), Some(30)));
    widgets.add_dyn(button1);
    let mut button2 = Button::new("B2");
    button2.set_preferred_size(Size::new(Some(40), Some(40)));
    widgets.add_dyn(button2);
    let mut button3 = Button::new("B3");
    button3.set_v_align(VAlign::Fill);
    button3.set_weight(3);
    button3.set_preferred_size(Size::new(Some(40), Some(30)));
    widgets.add_dyn(button3);
    let mut button4 = Button::new("B4");
    button4.set_v_align(VAlign::Fill);
    button4.set_weight(2);
    button4.set_preferred_size(Size::new(Some(40), Some(70)));
    widgets.add_dyn(button4);
    let area_height = 40 + 4 + 40 * (1 + 3 + 2) + 4;
    let area_size = Size::new(None, Some(area_height));
    let orient = Orient::Vertical;
    let h_align = HAlign::Left;
    let v_align = VAlign::Fill;
    let preferred_size = Size::new(None, None);
    widgets.update_size(&theme, area_size, orient, h_align, v_align, preferred_size);
    let expected_zero_weight_width_sum = 40 + 4;
    assert_eq!(expected_zero_weight_width_sum, widgets.zero_weight_width_sum);
    let expected_weight_sum = 6;
    assert_eq!(expected_weight_sum, widgets.weight_sum);
    let expected_weight_width = 40;
    assert_eq!(expected_weight_width, widgets.weight_width);
    let expected_weight_width_rem = 4;
    assert_eq!(expected_weight_width_rem, widgets.weight_width_rem);
    assert_eq!(Size::new(44, 41), widgets.widgets[0].margin_size());
    assert_eq!(Size::new(40, 37), widgets.widgets[0].size());
    assert_eq!(Size::new(44, 44), widgets.widgets[1].margin_size());
    assert_eq!(Size::new(40, 40), widgets.widgets[1].size());
    assert_eq!(Size::new(44, 123), widgets.widgets[2].margin_size());
    assert_eq!(Size::new(40, 119), widgets.widgets[2].size());
    assert_eq!(Size::new(44, 80), widgets.widgets[3].margin_size());
    assert_eq!(Size::new(40, 76), widgets.widgets[3].size());
    let size = widgets.size(area_size, orient, h_align, v_align, preferred_size);
    let area_bounds = Rect::new(20, 10, size.width, area_height);
    widgets.update_pos(&theme, area_bounds, orient, h_align, v_align, preferred_size);
    assert_eq!(Pos::new(20, 10), widgets.widgets[0].margin_pos());
    assert_eq!(Pos::new(20 + 2, 10 + 2), widgets.widgets[0].pos());
    assert_eq!(Pos::new(20, 10 + 41), widgets.widgets[1].margin_pos());
    assert_eq!(Pos::new(20 + 2, 10 + 41 + 2), widgets.widgets[1].pos());
    assert_eq!(Pos::new(20, 10 + 41 + 44), widgets.widgets[2].margin_pos());
    assert_eq!(Pos::new(20 + 2, 10 + 41 + 44 + 2), widgets.widgets[2].pos());
    assert_eq!(Pos::new(20, 10 + 41 + 44 + 123), widgets.widgets[3].margin_pos());
    assert_eq!(Pos::new(20 + 2, 10 + 41 + 44 + 123 + 2), widgets.widgets[3].pos());
}

#[test]
fn test_linear_layout_widgets_update_size_and_position_for_vertical_orientation_and_weighted_widgets_and_area_height_and_preferred_height()
{
    let mut theme = MockTheme::new();
    theme.set_font_size(32.0);
    theme.set_button_margin_edges(Edges::new(2, 2, 2, 2));
    theme.set_button_padding_edges(Edges::new(4, 4, 4, 4));
    theme.set_button_font_size(16.0);
    let mut widgets: LinearLayoutWidgets<Button> = LinearLayoutWidgets::new();
    let mut button1 = Button::new("B1");
    button1.set_weight(1);
    button1.set_preferred_size(Size::new(Some(40), Some(30)));
    widgets.add_dyn(button1);
    let mut button2 = Button::new("B2");
    button2.set_preferred_size(Size::new(Some(40), Some(40)));
    widgets.add_dyn(button2);
    let mut button3 = Button::new("B3");
    button3.set_weight(3);
    button3.set_preferred_size(Size::new(Some(40), Some(30)));
    widgets.add_dyn(button3);
    let mut button4 = Button::new("B4");
    button4.set_weight(2);
    button4.set_preferred_size(Size::new(Some(40), Some(70)));
    widgets.add_dyn(button4);
    let area_height = 40 + 4 + 50 * (1 + 3 + 2) + 2;
    let area_size = Size::new(None, Some(area_height));
    let orient = Orient::Vertical;
    let h_align = HAlign::Left;
    let v_align = VAlign::Top;
    let preferred_height = 40 + 4 + 40 * (1 + 3 + 2) + 2;
    let preferred_size = Size::new(None, Some(preferred_height));
    widgets.update_size(&theme, area_size, orient, h_align, v_align, preferred_size);
    let expected_zero_weight_width_sum = 40 + 4;
    assert_eq!(expected_zero_weight_width_sum, widgets.zero_weight_width_sum);
    let expected_weight_sum = 6;
    assert_eq!(expected_weight_sum, widgets.weight_sum);
    let expected_weight_width = 40;
    assert_eq!(expected_weight_width, widgets.weight_width);
    let expected_weight_width_rem = 2;
    assert_eq!(expected_weight_width_rem, widgets.weight_width_rem);
    assert_eq!(Size::new(44, 34), widgets.widgets[0].margin_size());
    assert_eq!(Size::new(40, 30), widgets.widgets[0].size());
    assert_eq!(Size::new(44, 44), widgets.widgets[1].margin_size());
    assert_eq!(Size::new(40, 40), widgets.widgets[1].size());
    assert_eq!(Size::new(44, 34), widgets.widgets[2].margin_size());
    assert_eq!(Size::new(40, 30), widgets.widgets[2].size());
    assert_eq!(Size::new(44, 74), widgets.widgets[3].margin_size());
    assert_eq!(Size::new(40, 70), widgets.widgets[3].size());
    let size = widgets.size(area_size, orient, h_align, v_align, preferred_size);
    let area_bounds = Rect::new(20, 10, size.width, area_height);
    widgets.update_pos(&theme, area_bounds, orient, h_align, v_align, preferred_size);
    assert_eq!(Pos::new(20, 10), widgets.widgets[0].margin_pos());
    assert_eq!(Pos::new(20 + 2, 10 + 2), widgets.widgets[0].pos());
    assert_eq!(Pos::new(20, 10 + 41), widgets.widgets[1].margin_pos());
    assert_eq!(Pos::new(20 + 2, 10 + 41 + 2), widgets.widgets[1].pos());
    assert_eq!(Pos::new(20, 10 + 41 + 44), widgets.widgets[2].margin_pos());
    assert_eq!(Pos::new(20 + 2, 10 + 41 + 44 + 2), widgets.widgets[2].pos());
    assert_eq!(Pos::new(20, 10 + 41 + 44 + 121), widgets.widgets[3].margin_pos());
    assert_eq!(Pos::new(20 + 2, 10 + 41 + 44 + 121 + 2), widgets.widgets[3].pos());
}

#[test]
fn test_linear_layout_widgets_update_size_and_position_for_vertical_orientation_and_filled_weighted_widgets_and_area_height_and_preferred_height()
{
    let mut theme = MockTheme::new();
    theme.set_font_size(32.0);
    theme.set_button_margin_edges(Edges::new(2, 2, 2, 2));
    theme.set_button_padding_edges(Edges::new(4, 4, 4, 4));
    theme.set_button_font_size(16.0);
    let mut widgets: LinearLayoutWidgets<Button> = LinearLayoutWidgets::new();
    let mut button1 = Button::new("B1");
    button1.set_v_align(VAlign::Fill);
    button1.set_weight(1);
    button1.set_preferred_size(Size::new(Some(40), Some(30)));
    widgets.add_dyn(button1);
    let mut button2 = Button::new("B2");
    button2.set_preferred_size(Size::new(Some(40), Some(40)));
    widgets.add_dyn(button2);
    let mut button3 = Button::new("B3");
    button3.set_v_align(VAlign::Fill);
    button3.set_weight(3);
    button3.set_preferred_size(Size::new(Some(40), Some(30)));
    widgets.add_dyn(button3);
    let mut button4 = Button::new("B4");
    button4.set_v_align(VAlign::Fill);
    button4.set_weight(2);
    button4.set_preferred_size(Size::new(Some(40), Some(70)));
    widgets.add_dyn(button4);
    let area_height = 40 + 4 + 50 * (1 + 3 + 2) + 2;
    let area_size = Size::new(None, Some(area_height));
    let orient = Orient::Vertical;
    let h_align = HAlign::Left;
    let v_align = VAlign::Top;
    let preferred_height = 40 + 4 + 40 * (1 + 3 + 2) + 2;
    let preferred_size = Size::new(None, Some(preferred_height));
    widgets.update_size(&theme, area_size, orient, h_align, v_align, preferred_size);
    let expected_zero_weight_width_sum = 40 + 4;
    assert_eq!(expected_zero_weight_width_sum, widgets.zero_weight_width_sum);
    let expected_weight_sum = 6;
    assert_eq!(expected_weight_sum, widgets.weight_sum);
    let expected_weight_width = 40;
    assert_eq!(expected_weight_width, widgets.weight_width);
    let expected_weight_width_rem = 2;
    assert_eq!(expected_weight_width_rem, widgets.weight_width_rem);
    assert_eq!(Size::new(44, 41), widgets.widgets[0].margin_size());
    assert_eq!(Size::new(40, 37), widgets.widgets[0].size());
    assert_eq!(Size::new(44, 44), widgets.widgets[1].margin_size());
    assert_eq!(Size::new(40, 40), widgets.widgets[1].size());
    assert_eq!(Size::new(44, 121), widgets.widgets[2].margin_size());
    assert_eq!(Size::new(40, 117), widgets.widgets[2].size());
    assert_eq!(Size::new(44, 80), widgets.widgets[3].margin_size());
    assert_eq!(Size::new(40, 76), widgets.widgets[3].size());
    let size = widgets.size(area_size, orient, h_align, v_align, preferred_size);
    let area_bounds = Rect::new(20, 10, size.width, area_height);
    widgets.update_pos(&theme, area_bounds, orient, h_align, v_align, preferred_size);
    assert_eq!(Pos::new(20, 10), widgets.widgets[0].margin_pos());
    assert_eq!(Pos::new(20 + 2, 10 + 2), widgets.widgets[0].pos());
    assert_eq!(Pos::new(20, 10 + 41), widgets.widgets[1].margin_pos());
    assert_eq!(Pos::new(20 + 2, 10 + 41 + 2), widgets.widgets[1].pos());
    assert_eq!(Pos::new(20, 10 + 41 + 44), widgets.widgets[2].margin_pos());
    assert_eq!(Pos::new(20 + 2, 10 + 41 + 44 + 2), widgets.widgets[2].pos());
    assert_eq!(Pos::new(20, 10 + 41 + 44 + 121), widgets.widgets[3].margin_pos());
    assert_eq!(Pos::new(20 + 2, 10 + 41 + 44 + 121 + 2), widgets.widgets[3].pos());
}

#[test]
fn test_linear_layout_widgets_update_size_and_position_for_vertical_orientation_and_no_widgets()
{
    let mut theme = MockTheme::new();
    theme.set_font_size(32.0);
    theme.set_button_margin_edges(Edges::new(2, 2, 2, 2));
    theme.set_button_padding_edges(Edges::new(4, 4, 4, 4));
    theme.set_button_font_size(16.0);
    let mut widgets: LinearLayoutWidgets<Button> = LinearLayoutWidgets::new();
    let area_size = Size::new(None, None);
    let orient = Orient::Vertical;
    let h_align = HAlign::Left;
    let v_align = VAlign::Top;
    let preferred_size = Size::new(None, None);
    widgets.update_size(&theme, area_size, orient, h_align, v_align, preferred_size);
    let expected_zero_weight_width_sum = 0;
    assert_eq!(expected_zero_weight_width_sum, widgets.zero_weight_width_sum);
    let expected_weight_sum = 0;
    assert_eq!(expected_weight_sum, widgets.weight_sum);
    let expected_weight_width = 0;
    assert_eq!(expected_weight_width, widgets.weight_width);
    let expected_weight_width_rem = 0;
    assert_eq!(expected_weight_width_rem, widgets.weight_width_rem);
    let size = widgets.size(area_size, orient, h_align, v_align, preferred_size);
    let area_bounds = Rect::new(20, 10, size.width, size.height);
    widgets.update_pos(&theme, area_bounds, orient, h_align, v_align, preferred_size);
}

#[test]
fn test_linear_layout_widgets_update_size_and_position_for_left_horizontal_alignment()
{
    let mut theme = MockTheme::new();
    theme.set_font_size(32.0);
    theme.set_button_margin_edges(Edges::new(2, 2, 2, 2));
    theme.set_button_padding_edges(Edges::new(4, 4, 4, 4));
    theme.set_button_font_size(16.0);
    let mut widgets: LinearLayoutWidgets<Button> = LinearLayoutWidgets::new();
    let mut button1 = Button::new("B1");
    button1.set_preferred_size(Size::new(Some(40), Some(50)));
    widgets.add_dyn(button1);
    let mut button2 = Button::new("B2");
    button2.set_preferred_size(Size::new(Some(50), Some(40)));
    widgets.add_dyn(button2);
    let mut button3 = Button::new("B3");
    button3.set_preferred_size(Size::new(Some(60), Some(30)));
    widgets.add_dyn(button3);
    let area_width = 44 + 54 + 64 + 10;
    let area_height = 54 + 10;
    let area_size = Size::new(Some(area_width), Some(area_height));
    let orient = Orient::Horizontal;
    let h_align = HAlign::Left;
    let v_align = VAlign::Top;
    let preferred_size = Size::new(None, None);
    widgets.update_size(&theme, area_size, orient, h_align, v_align, preferred_size);
    let expected_zero_weight_width_sum = 40 + 4 + 50 + 4 + 60 + 4;
    assert_eq!(expected_zero_weight_width_sum, widgets.zero_weight_width_sum);
    let expected_weight_sum = 0;
    assert_eq!(expected_weight_sum, widgets.weight_sum);
    let expected_weight_width = 0;
    assert_eq!(expected_weight_width, widgets.weight_width);
    let expected_weight_width_rem = 0;
    assert_eq!(expected_weight_width_rem, widgets.weight_width_rem);
    assert_eq!(Size::new(44, 54), widgets.widgets[0].margin_size());
    assert_eq!(Size::new(40, 50), widgets.widgets[0].size());
    assert_eq!(Size::new(54, 44), widgets.widgets[1].margin_size());
    assert_eq!(Size::new(50, 40), widgets.widgets[1].size());
    assert_eq!(Size::new(64, 34), widgets.widgets[2].margin_size());
    assert_eq!(Size::new(60, 30), widgets.widgets[2].size());
    let area_bounds = Rect::new(20, 10, area_width, area_height);
    widgets.update_pos(&theme, area_bounds, orient, h_align, v_align, preferred_size);
    assert_eq!(Pos::new(20, 10), widgets.widgets[0].margin_pos());
    assert_eq!(Pos::new(20 + 2, 10 + 2), widgets.widgets[0].pos());
    assert_eq!(Pos::new(20 + 44, 10), widgets.widgets[1].margin_pos());
    assert_eq!(Pos::new(20 + 44 + 2, 10 + 2), widgets.widgets[1].pos());
    assert_eq!(Pos::new(20 + 44 + 54, 10), widgets.widgets[2].margin_pos());
    assert_eq!(Pos::new(20 + 44 + 54 + 2, 10 + 2), widgets.widgets[2].pos());
}

#[test]
fn test_linear_layout_widgets_update_size_and_position_for_center_horizontal_alignment()
{
    let mut theme = MockTheme::new();
    theme.set_font_size(32.0);
    theme.set_button_margin_edges(Edges::new(2, 2, 2, 2));
    theme.set_button_padding_edges(Edges::new(4, 4, 4, 4));
    theme.set_button_font_size(16.0);
    let mut widgets: LinearLayoutWidgets<Button> = LinearLayoutWidgets::new();
    let mut button1 = Button::new("B1");
    button1.set_preferred_size(Size::new(Some(40), Some(50)));
    widgets.add_dyn(button1);
    let mut button2 = Button::new("B2");
    button2.set_preferred_size(Size::new(Some(50), Some(40)));
    widgets.add_dyn(button2);
    let mut button3 = Button::new("B3");
    button3.set_preferred_size(Size::new(Some(60), Some(30)));
    widgets.add_dyn(button3);
    let area_width = 44 + 54 + 64 + 10;
    let area_height = 54 + 10;
    let area_size = Size::new(Some(area_width), Some(area_height));
    let orient = Orient::Horizontal;
    let h_align = HAlign::Center;
    let v_align = VAlign::Top;
    let preferred_size = Size::new(None, None);
    widgets.update_size(&theme, area_size, orient, h_align, v_align, preferred_size);
    let expected_zero_weight_width_sum = 40 + 4 + 50 + 4 + 60 + 4;
    assert_eq!(expected_zero_weight_width_sum, widgets.zero_weight_width_sum);
    let expected_weight_sum = 0;
    assert_eq!(expected_weight_sum, widgets.weight_sum);
    let expected_weight_width = 0;
    assert_eq!(expected_weight_width, widgets.weight_width);
    let expected_weight_width_rem = 0;
    assert_eq!(expected_weight_width_rem, widgets.weight_width_rem);
    assert_eq!(Size::new(44, 54), widgets.widgets[0].margin_size());
    assert_eq!(Size::new(40, 50), widgets.widgets[0].size());
    assert_eq!(Size::new(54, 44), widgets.widgets[1].margin_size());
    assert_eq!(Size::new(50, 40), widgets.widgets[1].size());
    assert_eq!(Size::new(64, 34), widgets.widgets[2].margin_size());
    assert_eq!(Size::new(60, 30), widgets.widgets[2].size());
    let area_bounds = Rect::new(20, 10, area_width, area_height);
    widgets.update_pos(&theme, area_bounds, orient, h_align, v_align, preferred_size);
    assert_eq!(Pos::new(20 + 5, 10), widgets.widgets[0].margin_pos());
    assert_eq!(Pos::new(20 + 2 + 5, 10 + 2), widgets.widgets[0].pos());
    assert_eq!(Pos::new(20 + 44 + 5, 10), widgets.widgets[1].margin_pos());
    assert_eq!(Pos::new(20 + 44 + 2 + 5, 10 + 2), widgets.widgets[1].pos());
    assert_eq!(Pos::new(20 + 44 + 54 + 5, 10), widgets.widgets[2].margin_pos());
    assert_eq!(Pos::new(20 + 44 + 54 + 2 + 5, 10 + 2), widgets.widgets[2].pos());
}

#[test]
fn test_linear_layout_widgets_update_size_and_position_for_right_horizontal_alignment()
{
    let mut theme = MockTheme::new();
    theme.set_font_size(32.0);
    theme.set_button_margin_edges(Edges::new(2, 2, 2, 2));
    theme.set_button_padding_edges(Edges::new(4, 4, 4, 4));
    theme.set_button_font_size(16.0);
    let mut widgets: LinearLayoutWidgets<Button> = LinearLayoutWidgets::new();
    let mut button1 = Button::new("B1");
    button1.set_preferred_size(Size::new(Some(40), Some(50)));
    widgets.add_dyn(button1);
    let mut button2 = Button::new("B2");
    button2.set_preferred_size(Size::new(Some(50), Some(40)));
    widgets.add_dyn(button2);
    let mut button3 = Button::new("B3");
    button3.set_preferred_size(Size::new(Some(60), Some(30)));
    widgets.add_dyn(button3);
    let area_width = 44 + 54 + 64 + 10;
    let area_height = 54 + 10;
    let area_size = Size::new(Some(area_width), Some(area_height));
    let orient = Orient::Horizontal;
    let h_align = HAlign::Right;
    let v_align = VAlign::Top;
    let preferred_size = Size::new(None, None);
    widgets.update_size(&theme, area_size, orient, h_align, v_align, preferred_size);
    let expected_zero_weight_width_sum = 40 + 4 + 50 + 4 + 60 + 4;
    assert_eq!(expected_zero_weight_width_sum, widgets.zero_weight_width_sum);
    let expected_weight_sum = 0;
    assert_eq!(expected_weight_sum, widgets.weight_sum);
    let expected_weight_width = 0;
    assert_eq!(expected_weight_width, widgets.weight_width);
    let expected_weight_width_rem = 0;
    assert_eq!(expected_weight_width_rem, widgets.weight_width_rem);
    assert_eq!(Size::new(44, 54), widgets.widgets[0].margin_size());
    assert_eq!(Size::new(40, 50), widgets.widgets[0].size());
    assert_eq!(Size::new(54, 44), widgets.widgets[1].margin_size());
    assert_eq!(Size::new(50, 40), widgets.widgets[1].size());
    assert_eq!(Size::new(64, 34), widgets.widgets[2].margin_size());
    assert_eq!(Size::new(60, 30), widgets.widgets[2].size());
    let area_bounds = Rect::new(20, 10, area_width, area_height);
    widgets.update_pos(&theme, area_bounds, orient, h_align, v_align, preferred_size);
    assert_eq!(Pos::new(20 + 10, 10), widgets.widgets[0].margin_pos());
    assert_eq!(Pos::new(20 + 2 + 10, 10 + 2), widgets.widgets[0].pos());
    assert_eq!(Pos::new(20 + 44 + 10, 10), widgets.widgets[1].margin_pos());
    assert_eq!(Pos::new(20 + 44 + 2 + 10, 10 + 2), widgets.widgets[1].pos());
    assert_eq!(Pos::new(20 + 44 + 54 + 10, 10), widgets.widgets[2].margin_pos());
    assert_eq!(Pos::new(20 + 44 + 54 + 2 + 10, 10 + 2), widgets.widgets[2].pos());
}

#[test]
fn test_linear_layout_widgets_update_size_and_position_for_fill_horizontal_alignment()
{
    let mut theme = MockTheme::new();
    theme.set_font_size(32.0);
    theme.set_button_margin_edges(Edges::new(2, 2, 2, 2));
    theme.set_button_padding_edges(Edges::new(4, 4, 4, 4));
    theme.set_button_font_size(16.0);
    let mut widgets: LinearLayoutWidgets<Button> = LinearLayoutWidgets::new();
    let mut button1 = Button::new("B1");
    button1.set_preferred_size(Size::new(Some(40), Some(50)));
    widgets.add_dyn(button1);
    let mut button2 = Button::new("B2");
    button2.set_preferred_size(Size::new(Some(50), Some(40)));
    widgets.add_dyn(button2);
    let mut button3 = Button::new("B3");
    button3.set_preferred_size(Size::new(Some(60), Some(30)));
    widgets.add_dyn(button3);
    let area_width = 44 + 54 + 64 + 10;
    let area_height = 54 + 10;
    let area_size = Size::new(Some(area_width), Some(area_height));
    let orient = Orient::Horizontal;
    let h_align = HAlign::Fill;
    let v_align = VAlign::Top;
    let preferred_size = Size::new(None, None);
    widgets.update_size(&theme, area_size, orient, h_align, v_align, preferred_size);
    let expected_zero_weight_width_sum = 40 + 4 + 50 + 4 + 60 + 4;
    assert_eq!(expected_zero_weight_width_sum, widgets.zero_weight_width_sum);
    let expected_weight_sum = 0;
    assert_eq!(expected_weight_sum, widgets.weight_sum);
    let expected_weight_width = 0;
    assert_eq!(expected_weight_width, widgets.weight_width);
    let expected_weight_width_rem = 0;
    assert_eq!(expected_weight_width_rem, widgets.weight_width_rem);
    assert_eq!(Size::new(44, 54), widgets.widgets[0].margin_size());
    assert_eq!(Size::new(40, 50), widgets.widgets[0].size());
    assert_eq!(Size::new(54, 44), widgets.widgets[1].margin_size());
    assert_eq!(Size::new(50, 40), widgets.widgets[1].size());
    assert_eq!(Size::new(64, 34), widgets.widgets[2].margin_size());
    assert_eq!(Size::new(60, 30), widgets.widgets[2].size());
    let area_bounds = Rect::new(20, 10, area_width, area_height);
    widgets.update_pos(&theme, area_bounds, orient, h_align, v_align, preferred_size);
    assert_eq!(Pos::new(20, 10), widgets.widgets[0].margin_pos());
    assert_eq!(Pos::new(20 + 2, 10 + 2), widgets.widgets[0].pos());
    assert_eq!(Pos::new(20 + 44, 10), widgets.widgets[1].margin_pos());
    assert_eq!(Pos::new(20 + 44 + 2, 10 + 2), widgets.widgets[1].pos());
    assert_eq!(Pos::new(20 + 44 + 54, 10), widgets.widgets[2].margin_pos());
    assert_eq!(Pos::new(20 + 44 + 54 + 2, 10 + 2), widgets.widgets[2].pos());
}

#[test]
fn test_linear_layout_widgets_update_size_and_position_for_top_vertical_alignment()
{
    let mut theme = MockTheme::new();
    theme.set_font_size(32.0);
    theme.set_button_margin_edges(Edges::new(2, 2, 2, 2));
    theme.set_button_padding_edges(Edges::new(4, 4, 4, 4));
    theme.set_button_font_size(16.0);
    let mut widgets: LinearLayoutWidgets<Button> = LinearLayoutWidgets::new();
    let mut button1 = Button::new("B1");
    button1.set_preferred_size(Size::new(Some(40), Some(50)));
    widgets.add_dyn(button1);
    let mut button2 = Button::new("B2");
    button2.set_preferred_size(Size::new(Some(50), Some(40)));
    widgets.add_dyn(button2);
    let mut button3 = Button::new("B3");
    button3.set_preferred_size(Size::new(Some(60), Some(30)));
    widgets.add_dyn(button3);
    let area_width = 44 + 54 + 64 + 10;
    let area_height = 54 + 10;
    let area_size = Size::new(Some(area_width), Some(area_height));
    let orient = Orient::Horizontal;
    let h_align = HAlign::Left;
    let v_align = VAlign::Top;
    let preferred_size = Size::new(None, None);
    widgets.update_size(&theme, area_size, orient, h_align, v_align, preferred_size);
    let expected_zero_weight_width_sum = 40 + 4 + 50 + 4 + 60 + 4;
    assert_eq!(expected_zero_weight_width_sum, widgets.zero_weight_width_sum);
    let expected_weight_sum = 0;
    assert_eq!(expected_weight_sum, widgets.weight_sum);
    let expected_weight_width = 0;
    assert_eq!(expected_weight_width, widgets.weight_width);
    let expected_weight_width_rem = 0;
    assert_eq!(expected_weight_width_rem, widgets.weight_width_rem);
    assert_eq!(Size::new(44, 54), widgets.widgets[0].margin_size());
    assert_eq!(Size::new(40, 50), widgets.widgets[0].size());
    assert_eq!(Size::new(54, 44), widgets.widgets[1].margin_size());
    assert_eq!(Size::new(50, 40), widgets.widgets[1].size());
    assert_eq!(Size::new(64, 34), widgets.widgets[2].margin_size());
    assert_eq!(Size::new(60, 30), widgets.widgets[2].size());
    let area_bounds = Rect::new(20, 10, area_width, area_height);
    widgets.update_pos(&theme, area_bounds, orient, h_align, v_align, preferred_size);
    assert_eq!(Pos::new(20, 10), widgets.widgets[0].margin_pos());
    assert_eq!(Pos::new(20 + 2, 10 + 2), widgets.widgets[0].pos());
    assert_eq!(Pos::new(20 + 44, 10), widgets.widgets[1].margin_pos());
    assert_eq!(Pos::new(20 + 44 + 2, 10 + 2), widgets.widgets[1].pos());
    assert_eq!(Pos::new(20 + 44 + 54, 10), widgets.widgets[2].margin_pos());
    assert_eq!(Pos::new(20 + 44 + 54 + 2, 10 + 2), widgets.widgets[2].pos());
}

#[test]
fn test_linear_layout_widgets_update_size_and_position_for_center_vertical_alignment()
{
    let mut theme = MockTheme::new();
    theme.set_font_size(32.0);
    theme.set_button_margin_edges(Edges::new(2, 2, 2, 2));
    theme.set_button_padding_edges(Edges::new(4, 4, 4, 4));
    theme.set_button_font_size(16.0);
    let mut widgets: LinearLayoutWidgets<Button> = LinearLayoutWidgets::new();
    let mut button1 = Button::new("B1");
    button1.set_preferred_size(Size::new(Some(40), Some(50)));
    widgets.add_dyn(button1);
    let mut button2 = Button::new("B2");
    button2.set_preferred_size(Size::new(Some(50), Some(40)));
    widgets.add_dyn(button2);
    let mut button3 = Button::new("B3");
    button3.set_preferred_size(Size::new(Some(60), Some(30)));
    widgets.add_dyn(button3);
    let area_width = 44 + 54 + 64 + 10;
    let area_height = 54 + 10;
    let area_size = Size::new(Some(area_width), Some(area_height));
    let orient = Orient::Horizontal;
    let h_align = HAlign::Left;
    let v_align = VAlign::Center;
    let preferred_size = Size::new(None, None);
    widgets.update_size(&theme, area_size, orient, h_align, v_align, preferred_size);
    let expected_zero_weight_width_sum = 40 + 4 + 50 + 4 + 60 + 4;
    assert_eq!(expected_zero_weight_width_sum, widgets.zero_weight_width_sum);
    let expected_weight_sum = 0;
    assert_eq!(expected_weight_sum, widgets.weight_sum);
    let expected_weight_width = 0;
    assert_eq!(expected_weight_width, widgets.weight_width);
    let expected_weight_width_rem = 0;
    assert_eq!(expected_weight_width_rem, widgets.weight_width_rem);
    assert_eq!(Size::new(44, 54), widgets.widgets[0].margin_size());
    assert_eq!(Size::new(40, 50), widgets.widgets[0].size());
    assert_eq!(Size::new(54, 44), widgets.widgets[1].margin_size());
    assert_eq!(Size::new(50, 40), widgets.widgets[1].size());
    assert_eq!(Size::new(64, 34), widgets.widgets[2].margin_size());
    assert_eq!(Size::new(60, 30), widgets.widgets[2].size());
    let area_bounds = Rect::new(20, 10, area_width, area_height);
    widgets.update_pos(&theme, area_bounds, orient, h_align, v_align, preferred_size);
    assert_eq!(Pos::new(20, 10 + 5), widgets.widgets[0].margin_pos());
    assert_eq!(Pos::new(20 + 2, 10 + 2 + 5), widgets.widgets[0].pos());
    assert_eq!(Pos::new(20 + 44, 10 + 5), widgets.widgets[1].margin_pos());
    assert_eq!(Pos::new(20 + 44 + 2, 10 + 2 + 5), widgets.widgets[1].pos());
    assert_eq!(Pos::new(20 + 44 + 54, 10 + 5), widgets.widgets[2].margin_pos());
    assert_eq!(Pos::new(20 + 44 + 54 + 2, 10 + 2 + 5), widgets.widgets[2].pos());
}

#[test]
fn test_linear_layout_widgets_update_size_and_position_for_bottom_vertical_alignment()
{
    let mut theme = MockTheme::new();
    theme.set_font_size(32.0);
    theme.set_button_margin_edges(Edges::new(2, 2, 2, 2));
    theme.set_button_padding_edges(Edges::new(4, 4, 4, 4));
    theme.set_button_font_size(16.0);
    let mut widgets: LinearLayoutWidgets<Button> = LinearLayoutWidgets::new();
    let mut button1 = Button::new("B1");
    button1.set_preferred_size(Size::new(Some(40), Some(50)));
    widgets.add_dyn(button1);
    let mut button2 = Button::new("B2");
    button2.set_preferred_size(Size::new(Some(50), Some(40)));
    widgets.add_dyn(button2);
    let mut button3 = Button::new("B3");
    button3.set_preferred_size(Size::new(Some(60), Some(30)));
    widgets.add_dyn(button3);
    let area_width = 44 + 54 + 64 + 10;
    let area_height = 54 + 10;
    let area_size = Size::new(Some(area_width), Some(area_height));
    let orient = Orient::Horizontal;
    let h_align = HAlign::Left;
    let v_align = VAlign::Bottom;
    let preferred_size = Size::new(None, None);
    widgets.update_size(&theme, area_size, orient, h_align, v_align, preferred_size);
    let expected_zero_weight_width_sum = 40 + 4 + 50 + 4 + 60 + 4;
    assert_eq!(expected_zero_weight_width_sum, widgets.zero_weight_width_sum);
    let expected_weight_sum = 0;
    assert_eq!(expected_weight_sum, widgets.weight_sum);
    let expected_weight_width = 0;
    assert_eq!(expected_weight_width, widgets.weight_width);
    let expected_weight_width_rem = 0;
    assert_eq!(expected_weight_width_rem, widgets.weight_width_rem);
    assert_eq!(Size::new(44, 54), widgets.widgets[0].margin_size());
    assert_eq!(Size::new(40, 50), widgets.widgets[0].size());
    assert_eq!(Size::new(54, 44), widgets.widgets[1].margin_size());
    assert_eq!(Size::new(50, 40), widgets.widgets[1].size());
    assert_eq!(Size::new(64, 34), widgets.widgets[2].margin_size());
    assert_eq!(Size::new(60, 30), widgets.widgets[2].size());
    let area_bounds = Rect::new(20, 10, area_width, area_height);
    widgets.update_pos(&theme, area_bounds, orient, h_align, v_align, preferred_size);
    assert_eq!(Pos::new(20, 10 + 10), widgets.widgets[0].margin_pos());
    assert_eq!(Pos::new(20 + 2, 10 + 2 + 10), widgets.widgets[0].pos());
    assert_eq!(Pos::new(20 + 44, 10 + 10), widgets.widgets[1].margin_pos());
    assert_eq!(Pos::new(20 + 44 + 2, 10 + 2 + 10), widgets.widgets[1].pos());
    assert_eq!(Pos::new(20 + 44 + 54, 10 + 10), widgets.widgets[2].margin_pos());
    assert_eq!(Pos::new(20 + 44 + 54 + 2, 10 + 2 + 10), widgets.widgets[2].pos());
}

#[test]
fn test_linear_layout_widgets_update_size_and_position_for_fill_vertical_alignment()
{
    let mut theme = MockTheme::new();
    theme.set_font_size(32.0);
    theme.set_button_margin_edges(Edges::new(2, 2, 2, 2));
    theme.set_button_padding_edges(Edges::new(4, 4, 4, 4));
    theme.set_button_font_size(16.0);
    let mut widgets: LinearLayoutWidgets<Button> = LinearLayoutWidgets::new();
    let mut button1 = Button::new("B1");
    button1.set_preferred_size(Size::new(Some(40), Some(50)));
    widgets.add_dyn(button1);
    let mut button2 = Button::new("B2");
    button2.set_preferred_size(Size::new(Some(50), Some(40)));
    widgets.add_dyn(button2);
    let mut button3 = Button::new("B3");
    button3.set_preferred_size(Size::new(Some(60), Some(30)));
    widgets.add_dyn(button3);
    let area_width = 44 + 54 + 64 + 10;
    let area_height = 54 + 10;
    let area_size = Size::new(Some(area_width), Some(area_height));
    let orient = Orient::Horizontal;
    let h_align = HAlign::Left;
    let v_align = VAlign::Fill;
    let preferred_size = Size::new(None, None);
    widgets.update_size(&theme, area_size, orient, h_align, v_align, preferred_size);
    let expected_zero_weight_width_sum = 40 + 4 + 50 + 4 + 60 + 4;
    assert_eq!(expected_zero_weight_width_sum, widgets.zero_weight_width_sum);
    let expected_weight_sum = 0;
    assert_eq!(expected_weight_sum, widgets.weight_sum);
    let expected_weight_width = 0;
    assert_eq!(expected_weight_width, widgets.weight_width);
    let expected_weight_width_rem = 0;
    assert_eq!(expected_weight_width_rem, widgets.weight_width_rem);
    assert_eq!(Size::new(44, 54), widgets.widgets[0].margin_size());
    assert_eq!(Size::new(40, 50), widgets.widgets[0].size());
    assert_eq!(Size::new(54, 44), widgets.widgets[1].margin_size());
    assert_eq!(Size::new(50, 40), widgets.widgets[1].size());
    assert_eq!(Size::new(64, 34), widgets.widgets[2].margin_size());
    assert_eq!(Size::new(60, 30), widgets.widgets[2].size());
    let area_bounds = Rect::new(20, 10, area_width, area_height);
    widgets.update_pos(&theme, area_bounds, orient, h_align, v_align, preferred_size);
    assert_eq!(Pos::new(20, 10), widgets.widgets[0].margin_pos());
    assert_eq!(Pos::new(20 + 2, 10 + 2), widgets.widgets[0].pos());
    assert_eq!(Pos::new(20 + 44, 10), widgets.widgets[1].margin_pos());
    assert_eq!(Pos::new(20 + 44 + 2, 10 + 2), widgets.widgets[1].pos());
    assert_eq!(Pos::new(20 + 44 + 54, 10), widgets.widgets[2].margin_pos());
    assert_eq!(Pos::new(20 + 44 + 54 + 2, 10 + 2), widgets.widgets[2].pos());
}

#[test]
fn test_linear_layout_wigets_give_size_for_horizontal_orientation()
{
    let mut theme = MockTheme::new();
    theme.set_font_size(32.0);
    theme.set_button_margin_edges(Edges::new(2, 2, 2, 2));
    theme.set_button_padding_edges(Edges::new(4, 4, 4, 4));
    theme.set_button_font_size(16.0);
    let mut widgets: LinearLayoutWidgets<Button> = LinearLayoutWidgets::new();
    let mut button1 = Button::new("B1");
    button1.set_preferred_size(Size::new(Some(40), Some(50)));
    widgets.add_dyn(button1);
    let mut button2 = Button::new("B2");
    button2.set_preferred_size(Size::new(Some(50), Some(40)));
    widgets.add_dyn(button2);
    let mut button3 = Button::new("B3");
    button3.set_preferred_size(Size::new(Some(60), Some(30)));
    widgets.add_dyn(button3);
    let area_size = Size::new(None, None);
    let orient = Orient::Horizontal;
    let h_align = HAlign::Left;
    let v_align = VAlign::Top;
    let preferred_size = Size::new(None, None);
    widgets.update_size(&theme, area_size, orient, h_align, v_align, preferred_size);
    let size = widgets.size(area_size, orient, h_align, v_align, preferred_size);
    let expected_width = 40 + 4 + 50 + 4 + 60 + 4;
    let expected_height = 50 + 4;
    assert_eq!(Size::new(expected_width, expected_height), size);
}

#[test]
fn test_linear_layout_wigets_give_size_for_horizontal_orientation_and_weighted_widgets()
{
    let mut theme = MockTheme::new();
    theme.set_font_size(32.0);
    theme.set_button_margin_edges(Edges::new(2, 2, 2, 2));
    theme.set_button_padding_edges(Edges::new(4, 4, 4, 4));
    theme.set_button_font_size(16.0);
    let mut widgets: LinearLayoutWidgets<Button> = LinearLayoutWidgets::new();
    let mut button1 = Button::new("B1");
    button1.set_weight(1);
    button1.set_preferred_size(Size::new(Some(40), Some(30)));
    widgets.add_dyn(button1);
    let mut button2 = Button::new("B2");
    button2.set_preferred_size(Size::new(Some(50), Some(30)));
    widgets.add_dyn(button2);
    let mut button3 = Button::new("B3");
    button3.set_weight(3);
    button3.set_preferred_size(Size::new(Some(40), Some(30)));
    widgets.add_dyn(button3);
    let mut button4 = Button::new("B4");
    button4.set_weight(2);
    button4.set_preferred_size(Size::new(Some(90), Some(30)));
    widgets.add_dyn(button4);
    let area_size = Size::new(None, None);
    let orient = Orient::Horizontal;
    let h_align = HAlign::Left;
    let v_align = VAlign::Top;
    let preferred_size = Size::new(None, None);
    widgets.update_size(&theme, area_size, orient, h_align, v_align, preferred_size);
    let size = widgets.size(area_size, orient, h_align, v_align, preferred_size);
    let expected_width = 50 + 4 + 47 + 141 + 94;
    let expected_height = 30 + 4;
    assert_eq!(Size::new(expected_width, expected_height), size);
}

#[test]
fn test_linear_layout_wigets_give_size_for_horizontal_orientation_and_area_size()
{
    let mut theme = MockTheme::new();
    theme.set_font_size(32.0);
    theme.set_button_margin_edges(Edges::new(2, 2, 2, 2));
    theme.set_button_padding_edges(Edges::new(4, 4, 4, 4));
    theme.set_button_font_size(16.0);
    let mut widgets: LinearLayoutWidgets<Button> = LinearLayoutWidgets::new();
    let mut button1 = Button::new("B1");
    button1.set_preferred_size(Size::new(Some(40), Some(50)));
    widgets.add_dyn(button1);
    let mut button2 = Button::new("B2");
    button2.set_preferred_size(Size::new(Some(50), Some(40)));
    widgets.add_dyn(button2);
    let mut button3 = Button::new("B3");
    button3.set_preferred_size(Size::new(Some(60), Some(30)));
    widgets.add_dyn(button3);
    let area_width = 40 + 4 + 50 + 4 + 60 + 4 + 10;
    let area_height = 50 + 4 + 10;
    let area_size = Size::new(Some(area_width), Some(area_height));
    let orient = Orient::Horizontal;
    let h_align = HAlign::Left;
    let v_align = VAlign::Top;
    let preferred_size = Size::new(None, None);
    widgets.update_size(&theme, area_size, orient, h_align, v_align, preferred_size);
    let size = widgets.size(area_size, orient, h_align, v_align, preferred_size);
    let expected_width = 40 + 4 + 50 + 4 + 60 + 4;
    let expected_height = 50 + 4;
    assert_eq!(Size::new(expected_width, expected_height), size);
}

#[test]
fn test_linear_layout_wigets_give_size_for_horizontal_orientation_and_area_size_and_fill_alignment()
{
    let mut theme = MockTheme::new();
    theme.set_font_size(32.0);
    theme.set_button_margin_edges(Edges::new(2, 2, 2, 2));
    theme.set_button_padding_edges(Edges::new(4, 4, 4, 4));
    theme.set_button_font_size(16.0);
    let mut widgets: LinearLayoutWidgets<Button> = LinearLayoutWidgets::new();
    let mut button1 = Button::new("B1");
    button1.set_preferred_size(Size::new(Some(40), Some(50)));
    widgets.add_dyn(button1);
    let mut button2 = Button::new("B2");
    button2.set_preferred_size(Size::new(Some(50), Some(40)));
    widgets.add_dyn(button2);
    let mut button3 = Button::new("B3");
    button3.set_preferred_size(Size::new(Some(60), Some(30)));
    widgets.add_dyn(button3);
    let area_width = 40 + 4 + 50 + 4 + 60 + 4 + 10;
    let area_height = 50 + 4 + 10;
    let area_size = Size::new(Some(area_width), Some(area_height));
    let orient = Orient::Horizontal;
    let h_align = HAlign::Fill;
    let v_align = VAlign::Fill;
    let preferred_size = Size::new(None, None);
    widgets.update_size(&theme, area_size, orient, h_align, v_align, preferred_size);
    let size = widgets.size(area_size, orient, h_align, v_align, preferred_size);
    let expected_width = 40 + 4 + 50 + 4 + 60 + 4 + 10;
    let expected_height = 50 + 4 + 10;
    assert_eq!(Size::new(expected_width, expected_height), size);
}

#[test]
fn test_linear_layout_wigets_give_size_for_horizontal_orientation_and_area_size_and_preferred_size()
{
    let mut theme = MockTheme::new();
    theme.set_font_size(32.0);
    theme.set_button_margin_edges(Edges::new(2, 2, 2, 2));
    theme.set_button_padding_edges(Edges::new(4, 4, 4, 4));
    theme.set_button_font_size(16.0);
    let mut widgets: LinearLayoutWidgets<Button> = LinearLayoutWidgets::new();
    let mut button1 = Button::new("B1");
    button1.set_preferred_size(Size::new(Some(40), Some(50)));
    widgets.add_dyn(button1);
    let mut button2 = Button::new("B2");
    button2.set_preferred_size(Size::new(Some(50), Some(40)));
    widgets.add_dyn(button2);
    let mut button3 = Button::new("B3");
    button3.set_preferred_size(Size::new(Some(60), Some(30)));
    widgets.add_dyn(button3);
    let area_width = 40 + 4 + 50 + 4 + 60 + 4 + 20;
    let area_height = 50 + 4 + 20;
    let area_size = Size::new(Some(area_width), Some(area_height));
    let orient = Orient::Horizontal;
    let h_align = HAlign::Left;
    let v_align = VAlign::Top;
    let preferred_width = 40 + 4 + 50 + 4 + 60 + 4 + 10;
    let preferred_height = 50 + 4 + 10;
    let preferred_size = Size::new(Some(preferred_width), Some(preferred_height));
    widgets.update_size(&theme, area_size, orient, h_align, v_align, preferred_size);
    let size = widgets.size(area_size, orient, h_align, v_align, preferred_size);
    let expected_width = 40 + 4 + 50 + 4 + 60 + 4 + 10;
    let expected_height = 50 + 4 + 10;
    assert_eq!(Size::new(expected_width, expected_height), size);
}

#[test]
fn test_linear_layout_wigets_give_size_for_horizontal_orientation_and_area_size_and_fill_alignment_and_preferred_size()
{
    let mut theme = MockTheme::new();
    theme.set_font_size(32.0);
    theme.set_button_margin_edges(Edges::new(2, 2, 2, 2));
    theme.set_button_padding_edges(Edges::new(4, 4, 4, 4));
    theme.set_button_font_size(16.0);
    let mut widgets: LinearLayoutWidgets<Button> = LinearLayoutWidgets::new();
    let mut button1 = Button::new("B1");
    button1.set_preferred_size(Size::new(Some(40), Some(50)));
    widgets.add_dyn(button1);
    let mut button2 = Button::new("B2");
    button2.set_preferred_size(Size::new(Some(50), Some(40)));
    widgets.add_dyn(button2);
    let mut button3 = Button::new("B3");
    button3.set_preferred_size(Size::new(Some(60), Some(30)));
    widgets.add_dyn(button3);
    let area_width = 40 + 4 + 50 + 4 + 60 + 4 + 20;
    let area_height = 50 + 4 + 20;
    let area_size = Size::new(Some(area_width), Some(area_height));
    let orient = Orient::Horizontal;
    let h_align = HAlign::Fill;
    let v_align = VAlign::Fill;
    let preferred_width = 40 + 4 + 50 + 4 + 60 + 4 + 10;
    let preferred_height = 50 + 4 + 10;
    let preferred_size = Size::new(Some(preferred_width), Some(preferred_height));
    widgets.update_size(&theme, area_size, orient, h_align, v_align, preferred_size);
    let size = widgets.size(area_size, orient, h_align, v_align, preferred_size);
    let expected_width = 40 + 4 + 50 + 4 + 60 + 4 + 10;
    let expected_height = 50 + 4 + 10;
    assert_eq!(Size::new(expected_width, expected_height), size);
}

#[test]
fn test_linear_layout_widgets_give_size_for_vertical_orientation()
{
    let mut theme = MockTheme::new();
    theme.set_font_size(32.0);
    theme.set_button_margin_edges(Edges::new(2, 2, 2, 2));
    theme.set_button_padding_edges(Edges::new(4, 4, 4, 4));
    theme.set_button_font_size(16.0);
    let mut widgets: LinearLayoutWidgets<Button> = LinearLayoutWidgets::new();
    let mut button1 = Button::new("B1");
    button1.set_preferred_size(Size::new(Some(40), Some(50)));
    widgets.add_dyn(button1);
    let mut button2 = Button::new("B2");
    button2.set_preferred_size(Size::new(Some(50), Some(40)));
    widgets.add_dyn(button2);
    let mut button3 = Button::new("B3");
    button3.set_preferred_size(Size::new(Some(60), Some(30)));
    widgets.add_dyn(button3);
    let area_size = Size::new(None, None);
    let orient = Orient::Vertical;
    let h_align = HAlign::Left;
    let v_align = VAlign::Top;
    let preferred_size = Size::new(None, None);
    widgets.update_size(&theme, area_size, orient, h_align, v_align, preferred_size);
    let size = widgets.size(area_size, orient, h_align, v_align, preferred_size);
    let expected_width = 60 + 4;
    let expected_height = 50 + 4 + 40 + 4 + 30 + 4;
    assert_eq!(Size::new(expected_width, expected_height), size);
}

#[test]
fn test_linear_layout_widgets_give_size_for_vertical_orientation_and_weighted_widgets()
{
    let mut theme = MockTheme::new();
    theme.set_font_size(32.0);
    theme.set_button_margin_edges(Edges::new(2, 2, 2, 2));
    theme.set_button_padding_edges(Edges::new(4, 4, 4, 4));
    theme.set_button_font_size(16.0);
    let mut widgets: LinearLayoutWidgets<Button> = LinearLayoutWidgets::new();
    let mut button1 = Button::new("B1");
    button1.set_weight(1);
    button1.set_preferred_size(Size::new(Some(40), Some(30)));
    widgets.add_dyn(button1);
    let mut button2 = Button::new("B2");
    button2.set_preferred_size(Size::new(Some(40), Some(40)));
    widgets.add_dyn(button2);
    let mut button3 = Button::new("B3");
    button3.set_weight(3);
    button3.set_preferred_size(Size::new(Some(40), Some(30)));
    widgets.add_dyn(button3);
    let mut button4 = Button::new("B4");
    button4.set_weight(2);
    button4.set_preferred_size(Size::new(Some(40), Some(70)));
    widgets.add_dyn(button4);
    let area_size = Size::new(None, None);
    let orient = Orient::Vertical;
    let h_align = HAlign::Left;
    let v_align = VAlign::Top;
    let preferred_size = Size::new(None, None);
    widgets.update_size(&theme, area_size, orient, h_align, v_align, preferred_size);
    let size = widgets.size(area_size, orient, h_align, v_align, preferred_size);
    let expected_width = 40 + 4;
    let expected_height = 40 + 4 + 37 + 111 + 74;
    assert_eq!(Size::new(expected_width, expected_height), size);
}

#[test]
fn test_linear_layout_widgets_give_size_for_vertical_orientation_and_area_size()
{
    let mut theme = MockTheme::new();
    theme.set_font_size(32.0);
    theme.set_button_margin_edges(Edges::new(2, 2, 2, 2));
    theme.set_button_padding_edges(Edges::new(4, 4, 4, 4));
    theme.set_button_font_size(16.0);
    let mut widgets: LinearLayoutWidgets<Button> = LinearLayoutWidgets::new();
    let mut button1 = Button::new("B1");
    button1.set_preferred_size(Size::new(Some(40), Some(50)));
    widgets.add_dyn(button1);
    let mut button2 = Button::new("B2");
    button2.set_preferred_size(Size::new(Some(50), Some(40)));
    widgets.add_dyn(button2);
    let mut button3 = Button::new("B3");
    button3.set_preferred_size(Size::new(Some(60), Some(30)));
    widgets.add_dyn(button3);
    let area_width = 60 + 4 + 10;
    let area_height = 50 + 4 + 40 + 4 + 30 + 4 + 10;
    let area_size = Size::new(Some(area_width), Some(area_height));
    let orient = Orient::Vertical;
    let h_align = HAlign::Left;
    let v_align = VAlign::Top;
    let preferred_size = Size::new(None, None);
    widgets.update_size(&theme, area_size, orient, h_align, v_align, preferred_size);
    let size = widgets.size(area_size, orient, h_align, v_align, preferred_size);
    let expected_width = 60 + 4;
    let expected_height = 50 + 4 + 40 + 4 + 30 + 4;
    assert_eq!(Size::new(expected_width, expected_height), size);
}

#[test]
fn test_linear_layout_widgets_give_size_for_vertical_orientation_and_area_size_and_fill_alignment()
{
    let mut theme = MockTheme::new();
    theme.set_font_size(32.0);
    theme.set_button_margin_edges(Edges::new(2, 2, 2, 2));
    theme.set_button_padding_edges(Edges::new(4, 4, 4, 4));
    theme.set_button_font_size(16.0);
    let mut widgets: LinearLayoutWidgets<Button> = LinearLayoutWidgets::new();
    let mut button1 = Button::new("B1");
    button1.set_preferred_size(Size::new(Some(40), Some(50)));
    widgets.add_dyn(button1);
    let mut button2 = Button::new("B2");
    button2.set_preferred_size(Size::new(Some(50), Some(40)));
    widgets.add_dyn(button2);
    let mut button3 = Button::new("B3");
    button3.set_preferred_size(Size::new(Some(60), Some(30)));
    widgets.add_dyn(button3);
    let area_width = 60 + 4 + 10;
    let area_height = 50 + 4 + 40 + 4 + 30 + 4 + 10;
    let area_size = Size::new(Some(area_width), Some(area_height));
    let orient = Orient::Vertical;
    let h_align = HAlign::Fill;
    let v_align = VAlign::Fill;
    let preferred_size = Size::new(None, None);
    widgets.update_size(&theme, area_size, orient, h_align, v_align, preferred_size);
    let size = widgets.size(area_size, orient, h_align, v_align, preferred_size);
    let expected_width = 60 + 4 + 10;
    let expected_height = 50 + 4 + 40 + 4 + 30 + 4 + 10;
    assert_eq!(Size::new(expected_width, expected_height), size);
}

#[test]
fn test_linear_layout_widgets_give_size_for_vertical_orientation_and_area_size_and_preferred_size()
{
    let mut theme = MockTheme::new();
    theme.set_font_size(32.0);
    theme.set_button_margin_edges(Edges::new(2, 2, 2, 2));
    theme.set_button_padding_edges(Edges::new(4, 4, 4, 4));
    theme.set_button_font_size(16.0);
    let mut widgets: LinearLayoutWidgets<Button> = LinearLayoutWidgets::new();
    let mut button1 = Button::new("B1");
    button1.set_preferred_size(Size::new(Some(40), Some(50)));
    widgets.add_dyn(button1);
    let mut button2 = Button::new("B2");
    button2.set_preferred_size(Size::new(Some(50), Some(40)));
    widgets.add_dyn(button2);
    let mut button3 = Button::new("B3");
    button3.set_preferred_size(Size::new(Some(60), Some(30)));
    widgets.add_dyn(button3);
    let area_width = 60 + 4 + 20;
    let area_height = 50 + 4 + 40 + 4 + 30 + 4 + 20;
    let area_size = Size::new(Some(area_width), Some(area_height));
    let orient = Orient::Vertical;
    let h_align = HAlign::Left;
    let v_align = VAlign::Top;
    let preferred_width = 60 + 4 + 10;
    let preferred_height = 50 + 4 + 40 + 4 + 30 + 4 + 10;
    let preferred_size = Size::new(Some(preferred_width), Some(preferred_height));
    widgets.update_size(&theme, area_size, orient, h_align, v_align, preferred_size);
    let size = widgets.size(area_size, orient, h_align, v_align, preferred_size);
    let expected_width = 60 + 4 + 10;
    let expected_height = 50 + 4 + 40 + 4 + 30 + 4 + 10;
    assert_eq!(Size::new(expected_width, expected_height), size);
}

#[test]
fn test_linear_layout_widgets_give_size_for_vertical_orientation_and_area_size_and_fill_alignment_and_preferred_size()
{
    let mut theme = MockTheme::new();
    theme.set_font_size(32.0);
    theme.set_button_margin_edges(Edges::new(2, 2, 2, 2));
    theme.set_button_padding_edges(Edges::new(4, 4, 4, 4));
    theme.set_button_font_size(16.0);
    let mut widgets: LinearLayoutWidgets<Button> = LinearLayoutWidgets::new();
    let mut button1 = Button::new("B1");
    button1.set_preferred_size(Size::new(Some(40), Some(50)));
    widgets.add_dyn(button1);
    let mut button2 = Button::new("B2");
    button2.set_preferred_size(Size::new(Some(50), Some(40)));
    widgets.add_dyn(button2);
    let mut button3 = Button::new("B3");
    button3.set_preferred_size(Size::new(Some(60), Some(30)));
    widgets.add_dyn(button3);
    let area_width = 60 + 4 + 20;
    let area_height = 50 + 4 + 40 + 4 + 30 + 4 + 20;
    let area_size = Size::new(Some(area_width), Some(area_height));
    let orient = Orient::Vertical;
    let h_align = HAlign::Fill;
    let v_align = VAlign::Fill;
    let preferred_width = 60 + 4 + 10;
    let preferred_height = 50 + 4 + 40 + 4 + 30 + 4 + 10;
    let preferred_size = Size::new(Some(preferred_width), Some(preferred_height));
    widgets.update_size(&theme, area_size, orient, h_align, v_align, preferred_size);
    let size = widgets.size(area_size, orient, h_align, v_align, preferred_size);
    let expected_width = 60 + 4 + 10;
    let expected_height = 50 + 4 + 40 + 4 + 30 + 4 + 10;
    assert_eq!(Size::new(expected_width, expected_height), size);
}
