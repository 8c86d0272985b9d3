//! A declarative element tree: nested rectangular boxes with layout and style
//! records, optional text, and the dialog handlers that pointer and key input
//! on a box invoke.

use vstd::prelude::*;

verus! {

/// The dialog handler that an input on a box invokes.
#[derive(Clone, Copy, Debug, PartialEq, Eq, Structural)]
pub enum Handler {
    /// Bound to a primary-button release on the OK button.
    OnOkClicked,
    /// Bound to a primary-button release on the Cancel button or the close glyph.
    OnCancelClicked,
    /// Bound to a key going down within the dialog's focus scope.
    OnEscape,
}

/// Main axis of a flex container.
#[derive(Clone, Copy, Debug, PartialEq, Eq, Structural)]
pub enum Axis {
    Row,
    Column,
}

/// Placement of children along the main axis.
#[derive(Clone, Copy, Debug, PartialEq, Eq, Structural)]
pub enum Justify {
    Start,
    Center,
    End,
}

/// A width or a height.
#[derive(Clone, Copy, Debug, PartialEq, Eq, Structural)]
pub enum Length {
    Auto,
    Full,
    Px(u32),
}

/// Rounding of a box's corners.
#[derive(Clone, Copy, Debug, PartialEq, Eq, Structural)]
pub enum Corners {
    Square,
    Px(u32),
    Full,
}

/// Drop shadow under a box.
#[derive(Clone, Copy, Debug, PartialEq, Eq, Structural)]
pub enum Shadow {
    Flat,
    Small,
    Large,
}

/// Which sides of a box carry its border.
#[derive(Clone, Copy, Debug, PartialEq, Eq, Structural)]
pub enum Sides {
    All,
    Bottom,
}

/// A color as `0xRRGGBB` with an opacity in percent.
#[derive(Clone, Copy, Debug, PartialEq, Eq, Structural)]
pub struct Color {
    pub rgb: u32,
    pub alpha_percent: u8,
}

impl Color {
    pub open spec fn spec_opaque(rgb: u32) -> Color {
        Color { rgb, alpha_percent: 100 }
    }

    /// The fully opaque color `0xRRGGBB`.
    #[verifier::when_used_as_spec(spec_opaque)]
    pub fn opaque(rgb: u32) -> (r: Color)
        ensures
            r == Color::spec_opaque(rgb),
    {
        Color { rgb, alpha_percent: 100 }
    }
}

/// A border of the given width in pixels.
#[derive(Clone, Copy, Debug, PartialEq, Eq, Structural)]
pub struct Border {
    pub sides: Sides,
    pub width: u32,
    pub color: Color,
}

/// How the text inside a box is drawn.
#[derive(Clone, Copy, Debug, PartialEq, Eq, Structural)]
pub struct TextStyle {
    pub size: u32,
    pub color: Color,
    pub weight: u16,
    /// Line height relative to the font size, in percent; `None` keeps the default.
    pub line_height_percent: Option<u32>,
}

/// Layout and paint of one box. Spacing is in pixels.
#[derive(Clone, Copy, Debug, PartialEq, Eq, Structural)]
pub struct Style {
    pub flex: bool,
    pub axis: Axis,
    pub justify: Justify,
    pub center_items: bool,
    pub grow: bool,
    pub width: Length,
    pub height: Length,
    pub min_width: u32,
    pub padding_x: u32,
    pub padding_y: u32,
    pub margin_top: u32,
    pub gap: u32,
    pub corners: Corners,
    pub shadow: Shadow,
    pub clip: bool,
    pub background: Option<Color>,
    pub hover_background: Option<Color>,
    pub border: Option<Border>,
    pub pointer_cursor: bool,
    pub text: Option<TextStyle>,
}

impl Style {
    /// A box with no layout, paint or spacing of its own.
    pub open spec fn spec_plain() -> Style {
        Style {
            flex: false,
            axis: Axis::Row,
            justify: Justify::Start,
            center_items: false,
            grow: false,
            width: Length::Auto,
            height: Length::Auto,
            min_width: 0,
            padding_x: 0,
            padding_y: 0,
            margin_top: 0,
            gap: 0,
            corners: Corners::Square,
            shadow: Shadow::Flat,
            clip: false,
            background: None,
            hover_background: None,
            border: None,
            pointer_cursor: false,
            text: None,
        }
    }

    /// A box with no layout, paint or spacing of its own.
    #[verifier::when_used_as_spec(spec_plain)]
    pub fn plain() -> (r: Style)
        ensures
            r == Style::spec_plain(),
    {
        Style {
            flex: false,
            axis: Axis::Row,
            justify: Justify::Start,
            center_items: false,
            grow: false,
            width: Length::Auto,
            height: Length::Auto,
            min_width: 0,
            padding_x: 0,
            padding_y: 0,
            margin_top: 0,
            gap: 0,
            corners: Corners::Square,
            shadow: Shadow::Flat,
            clip: false,
            background: None,
            hover_background: None,
            border: None,
            pointer_cursor: false,
            text: None,
        }
    }

    pub open spec fn spec_flex(self) -> Style {
        Style { flex: true, ..self }
    }

    /// Lays children out in a row or column.
    #[verifier::when_used_as_spec(spec_flex)]
    pub fn flex(self) -> (r: Style)
        ensures
            r == self.spec_flex(),
    {
        Style { flex: true, ..self }
    }

    pub open spec fn spec_column(self) -> Style {
        Style { axis: Axis::Column, ..self }
    }

    /// Stacks children vertically.
    #[verifier::when_used_as_spec(spec_column)]
    pub fn column(self) -> (r: Style)
        ensures
            r == self.spec_column(),
    {
        Style { axis: Axis::Column, ..self }
    }

    pub open spec fn spec_justify(self, j: Justify) -> Style {
        Style { justify: j, ..self }
    }

    /// Places children along the main axis.
    #[verifier::when_used_as_spec(spec_justify)]
    pub fn justify(self, j: Justify) -> (r: Style)
        ensures
            r == self.spec_justify(j),
    {
        Style { justify: j, ..self }
    }

    pub open spec fn spec_items_center(self) -> Style {
        Style { center_items: true, ..self }
    }

    /// Centers children across the main axis.
    #[verifier::when_used_as_spec(spec_items_center)]
    pub fn items_center(self) -> (r: Style)
        ensures
            r == self.spec_items_center(),
    {
        Style { center_items: true, ..self }
    }

    pub open spec fn spec_grow(self) -> Style {
        Style { grow: true, ..self }
    }

    /// Lets the box take the space left by its siblings.
    #[verifier::when_used_as_spec(spec_grow)]
    pub fn grow(self) -> (r: Style)
        ensures
            r == self.spec_grow(),
    {
        Style { grow: true, ..self }
    }

    pub open spec fn spec_w(self, l: Length) -> Style {
        Style { width: l, ..self }
    }

    /// Sets the width.
    #[verifier::when_used_as_spec(spec_w)]
    pub fn w(self, l: Length) -> (r: Style)
        ensures
            r == self.spec_w(l),
    {
        Style { width: l, ..self }
    }

    pub open spec fn spec_h(self, l: Length) -> Style {
        Style { height: l, ..self }
    }

    /// Sets the height.
    #[verifier::when_used_as_spec(spec_h)]
    pub fn h(self, l: Length) -> (r: Style)
        ensures
            r == self.spec_h(l),
    {
        Style { height: l, ..self }
    }

    pub open spec fn spec_min_w(self, px: u32) -> Style {
        Style { min_width: px, ..self }
    }

    /// Sets the minimum width.
    #[verifier::when_used_as_spec(spec_min_w)]
    pub fn min_w(self, px: u32) -> (r: Style)
        ensures
            r == self.spec_min_w(px),
    {
        Style { min_width: px, ..self }
    }

    pub open spec fn spec_px(self, px: u32) -> Style {
        Style { padding_x: px, ..self }
    }

    /// Sets the padding to the left and to the right.
    #[verifier::when_used_as_spec(spec_px)]
    pub fn px(self, px: u32) -> (r: Style)
        ensures
            r == self.spec_px(px),
    {
        Style { padding_x: px, ..self }
    }

    pub open spec fn spec_py(self, px: u32) -> Style {
        Style { padding_y: px, ..self }
    }

    /// Sets the padding above and below.
    #[verifier::when_used_as_spec(spec_py)]
    pub fn py(self, px: u32) -> (r: Style)
        ensures
            r == self.spec_py(px),
    {
        Style { padding_y: px, ..self }
    }

    pub open spec fn spec_mt(self, px: u32) -> Style {
        Style { margin_top: px, ..self }
    }

    /// Sets the margin above.
    #[verifier::when_used_as_spec(spec_mt)]
    pub fn mt(self, px: u32) -> (r: Style)
        ensures
            r == self.spec_mt(px),
    {
        Style { margin_top: px, ..self }
    }

    pub open spec fn spec_gap(self, px: u32) -> Style {
        Style { gap: px, ..self }
    }

    /// Sets the space between children.
    #[verifier::when_used_as_spec(spec_gap)]
    pub fn gap(self, px: u32) -> (r: Style)
        ensures
            r == self.spec_gap(px),
    {
        Style { gap: px, ..self }
    }

    pub open spec fn spec_rounded(self, c: Corners) -> Style {
        Style { corners: c, ..self }
    }

    /// Rounds the corners.
    #[verifier::when_used_as_spec(spec_rounded)]
    pub fn rounded(self, c: Corners) -> (r: Style)
        ensures
            r == self.spec_rounded(c),
    {
        Style { corners: c, ..self }
    }

    pub open spec fn spec_shadow(self, s: Shadow) -> Style {
        Style { shadow: s, ..self }
    }

    /// Casts a drop shadow.
    #[verifier::when_used_as_spec(spec_shadow)]
    pub fn shadow(self, s: Shadow) -> (r: Style)
        ensures
            r == self.spec_shadow(s),
    {
        Style { shadow: s, ..self }
    }

    pub open spec fn spec_clip(self) -> Style {
        Style { clip: true, ..self }
    }

    /// Clips children to the box and its rounded corners.
    #[verifier::when_used_as_spec(spec_clip)]
    pub fn clip(self) -> (r: Style)
        ensures
            r == self.spec_clip(),
    {
        Style { clip: true, ..self }
    }

    pub open spec fn spec_bg(self, c: Color) -> Style {
        Style { background: Some(c), ..self }
    }

    /// Fills the box.
    #[verifier::when_used_as_spec(spec_bg)]
    pub fn bg(self, c: Color) -> (r: Style)
        ensures
            r == self.spec_bg(c),
    {
        Style { background: Some(c), ..self }
    }

    pub open spec fn spec_hover_bg(self, c: Color) -> Style {
        Style { hover_background: Some(c), ..self }
    }

    /// Fills the box while the pointer is over it.
    #[verifier::when_used_as_spec(spec_hover_bg)]
    pub fn hover_bg(self, c: Color) -> (r: Style)
        ensures
            r == self.spec_hover_bg(c),
    {
        Style { hover_background: Some(c), ..self }
    }

    pub open spec fn spec_border(self, b: Border) -> Style {
        Style { border: Some(b), ..self }
    }

    /// Draws a border.
    #[verifier::when_used_as_spec(spec_border)]
    pub fn border(self, b: Border) -> (r: Style)
        ensures
            r == self.spec_border(b),
    {
        Style { border: Some(b), ..self }
    }

    pub open spec fn spec_pointer(self) -> Style {
        Style { pointer_cursor: true, ..self }
    }

    /// Shows a pointing hand while the pointer is over the box.
    #[verifier::when_used_as_spec(spec_pointer)]
    pub fn pointer(self) -> (r: Style)
        ensures
            r == self.spec_pointer(),
    {
        Style { pointer_cursor: true, ..self }
    }

    pub open spec fn spec_text_style(self, t: TextStyle) -> Style {
        Style { text: Some(t), ..self }
    }

    /// Sets how text is drawn.
    #[verifier::when_used_as_spec(spec_text_style)]
    pub fn text_style(self, t: TextStyle) -> (r: Style)
        ensures
            r == self.spec_text_style(t),
    {
        Style { text: Some(t), ..self }
    }

    pub open spec fn spec_size_full(self) -> Style {
        Style { width: Length::Full, height: Length::Full, ..self }
    }

    /// Fills the parent in both directions.
    #[verifier::when_used_as_spec(spec_size_full)]
    pub fn size_full(self) -> (r: Style)
        ensures
            r == self.spec_size_full(),
    {
        Style { width: Length::Full, height: Length::Full, ..self }
    }
}

/// A box of the tree.
#[derive(Debug, PartialEq, Eq)]
pub struct Node {
    pub style: Style,
    /// Handler invoked by a primary-button release inside the box.
    pub on_mouse_up: Option<Handler>,
    /// Handler invoked when a key goes down within the box.
    pub on_key_down: Option<Handler>,
    pub text: Option<String>,
    pub children: Vec<Node>,
}

/// The mathematical value of a [`Node`].
pub ghost struct NodeView {
    pub style: Style,
    pub on_mouse_up: Option<Handler>,
    pub on_key_down: Option<Handler>,
    pub text: Option<Seq<char>>,
    pub children: Seq<NodeView>,
}

/// The characters of an optional text.
pub open spec fn text_view(t: Option<String>) -> Option<Seq<char>> {
    match t {
        Some(s) => Some(s@),
        None => None,
    }
}

/// The views of a sequence of boxes, in order.
pub open spec fn views_of(s: Seq<Node>) -> Seq<NodeView>
    decreases s,
{
    if s.len() == 0 {
        Seq::empty()
    } else {
        views_of(s.subrange(0, s.len() - 1)).push(s[s.len() - 1].view())
    }
}

impl View for Node {
    type V = NodeView;

    open spec fn view(&self) -> NodeView
        decreases self,
    {
        NodeView {
            style: self.style,
            on_mouse_up: self.on_mouse_up,
            on_key_down: self.on_key_down,
            text: text_view(self.text),
            children: views_of(self.children@),
        }
    }
}

/// The children of a box's view are the views of its children.
pub proof fn lemma_children_view(n: &Node)
    ensures
        n@.children.len() == n.children@.len(),
        forall|i: int| 0 <= i < n.children@.len() ==> #[trigger] n@.children[i] == n.children@[i]@,
{
    lemma_views_of(n.children@);
}

/// `views_of` maps each box to its view, index by index.
pub proof fn lemma_views_of(s: Seq<Node>)
    ensures
        views_of(s).len() == s.len(),
        forall|i: int| 0 <= i < s.len() ==> #[trigger] views_of(s)[i] == s[i]@,
    decreases s.len(),
{
    if s.len() > 0 {
        let front = s.subrange(0, s.len() - 1);
        lemma_views_of(front);
        assert(views_of(s) == views_of(front).push(s[s.len() - 1]@));
        assert forall|i: int| 0 <= i < s.len() implies #[trigger] views_of(s)[i] == s[i]@ by {
            if i < s.len() - 1 {
                assert(front[i] == s[i]);
            }
        }
    }
}

impl NodeView {
    /// A childless box without text or events.
    pub open spec fn boxed(style: Style) -> NodeView {
        NodeView { style, on_mouse_up: None, on_key_down: None, text: None, children: Seq::empty() }
    }

    /// The same box with `c` added as its last child.
    pub open spec fn child(self, c: NodeView) -> NodeView {
        NodeView { children: self.children.push(c), ..self }
    }

    /// The same box showing the text `t`.
    pub open spec fn text(self, t: Seq<char>) -> NodeView {
        NodeView { text: Some(t), ..self }
    }

    /// The same box invoking `e` on a primary-button release.
    pub open spec fn on_mouse_up(self, e: Handler) -> NodeView {
        NodeView { on_mouse_up: Some(e), ..self }
    }

    /// The same box invoking `e` when a key goes down.
    pub open spec fn on_key_down(self, e: Handler) -> NodeView {
        NodeView { on_key_down: Some(e), ..self }
    }
}

impl Node {
    /// A childless box without text or events.
    pub fn boxed(style: Style) -> (r: Node)
        ensures
            r@ == NodeView::boxed(style),
    {
        let r = Node { style, on_mouse_up: None, on_key_down: None, text: None, children: Vec::new() };
        assert(r@.children =~= Seq::<NodeView>::empty());
        r
    }

    /// Adds `c` as the last child.
    pub fn child(self, c: Node) -> (r: Node)
        ensures
            r@ == self@.child(c@),
    {
        proof {
            lemma_children_view(&self);
        }
        let ghost before = self@;
        let mut r = self;
        r.children.push(c);
        proof {
            lemma_children_view(&r);
        }
        assert(r@.children =~= before.children.push(c@));
        r
    }

    /// Shows the text `t` in the box.
    pub fn text(self, t: &str) -> (r: Node)
        ensures
            r@ == self@.text(t@),
    {
        let ghost before = self@;
        let mut r = self;
        r.text = Some(t.to_owned());
        assert(r@.children =~= before.children);
        r
    }

    /// Invokes `e` on a primary-button release inside the box.
    pub fn on_mouse_up(self, e: Handler) -> (r: Node)
        ensures
            r@ == self@.on_mouse_up(e),
    {
        let ghost before = self@;
        let mut r = self;
        r.on_mouse_up = Some(e);
        assert(r@.children =~= before.children);
        r
    }

    /// Invokes `e` when a key goes down within the box.
    pub fn on_key_down(self, e: Handler) -> (r: Node)
        ensures
            r@ == self@.on_key_down(e),
    {
        let ghost before = self@;
        let mut r = self;
        r.on_key_down = Some(e);
        assert(r@.children =~= before.children);
        r
    }
}

} // verus!
