//! The two components: the translucent backdrop and the dialog box, each
//! described by the element tree it renders, and the dialog's handlers.

use vstd::prelude::*;
use crate::element::{
    Axis, Border, Color, Corners, Handler, Justify, Length, Node, NodeView, Shadow, Sides, Style,
    TextStyle,
};
use crate::lifecycle::{dismiss, escape_key, handle, is_escape_key, Action, Lifecycle};

verus! {

pub open spec fn spec_scrim_style() -> Style {
    Style::plain().size_full().bg(Color { rgb: 0x000000, alpha_percent: 30 })
}

/// The backdrop: fills its window with black at 30% opacity.
#[verifier::when_used_as_spec(spec_scrim_style)]
pub fn scrim_style() -> (r: Style)
    ensures
        r == spec_scrim_style(),
{
    Style::plain().size_full().bg(Color { rgb: 0x000000, alpha_percent: 30 })
}

pub open spec fn spec_outer_style() -> Style {
    Style::plain().flex().size_full().justify(Justify::Center).items_center()
}

/// The full-window container that centers the panel.
#[verifier::when_used_as_spec(spec_outer_style)]
pub fn outer_style() -> (r: Style)
    ensures
        r == spec_outer_style(),
{
    Style::plain().flex().size_full().justify(Justify::Center).items_center()
}

pub open spec fn spec_panel_style() -> Style {
    Style::plain().flex().column().rounded(Corners::Px(10)).shadow(Shadow::Large).clip().w(Length::Full).h(
            Length::Full,
        )
}

/// The dialog panel: rounded, shadowed, clipped to its corners.
#[verifier::when_used_as_spec(spec_panel_style)]
pub fn panel_style() -> (r: Style)
    ensures
        r == spec_panel_style(),
{
    Style::plain().flex().column().rounded(Corners::Px(10)).shadow(Shadow::Large).clip().w(Length::Full).h(
            Length::Full,
        )
}

pub open spec fn spec_titlebar_style() -> Style {
    Style::plain().flex().items_center().h(Length::Px(22)).w(Length::Full).bg(Color::opaque(0xE8E8E8)).border(
            Border { sides: Sides::Bottom, width: 1, color: Color::opaque(0xD0D0D0) },
        ).px(12).gap(8)
}

/// The gray title bar that holds the three glyphs.
#[verifier::when_used_as_spec(spec_titlebar_style)]
pub fn titlebar_style() -> (r: Style)
    ensures
        r == spec_titlebar_style(),
{
    Style::plain().flex().items_center().h(Length::Px(22)).w(Length::Full).bg(Color::opaque(0xE8E8E8)).border(
            Border { sides: Sides::Bottom, width: 1, color: Color::opaque(0xD0D0D0) },
        ).px(12).gap(8)
}

pub open spec fn spec_glyph_style(fill: u32, edge: u32) -> Style {
    Style::plain().w(Length::Px(12)).h(Length::Px(12)).rounded(Corners::Full).bg(Color::opaque(fill)).border(
            Border { sides: Sides::All, width: 1, color: Color::opaque(edge) },
        )
}

/// A circular title-bar glyph filled with `fill` and edged with `edge`.
#[verifier::when_used_as_spec(spec_glyph_style)]
pub fn glyph_style(fill: u32, edge: u32) -> (r: Style)
    ensures
        r == spec_glyph_style(fill, edge),
{
    Style::plain().w(Length::Px(12)).h(Length::Px(12)).rounded(Corners::Full).bg(Color::opaque(fill)).border(
            Border { sides: Sides::All, width: 1, color: Color::opaque(edge) },
        )
}

pub open spec fn spec_content_style() -> Style {
    Style::plain().flex().column().bg(Color::opaque(0xEFEFEF)).grow().px(24).py(20)
}

/// The area below the title bar.
#[verifier::when_used_as_spec(spec_content_style)]
pub fn content_style() -> (r: Style)
    ensures
        r == spec_content_style(),
{
    Style::plain().flex().column().bg(Color::opaque(0xEFEFEF)).grow().px(24).py(20)
}

pub open spec fn spec_message_row_style() -> Style {
    Style::plain().flex().grow().items_center().px(12).py(16)
}

/// The row that holds the message.
#[verifier::when_used_as_spec(spec_message_row_style)]
pub fn message_row_style() -> (r: Style)
    ensures
        r == spec_message_row_style(),
{
    Style::plain().flex().grow().items_center().px(12).py(16)
}

pub open spec fn spec_message_style() -> Style {
    Style::plain().text_style(
            TextStyle {
                size: 13,
                color: Color::opaque(0x000000),
                weight: 400,
                line_height_percent: Some(140),
            },
        )
}

/// The message text: black, 13 pixels, normal weight.
#[verifier::when_used_as_spec(spec_message_style)]
pub fn message_style() -> (r: Style)
    ensures
        r == spec_message_style(),
{
    Style::plain().text_style(
            TextStyle {
                size: 13,
                color: Color::opaque(0x000000),
                weight: 400,
                line_height_percent: Some(140),
            },
        )
}

pub open spec fn spec_button_row_style() -> Style {
    Style::plain().flex().gap(12).justify(Justify::End).w(Length::Full).mt(12)
}

/// The right-aligned row of action buttons.
#[verifier::when_used_as_spec(spec_button_row_style)]
pub fn button_row_style() -> (r: Style)
    ensures
        r == spec_button_row_style(),
{
    Style::plain().flex().gap(12).justify(Justify::End).w(Length::Full).mt(12)
}

pub open spec fn spec_button_style(fill: u32, ink: u32, hover: u32) -> Style {
    Style::plain().flex().items_center().justify(Justify::Center).px(24).h(Length::Px(32)).min_w(90).bg(
            Color::opaque(fill),
        ).text_style(
            TextStyle { size: 13, color: Color::opaque(ink), weight: 400, line_height_percent: None },
        ).rounded(Corners::Px(6)).pointer().shadow(Shadow::Small).hover_bg(Color::opaque(hover))
}

/// An action button filled with `fill`, lettered in `ink`, filled with `hover` under the pointer.
#[verifier::when_used_as_spec(spec_button_style)]
pub fn button_style(fill: u32, ink: u32, hover: u32) -> (r: Style)
    ensures
        r == spec_button_style(fill, ink, hover),
{
    Style::plain().flex().items_center().justify(Justify::Center).px(24).h(Length::Px(32)).min_w(90).bg(
            Color::opaque(fill),
        ).text_style(
            TextStyle { size: 13, color: Color::opaque(ink), weight: 400, line_height_percent: None },
        ).rounded(Corners::Px(6)).pointer().shadow(Shadow::Small).hover_bg(Color::opaque(hover))
}

/// The backdrop's tree: one box that fills its window with the scrim.
pub open spec fn backdrop_tree() -> NodeView {
    NodeView::boxed(scrim_style())
}

/// A decorative title-bar glyph.
pub open spec fn glyph_view(fill: u32, edge: u32) -> NodeView {
    NodeView::boxed(glyph_style(fill, edge))
}

/// The red glyph, which cancels the dialog.
pub open spec fn close_glyph_view() -> NodeView {
    NodeView::boxed(glyph_style(0xFF5F57, 0xE04943).pointer()).on_mouse_up(Handler::OnCancelClicked)
}

/// The title bar: the red, yellow and green glyphs, in that order.
pub open spec fn titlebar_view() -> NodeView {
    NodeView::boxed(titlebar_style()).child(close_glyph_view()).child(
        glyph_view(0xFFBD2E, 0xDEA123),
    ).child(glyph_view(0x28C940, 0x1AAB29))
}

/// The row holding the message text.
pub open spec fn message_view() -> NodeView {
    NodeView::boxed(message_row_style()).child(NodeView::boxed(message_style()).text("Hello world!"@))
}

/// The white Cancel button.
pub open spec fn cancel_button_view() -> NodeView {
    NodeView::boxed(
        button_style(0xFFFFFF, 0x000000, 0xF8F8F8).border(
            Border { sides: Sides::All, width: 1, color: Color::opaque(0xB8B8B8) },
        ),
    ).on_mouse_up(Handler::OnCancelClicked).text("Cancel"@)
}

/// The blue OK button.
pub open spec fn ok_button_view() -> NodeView {
    NodeView::boxed(button_style(0x007AFF, 0xFFFFFF, 0x0068DB)).on_mouse_up(Handler::OnOkClicked).text(
        "Ok"@,
    )
}

/// The row of action buttons: Cancel, then OK.
pub open spec fn buttons_view() -> NodeView {
    NodeView::boxed(button_row_style()).child(cancel_button_view()).child(ok_button_view())
}

/// The content area: the message above the buttons.
pub open spec fn content_view() -> NodeView {
    NodeView::boxed(content_style()).child(message_view()).child(buttons_view())
}

/// The dialog's tree: the centering container, which hands key input to the
/// Escape handler, around the panel of title bar and content.
pub open spec fn dialog_tree() -> NodeView {
    NodeView::boxed(outer_style()).on_key_down(Handler::OnEscape).child(
        NodeView::boxed(panel_style()).child(titlebar_view()).child(content_view()),
    )
}

/// A box that reacts to no input.
pub open spec fn is_inert(t: NodeView) -> bool {
    t.on_mouse_up.is_none() && t.on_key_down.is_none()
}

/// A childless, inert box that fills its window with translucent black.
pub open spec fn is_scrim(t: NodeView) -> bool {
    &&& t.children.len() == 0
    &&& is_inert(t)
    &&& t.text.is_none()
    &&& t.style.width == Length::Full
    &&& t.style.height == Length::Full
    &&& t.style.background == Some(Color { rgb: 0x000000, alpha_percent: 30 })
}

/// The shape of the dialog: a centering container that takes key input, around
/// a rounded, shadowed, clipped panel; in the panel a title bar of three circular
/// glyphs of which only the first reacts (it cancels), then a content area of a
/// message row and a row of two buttons, Cancel then OK.
pub open spec fn is_dialog_layout(t: NodeView) -> bool {
    let panel = t.children[0];
    let titlebar = panel.children[0];
    let content = panel.children[1];
    let message = content.children[0];
    let buttons = content.children[1];
    &&& t.on_key_down == Some(Handler::OnEscape)
    &&& t.children.len() == 1
    &&& panel.style.axis == Axis::Column
    &&& panel.style.corners is Px
    &&& panel.style.shadow == Shadow::Large
    &&& panel.style.clip
    &&& panel.children.len() == 2
    &&& titlebar.children.len() == 3
    &&& forall|i: int| 0 <= i < 3 ==> #[trigger] titlebar.children[i].style.corners == Corners::Full
    &&& titlebar.children[0].on_mouse_up == Some(Handler::OnCancelClicked)
    &&& is_inert(titlebar.children[1])
    &&& is_inert(titlebar.children[2])
    &&& content.children.len() == 2
    &&& message.children.len() == 1
    &&& message.children[0].text.is_some()
    &&& buttons.children.len() == 2
    &&& buttons.children[0].text == Some("Cancel"@)
    &&& buttons.children[0].on_mouse_up == Some(Handler::OnCancelClicked)
    &&& buttons.children[1].text == Some("Ok"@)
    &&& buttons.children[1].on_mouse_up == Some(Handler::OnOkClicked)
}

/// The dialog's tree has the shape of a dialog.
pub proof fn lemma_dialog_tree_layout()
    ensures
        is_dialog_layout(dialog_tree()),
{
    let t = titlebar_view();
    assert(t.children[0] == close_glyph_view());
    assert(t.children[1] == glyph_view(0xFFBD2E, 0xDEA123));
    assert(t.children[2] == glyph_view(0x28C940, 0x1AAB29));
    let c = content_view();
    assert(c.children[0] == message_view());
    assert(c.children[1] == buttons_view());
    assert(message_view().children[0] == NodeView::boxed(message_style()).text("Hello world!"@));
    assert(buttons_view().children[0] == cancel_button_view());
    assert(buttons_view().children[1] == ok_button_view());
    let p = dialog_tree().children[0];
    assert(p == NodeView::boxed(panel_style()).child(titlebar_view()).child(content_view()));
    assert(p.children[0] == t);
    assert(p.children[1] == c);
}

/// The backdrop's tree is a scrim.
pub proof fn lemma_backdrop_tree_scrim()
    ensures
        is_scrim(backdrop_tree()),
{
}

/// Rendering the backdrop is pure: any two trees that its `render` returns
/// are the same tree.
pub proof fn lemma_backdrop_render_pure(a: Node, b: Node)
    requires
        a@ == backdrop_tree(),
        b@ == backdrop_tree(),
    ensures
        a@ == b@,
{
}

/// Rendering the dialog is pure: any two trees that its `render` returns are
/// the same tree.
pub proof fn lemma_dialog_render_pure(a: Node, b: Node)
    requires
        a@ == dialog_tree(),
        b@ == dialog_tree(),
    ensures
        a@ == b@,
{
}

/// The full-screen translucent layer behind the dialog.
#[derive(Clone, Copy, Debug)]
pub struct Backdrop;

/// The OK/Cancel dialog.
#[derive(Clone, Copy, Debug)]
pub struct DialogBox;

impl Backdrop {
    /// The backdrop's tree.
    pub fn render(&self) -> (r: Node)
        ensures
            r@ == backdrop_tree(),
            is_scrim(r@),
    {
        proof {
            lemma_backdrop_tree_scrim();
        }
        Node::boxed(scrim_style())
    }
}

fn glyph(fill: u32, edge: u32) -> (r: Node)
    ensures
        r@ == glyph_view(fill, edge),
{
    Node::boxed(glyph_style(fill, edge))
}

fn titlebar() -> (r: Node)
    ensures
        r@ == titlebar_view(),
{
    let close = Node::boxed(glyph_style(0xFF5F57, 0xE04943).pointer()).on_mouse_up(
        Handler::OnCancelClicked,
    );
    Node::boxed(titlebar_style()).child(close).child(glyph(0xFFBD2E, 0xDEA123)).child(
        glyph(0x28C940, 0x1AAB29),
    )
}

fn message() -> (r: Node)
    ensures
        r@ == message_view(),
{
    Node::boxed(message_row_style()).child(Node::boxed(message_style()).text("Hello world!"))
}

fn buttons() -> (r: Node)
    ensures
        r@ == buttons_view(),
{
    let cancel = Node::boxed(
        button_style(0xFFFFFF, 0x000000, 0xF8F8F8).border(
            Border { sides: Sides::All, width: 1, color: Color::opaque(0xB8B8B8) },
        ),
    ).on_mouse_up(Handler::OnCancelClicked).text("Cancel");
    let ok = Node::boxed(button_style(0x007AFF, 0xFFFFFF, 0x0068DB)).on_mouse_up(
        Handler::OnOkClicked,
    ).text("Ok");
    Node::boxed(button_row_style()).child(cancel).child(ok)
}

impl DialogBox {
    /// The dialog's tree.
    pub fn render(&self) -> (r: Node)
        ensures
            r@ == dialog_tree(),
            is_dialog_layout(r@),
    {
        proof {
            lemma_dialog_tree_layout();
        }
        let content = Node::boxed(content_style()).child(message()).child(buttons());
        let panel = Node::boxed(panel_style()).child(titlebar()).child(content);
        Node::boxed(outer_style()).on_key_down(Handler::OnEscape).child(panel)
    }

    /// The OK button was clicked: the dialog closes.
    pub fn on_ok_clicked(&self, app: &mut Lifecycle) -> (r: Action)
        ensures
            (final(app).state, r) == dismiss(old(app).state),
    {
        app.request_close()
    }

    /// The Cancel button or the close glyph was clicked: the dialog closes.
    pub fn on_cancel_clicked(&self, app: &mut Lifecycle) -> (r: Action)
        ensures
            (final(app).state, r) == dismiss(old(app).state),
    {
        app.request_close()
    }

    /// The key named `key` went down: Escape closes the dialog, any other key
    /// is ignored.
    pub fn on_escape(&self, key: &str, app: &mut Lifecycle) -> (r: Action)
        ensures
            (final(app).state, r) == handle(old(app).state, Handler::OnEscape, key@),
            is_escape_key(key@) ==> (final(app).state, r) == dismiss(old(app).state),
            !is_escape_key(key@) ==> final(app).state == old(app).state && r == Action::Ignore,
    {
        if escape_key(key) {
            app.request_close()
        } else {
            Action::Ignore
        }
    }

    /// Runs the handler `handler` that a box of the tree is bound to; `key`
    /// names the key for `OnEscape` and is not read otherwise.
    pub fn invoke(&self, handler: Handler, key: &str, app: &mut Lifecycle) -> (r: Action)
        ensures
            (final(app).state, r) == handle(old(app).state, handler, key@),
    {
        match handler {
            Handler::OnOkClicked => self.on_ok_clicked(app),
            Handler::OnCancelClicked => self.on_cancel_clicked(app),
            Handler::OnEscape => self.on_escape(key, app),
        }
    }
}

} // verus!
