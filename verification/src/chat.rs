//! Chat components as the fleet stores them, and the styled terminal text
//! that shows them.

use vstd::prelude::*;

verus! {

/// Colour values up to this one are taken for malformed and are not rendered.
pub const COLOR_FLOOR: u32 = 100000;

/// The colour that marks the chat entry of a failed session (the protocol's red).
pub const ERROR_COLOR: u32 = 16733525;

/// One fragment of a chat component: its text, and the 24-bit colour value
/// the server gave it, if it gave one.
#[derive(Debug, Clone, PartialEq, Eq)]
pub struct ChatSpan {
    pub text: String,
    pub color: Option<u32>,
}

/// What a [`ChatSpan`] is, with its text as a sequence of characters.
pub struct ChatSpanView {
    pub text: Seq<char>,
    pub color: Option<u32>,
}

impl View for ChatSpan {
    type V = ChatSpanView;

    open spec fn view(&self) -> ChatSpanView {
        ChatSpanView { text: self.text@, color: self.color }
    }
}

/// A chat component: its fragments, in reading order.
#[derive(Debug, Clone, PartialEq, Eq)]
pub struct Component {
    pub spans: Vec<ChatSpan>,
}

impl View for Component {
    type V = Seq<ChatSpanView>;

    open spec fn view(&self) -> Seq<ChatSpanView> {
        self.spans@.map_values(|s: ChatSpan| s@)
    }
}

/// A terminal colour.
#[derive(Debug, Clone, Copy, PartialEq, Eq)]
pub enum Color {
    Black,
    Red,
    Green,
    Yellow,
    Magenta,
    Cyan,
    DarkGray,
    Rgb(u8, u8, u8),
}

/// How a piece of terminal text is drawn. `None` leaves the terminal's own
/// colour in place.
#[derive(Debug, Clone, Copy, PartialEq, Eq)]
pub struct Style {
    pub fg: Option<Color>,
    pub bg: Option<Color>,
    pub bold: bool,
}

/// A piece of terminal text in one style.
#[derive(Debug, Clone, PartialEq, Eq)]
pub struct Span {
    pub content: String,
    pub style: Style,
}

/// What a [`Span`] is, with its text as a sequence of characters.
pub struct SpanView {
    pub content: Seq<char>,
    pub style: Style,
}

impl View for Span {
    type V = SpanView;

    open spec fn view(&self) -> SpanView {
        SpanView { content: self.content@, style: self.style }
    }
}

/// The spans of a line of terminal text, each by its view.
pub open spec fn line_view(line: Seq<Span>) -> Seq<SpanView> {
    line.map_values(|s: Span| s@)
}

/// The lines of a block of terminal text, each by its view.
pub open spec fn text_view(lines: Seq<Vec<Span>>) -> Seq<Seq<SpanView>> {
    lines.map_values(|l: Vec<Span>| line_view(l@))
}

/// The style that changes nothing.
pub open spec fn plain() -> Style {
    Style { fg: None, bg: None, bold: false }
}

/// The plain style with a foreground colour.
pub open spec fn fg(color: Color) -> Style {
    Style { fg: Some(color), bg: None, bold: false }
}

/// The plain style with a background colour.
pub open spec fn bg(color: Color) -> Style {
    Style { fg: None, bg: Some(color), bold: false }
}

/// The red, green and blue bytes of a colour value: bits 16 to 23, 8 to 15
/// and 0 to 7. Higher bits are dropped.
pub open spec fn rgb_of(value: u32) -> Color {
    Color::Rgb(
        ((value / 65536) % 256) as u8,
        ((value / 256) % 256) as u8,
        (value % 256) as u8,
    )
}

/// The style of a fragment with the given colour: the colour's bytes as the
/// foreground if the value is above [`COLOR_FLOOR`], the plain style if it
/// is not or if there is no colour.
pub open spec fn style_of(color: Option<u32>) -> Style {
    match color {
        Some(value) => if value > COLOR_FLOOR {
            fg(rgb_of(value))
        } else {
            plain()
        },
        None => plain(),
    }
}

/// The terminal span of one fragment.
pub open spec fn render_span(span: ChatSpanView) -> SpanView {
    SpanView { content: span.text, style: style_of(span.color) }
}

/// The terminal line of a component: one span for each fragment, in order.
pub open spec fn render(component: Seq<ChatSpanView>) -> Seq<SpanView> {
    component.map_values(|s: ChatSpanView| render_span(s))
}

/// The chat entry that reports a failed session: the message, in
/// [`ERROR_COLOR`].
pub open spec fn error_entry(message: Seq<char>) -> Seq<ChatSpanView> {
    seq![ChatSpanView { text: message, color: Some(ERROR_COLOR) }]
}

/// Splits a colour value into its bytes.
pub fn color_from_value(value: u32) -> (color: Color)
    ensures
        color == rgb_of(value),
{
    assert((value >> 16) & 0xFF == (value / 65536) % 256) by (bit_vector);
    assert((value >> 8) & 0xFF == (value / 256) % 256) by (bit_vector);
    assert(value & 0xFF == value % 256) by (bit_vector);
    Color::Rgb(
        ((value >> 16) & 0xFF) as u8,
        ((value >> 8) & 0xFF) as u8,
        (value & 0xFF) as u8,
    )
}

/// The style in which a fragment of the given colour is drawn.
pub fn span_style(color: Option<u32>) -> (style: Style)
    ensures
        style == style_of(color),
        color is None ==> style == plain(),
        color matches Some(value) ==> style == if value <= COLOR_FLOOR {
            plain()
        } else {
            fg(rgb_of(value))
        },
{
    match color {
        Some(value) => {
            if value > COLOR_FLOOR {
                Style { fg: Some(color_from_value(value)), bg: None, bold: false }
            } else {
                Style { fg: None, bg: None, bold: false }
            }
        },
        None => Style { fg: None, bg: None, bold: false },
    }
}

/// The line of terminal text that shows a chat component: each fragment
/// keeps its text and gets the style of its colour.
pub fn convert_component_to_span(component: &Component) -> (line: Vec<Span>)
    ensures
        line_view(line@) == render(component@),
{
    let mut line: Vec<Span> = Vec::new();
    let mut i: usize = 0;
    while i < component.spans.len()
        invariant
            i <= component.spans@.len(),
            line@.len() == i,
            forall|k: int| 0 <= k < i ==> (#[trigger] line@[k])@ == render_span(component.spans@[k]@),
        decreases component.spans@.len() - i,
    {
        let span = &component.spans[i];
        line.push(Span { content: span.text.clone(), style: span_style(span.color) });
        i += 1;
    }
    line
}

/// The component that reports a failed session in a bot's chat.
pub fn error_component(message: &str) -> (component: Component)
    ensures
        component@ == error_entry(message@),
{
    let mut spans: Vec<ChatSpan> = Vec::new();
    spans.push(ChatSpan { text: message.to_owned(), color: Some(ERROR_COLOR) });
    let component = Component { spans };
    component
}

} // verus!
