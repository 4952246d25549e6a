//! What the interface shows, as plain data: the header, the gauge, the list
//! of bots, the chat of the selected bot and the footer, and the areas of
//! the terminal that they are drawn in. Drawing itself is left to the
//! caller.

use vstd::prelude::*;
use crate::chat::{
    bg, convert_component_to_span, fg, line_view, plain, render, text_view, Color, Component,
    Span, SpanView, Style,
};
use crate::config::{Config, ConfigView};
use crate::fleet::{App, AppView, Bot, BotState, BotStateView, BotView};
use crate::text::{decimal, to_decimal};

verus! {

/// A one-line bar: its text, and the style of the whole line.
#[derive(Debug, Clone, PartialEq, Eq)]
pub struct Bar {
    pub line: Vec<Span>,
    pub style: Style,
}

/// The gauge of the bots that have joined.
#[derive(Debug, Clone, PartialEq, Eq)]
pub struct Gauge {
    /// How many of a hundred bots have joined, rounded down.
    pub percent: u16,
    pub label: String,
    pub style: Style,
}

/// The list of the bots.
#[derive(Debug, Clone, PartialEq, Eq)]
pub struct BotList {
    pub title: Vec<Span>,
    /// One entry for each bot, in the order of the fleet.
    pub items: Vec<Span>,
    pub selected: Option<usize>,
    /// The style that marks the selected entry.
    pub highlight: Style,
}

/// Everything that one frame shows.
#[derive(Debug, Clone, PartialEq, Eq)]
pub struct Screen {
    pub header: Bar,
    pub gauge: Gauge,
    pub bots: BotList,
    /// The chat of the selected bot, one line for each entry.
    pub chat: Vec<Vec<Span>>,
    pub footer: Bar,
}

/// How many bots are in each of the states that the interface counts.
pub struct Tally {
    pub joined: nat,
    pub left: nat,
    pub error: nat,
}

/// The style of the header and the footer: bold on cyan.
pub open spec fn bar_style() -> Style {
    Style { fg: None, bg: Some(Color::Cyan), bold: true }
}

/// The style of the selected entry of the list: bold.
pub open spec fn highlight_style() -> Style {
    Style { fg: None, bg: None, bold: true }
}

/// A span in the plain style.
pub open spec fn raw(content: Seq<char>) -> SpanView {
    SpanView { content, style: plain() }
}

/// The header: the program's name, the server's address and the number of
/// worker threads.
pub open spec fn header_line(config: ConfigView) -> Seq<SpanView> {
    seq![
        raw("Minecraft bots"@),
        raw(" | "@),
        raw(config.host + ":"@ + decimal(config.port as nat)),
        raw(" | "@),
        raw(decimal(config.threads as nat) + " threads"@),
    ]
}

/// The footer: the key that ends the program, and what it does.
pub open spec fn footer_line() -> Seq<SpanView> {
    seq![
        SpanView { content: "Q"@, style: bg(Color::Black) },
        SpanView { content: "Exit"@, style: bg(Color::Cyan) },
    ]
}

/// The colour of a bot in the list: yellow while it connects, green once
/// it has joined, dark gray when it has left, red when it has failed.
pub open spec fn state_color(state: BotStateView) -> Color {
    match state {
        BotStateView::Connecting => Color::Yellow,
        BotStateView::Joined => Color::Green,
        BotStateView::Left => Color::DarkGray,
        BotStateView::Error(_) => Color::Red,
    }
}

/// The entry of a bot in the list: its name, in the colour of its state.
pub open spec fn item_of(bot: BotView) -> SpanView {
    SpanView { content: bot.username, style: fg(state_color(bot.state)) }
}

/// The entries of the list: one for each bot, in the order of the fleet.
pub open spec fn item_line(bots: Seq<BotView>) -> Seq<SpanView> {
    bots.map_values(|b: BotView| item_of(b))
}

/// The bots that have joined, that have left and that have failed, counted.
pub open spec fn tally_of(bots: Seq<BotView>) -> Tally
    decreases bots.len(),
{
    if bots.len() == 0 {
        Tally { joined: 0, left: 0, error: 0 }
    } else {
        let rest = tally_of(bots.drop_last());
        match bots.last().state {
            BotStateView::Connecting => rest,
            BotStateView::Joined => Tally { joined: rest.joined + 1, ..rest },
            BotStateView::Left => Tally { left: rest.left + 1, ..rest },
            BotStateView::Error(_) => Tally { error: rest.error + 1, ..rest },
        }
    }
}

/// How many of a hundred bots have joined, rounded down; 0 without bots.
pub open spec fn percent_of(joined: nat, total: nat) -> nat {
    if total == 0 {
        0
    } else {
        joined * 100 / total
    }
}

/// The label of the gauge: the bots that have joined, of all.
pub open spec fn gauge_label(bots: Seq<BotView>) -> Seq<char> {
    decimal(tally_of(bots).joined) + "/"@ + decimal(bots.len())
}

/// The title of the list: the bots that have left in dark gray, those that
/// have failed in red, and the percentage of those that have joined in
/// magenta.
pub open spec fn title_line(bots: Seq<BotView>) -> Seq<SpanView> {
    let tally = tally_of(bots);
    seq![
        raw("Bots "@),
        SpanView { content: decimal(tally.left) + " "@, style: fg(Color::DarkGray) },
        SpanView { content: decimal(tally.error) + " "@, style: fg(Color::Red) },
        SpanView {
            content: "("@ + decimal(percent_of(tally.joined, bots.len())) + "%)"@,
            style: fg(Color::Magenta),
        },
    ]
}

/// The chat pane: the entries of the selected bot, each as a line of
/// terminal text; nothing without a selection.
pub open spec fn chat_lines(app: AppView) -> Seq<Seq<SpanView>> {
    match app.selection {
        Some(i) => app.bots[i].chat.map_values(|c: Seq<crate::chat::ChatSpanView>| render(c)),
        None => Seq::empty(),
    }
}

/// The counted bots are bots of the fleet.
pub proof fn lemma_tally_bounded(bots: Seq<BotView>)
    ensures
        tally_of(bots).joined + tally_of(bots).left + tally_of(bots).error <= bots.len(),
    decreases bots.len(),
{
    if bots.len() > 0 {
        lemma_tally_bounded(bots.drop_last());
    }
}

/// The percentage is at most a hundred.
pub proof fn lemma_percent_bounded(joined: nat, total: nat)
    requires
        joined <= total,
    ensures
        percent_of(joined, total) <= 100,
{
    if total > 0 {
        assert(joined * 100 / total <= 100) by (nonlinear_arith)
            requires
                joined <= total,
                total > 0,
        ;
    }
}

fn raw_span(content: String) -> (span: Span)
    ensures
        span@ == raw(content@),
{
    Span { content, style: Style { fg: None, bg: None, bold: false } }
}

fn colored_span(content: String, color: Color) -> (span: Span)
    ensures
        span@ == (SpanView { content: content@, style: fg(color) }),
{
    Span { content, style: Style { fg: Some(color), bg: None, bold: false } }
}

/// The header of the screen.
pub fn header(config: &Config) -> (bar: Bar)
    ensures
        line_view(bar.line@) == header_line(config@),
        bar.style == bar_style(),
{
    let mut address = config.host.clone();
    address.append(":");
    address.append(to_decimal(config.port as u64).as_str());
    let mut threads = to_decimal(config.threads as u64);
    threads.append(" threads");
    let mut line: Vec<Span> = Vec::new();
    line.push(raw_span("Minecraft bots".to_owned()));
    line.push(raw_span(" | ".to_owned()));
    line.push(raw_span(address));
    line.push(raw_span(" | ".to_owned()));
    line.push(raw_span(threads));
    Bar { line, style: Style { fg: None, bg: Some(Color::Cyan), bold: true } }
}

/// The footer of the screen.
pub fn footer() -> (bar: Bar)
    ensures
        line_view(bar.line@) == footer_line(),
        bar.style == bar_style(),
{
    let mut line: Vec<Span> = Vec::new();
    line.push(
        Span { content: "Q".to_owned(), style: Style { fg: None, bg: Some(Color::Black), bold: false } },
    );
    line.push(
        Span {
            content: "Exit".to_owned(),
            style: Style { fg: None, bg: Some(Color::Cyan), bold: false },
        },
    );
    Bar { line, style: Style { fg: None, bg: Some(Color::Cyan), bold: true } }
}

/// The colour of a bot in the list.
fn color_of_state(state: &BotState) -> (color: Color)
    ensures
        color == state_color(state@),
{
    match state {
        BotState::Connecting => Color::Yellow,
        BotState::Joined => Color::Green,
        BotState::Left => Color::DarkGray,
        BotState::Error(_) => Color::Red,
    }
}

/// The gauge and the list of the bots.
pub fn bot_block(app: &App) -> (block: (Gauge, BotList))
    requires
        app.wf(),
    ensures
        block.0.percent == percent_of(tally_of(app@.bots).joined, app@.bots.len()),
        block.0.percent <= 100,
        block.0.label@ == gauge_label(app@.bots),
        block.0.style == fg(Color::Green),
        line_view(block.1.title@) == title_line(app@.bots),
        line_view(block.1.items@) == item_line(app@.bots),
        block.1.highlight == highlight_style(),
        match block.1.selected {
            Some(i) => app@.selection == Some(i as int),
            None => app@.selection is None,
        },
{
    let bots = app.bots();
    let ghost all = app@.bots;
    let mut items: Vec<Span> = Vec::new();
    let mut joined: usize = 0;
    let mut left: usize = 0;
    let mut error: usize = 0;
    let mut i: usize = 0;
    while i < bots.len()
        invariant
            i <= bots@.len(),
            all == bots@.map_values(|b: Bot| b@),
            items@.len() == i,
            forall|k: int| 0 <= k < i ==> (#[trigger] items@[k])@ == item_of(all[k]),
            joined == tally_of(all.take(i as int)).joined,
            left == tally_of(all.take(i as int)).left,
            error == tally_of(all.take(i as int)).error,
        decreases bots@.len() - i,
    {
        proof {
            assert(all.take(i + 1).drop_last() =~= all.take(i as int));
            lemma_tally_bounded(all.take(i + 1));
        }
        let bot = &bots[i];
        items.push(colored_span(bot.username().clone(), color_of_state(bot.state())));
        match bot.state() {
            BotState::Connecting => {},
            BotState::Joined => {
                joined += 1;
            },
            BotState::Left => {
                left += 1;
            },
            BotState::Error(_) => {
                error += 1;
            },
        }
        i += 1;
    }
    let total = bots.len();
    proof {
        assert(all.take(total as int) =~= all);
        lemma_tally_bounded(all);
        lemma_percent_bounded(joined as nat, total as nat);
    }
    let percent: u16 = if total == 0 {
        0
    } else {
        (joined as u128 * 100 / (total as u128)) as u16
    };
    let mut label = to_decimal(joined as u64);
    label.append("/");
    label.append(to_decimal(total as u64).as_str());
    let mut left_text = to_decimal(left as u64);
    left_text.append(" ");
    let mut error_text = to_decimal(error as u64);
    error_text.append(" ");
    let mut percent_text = "(".to_owned();
    percent_text.append(to_decimal(percent as u64).as_str());
    percent_text.append("%)");
    let mut title: Vec<Span> = Vec::new();
    title.push(raw_span("Bots ".to_owned()));
    title.push(colored_span(left_text, Color::DarkGray));
    title.push(colored_span(error_text, Color::Red));
    title.push(colored_span(percent_text, Color::Magenta));
    (
        Gauge { percent, label, style: Style { fg: Some(Color::Green), bg: None, bold: false } },
        BotList {
            title,
            items,
            selected: app.selected(),
            highlight: Style { fg: None, bg: None, bold: true },
        },
    )
}

/// The chat pane: the chat of the selected bot.
pub fn chat_text(app: &App) -> (lines: Vec<Vec<Span>>)
    requires
        app.wf(),
    ensures
        text_view(lines@) == chat_lines(app@),
{
    let mut lines: Vec<Vec<Span>> = Vec::new();
    if let Some(selected) = app.selected() {
        let chat = app.bots()[selected].chat();
        let ghost entries = app@.bots[selected as int].chat;
        let mut i: usize = 0;
        while i < chat.len()
            invariant
                i <= chat@.len(),
                entries == chat@.map_values(|c: Component| c@),
                lines@.len() == i,
                forall|k: int|
                    0 <= k < i ==> line_view((#[trigger] lines@[k])@) == render(entries[k]),
            decreases chat@.len() - i,
        {
            lines.push(convert_component_to_span(&chat[i]));
            i += 1;
        }
    }
    lines
}

/// Everything that a frame shows of the fleet under a configuration.
pub fn ui(app: &App, config: &Config) -> (screen: Screen)
    requires
        app.wf(),
    ensures
        line_view(screen.header.line@) == header_line(config@),
        screen.header.style == bar_style(),
        screen.gauge.percent == percent_of(tally_of(app@.bots).joined, app@.bots.len()),
        screen.gauge.percent <= 100,
        screen.gauge.label@ == gauge_label(app@.bots),
        screen.gauge.style == fg(Color::Green),
        line_view(screen.bots.title@) == title_line(app@.bots),
        line_view(screen.bots.items@) == item_line(app@.bots),
        screen.bots.highlight == highlight_style(),
        match screen.bots.selected {
            Some(i) => app@.selection == Some(i as int),
            None => app@.selection is None,
        },
        text_view(screen.chat@) == chat_lines(app@),
        line_view(screen.footer.line@) == footer_line(),
        screen.footer.style == bar_style(),
{
    let (gauge, bots) = bot_block(app);
    Screen { header: header(config), gauge, bots, chat: chat_text(app), footer: footer() }
}

} // verus!
