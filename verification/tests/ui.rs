use minecraft_bots::chat::{ChatSpan, Color, Component, Span, Style};
use minecraft_bots::config::Config;
use minecraft_bots::ui::{bot_block, chat_text, footer, header, ui};
use minecraft_bots::{App, Message};

const PLAIN: Style = Style { fg: None, bg: None, bold: false };
const BAR: Style = Style { fg: None, bg: Some(Color::Cyan), bold: true };

fn fg(color: Color) -> Style {
    Style { fg: Some(color), bg: None, bold: false }
}

fn raw(s: &str) -> Span {
    Span { content: s.to_string(), style: PLAIN }
}

fn colored(s: &str, color: Color) -> Span {
    Span { content: s.to_string(), style: fg(color) }
}

fn config(host: &str, port: u16, threads: usize) -> Config {
    Config {
        host: host.to_string(),
        port,
        count: 3,
        prefix: "bot".to_string(),
        rate: 250,
        threads,
    }
}

fn started(count: usize) -> App {
    let mut app = App::new();
    app.register_fleet("bot", count);
    app
}

fn text(s: &str) -> Component {
    Component { spans: vec![ChatSpan { text: s.to_string(), color: None }] }
}

#[test]
fn header_names_server_and_threads() {
    let bar = header(&config("localhost", 25565, 4));
    assert_eq!(
        bar.line,
        vec![raw("Minecraft bots"), raw(" | "), raw("localhost:25565"), raw(" | "), raw("4 threads")]
    );
    assert_eq!(bar.style, BAR);
    let joined: String = bar.line.iter().map(|s| s.content.as_str()).collect();
    assert_eq!(joined, "Minecraft bots | localhost:25565 | 4 threads");
}

#[test]
fn header_of_other_servers() {
    let bar = header(&config("mc.example.org", 1, 128));
    assert_eq!(bar.line[2], raw("mc.example.org:1"));
    assert_eq!(bar.line[4], raw("128 threads"));
    let bar = header(&config("", 65535, 0));
    assert_eq!(bar.line[2], raw(":65535"));
    assert_eq!(bar.line[4], raw("0 threads"));
}

#[test]
fn footer_shows_the_exit_key() {
    let bar = footer();
    assert_eq!(
        bar.line,
        vec![
            Span {
                content: "Q".to_string(),
                style: Style { fg: None, bg: Some(Color::Black), bold: false }
            },
            Span {
                content: "Exit".to_string(),
                style: Style { fg: None, bg: Some(Color::Cyan), bold: false }
            },
        ]
    );
    assert_eq!(bar.style, BAR);
}

#[test]
fn bots_are_colored_by_state() {
    let mut app = started(4);
    app.apply(Message::Joined("bot_2".to_string()));
    app.apply(Message::Left("bot_3".to_string()));
    app.apply(Message::Error("bot_4".to_string(), "refused".to_string()));
    let (_, list) = bot_block(&app);
    assert_eq!(
        list.items,
        vec![
            colored("bot_1", Color::Yellow),
            colored("bot_2", Color::Green),
            colored("bot_3", Color::DarkGray),
            colored("bot_4", Color::Red),
        ]
    );
    assert_eq!(list.highlight, Style { fg: None, bg: None, bold: true });
    assert_eq!(list.selected, None);
}

#[test]
fn title_counts_left_failed_and_joined() {
    let mut app = started(3);
    app.apply(Message::Joined("bot_1".to_string()));
    app.apply(Message::Left("bot_2".to_string()));
    app.apply(Message::Error("bot_3".to_string(), "refused".to_string()));
    let (gauge, list) = bot_block(&app);
    assert_eq!(
        list.title,
        vec![
            raw("Bots "),
            colored("1 ", Color::DarkGray),
            colored("1 ", Color::Red),
            colored("(33%)", Color::Magenta),
        ]
    );
    assert_eq!(gauge.percent, 33);
    assert_eq!(gauge.label, "1/3");
    assert_eq!(gauge.style, fg(Color::Green));
}

#[test]
fn percentage_is_rounded_down() {
    for (joined, total, percent) in
        [(0usize, 3usize, 0u16), (1, 3, 33), (2, 3, 66), (3, 3, 100), (1, 7, 14), (6, 7, 85), (1, 1, 100), (199, 200, 99)]
    {
        let mut app = started(total);
        for i in 1..=joined {
            app.apply(Message::Joined(format!("bot_{}", i)));
        }
        let (gauge, list) = bot_block(&app);
        assert_eq!(gauge.percent, percent);
        assert_eq!(gauge.label, format!("{}/{}", joined, total));
        assert_eq!(list.title[3], colored(&format!("({}%)", percent), Color::Magenta));
    }
}

#[test]
fn a_fleet_without_bots_shows_zero() {
    let app = started(0);
    let (gauge, list) = bot_block(&app);
    assert_eq!(gauge.percent, 0);
    assert_eq!(gauge.label, "0/0");
    assert!(list.items.is_empty());
    assert_eq!(
        list.title,
        vec![
            raw("Bots "),
            colored("0 ", Color::DarkGray),
            colored("0 ", Color::Red),
            colored("(0%)", Color::Magenta),
        ]
    );
}

#[test]
fn the_list_knows_the_selection() {
    let mut app = started(3);
    app.next();
    app.next();
    let (_, list) = bot_block(&app);
    assert_eq!(list.selected, Some(1));
}

#[test]
fn chat_is_empty_without_a_selection() {
    let mut app = started(2);
    app.apply(Message::Chat("bot_1".to_string(), text("hi")));
    assert_eq!(chat_text(&app), Vec::<Vec<Span>>::new());
}

#[test]
fn chat_shows_the_selected_bot() {
    let mut app = started(2);
    app.apply(Message::Chat("bot_1".to_string(), text("hi")));
    app.apply(Message::Chat(
        "bot_2".to_string(),
        Component {
            spans: vec![
                ChatSpan { text: "a".to_string(), color: Some(0x123456) },
                ChatSpan { text: "b".to_string(), color: Some(50) },
            ],
        },
    ));
    app.apply(Message::Error("bot_2".to_string(), "refused".to_string()));
    app.next();
    assert_eq!(chat_text(&app), vec![vec![raw("hi")]]);
    app.next();
    assert_eq!(
        chat_text(&app),
        vec![
            vec![colored("a", Color::Rgb(18, 52, 86)), raw("b")],
            vec![colored("refused", Color::Rgb(255, 85, 85))],
        ]
    );
    app.unselect();
    assert!(chat_text(&app).is_empty());
}

#[test]
fn the_screen_holds_every_part() {
    let mut app = started(2);
    app.apply(Message::Joined("bot_1".to_string()));
    app.apply(Message::Chat("bot_1".to_string(), text("hello")));
    app.next();
    let config = config("localhost", 25565, 2);
    let screen = ui(&app, &config);
    assert_eq!(screen.header, header(&config));
    assert_eq!(screen.footer, footer());
    let (gauge, list) = bot_block(&app);
    assert_eq!(screen.gauge, gauge);
    assert_eq!(screen.bots, list);
    assert_eq!(screen.chat, vec![vec![raw("hello")]]);
    assert_eq!(screen.gauge.percent, 50);
    assert_eq!(screen.gauge.label, "1/2");
    assert_eq!(screen.bots.selected, Some(0));
}
