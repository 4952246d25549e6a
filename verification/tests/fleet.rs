use minecraft_bots::chat::{ChatSpan, Component, ERROR_COLOR};
use minecraft_bots::config::Config;
use minecraft_bots::fleet::bot_username;
use minecraft_bots::{App, BotState, Message};

fn text(s: &str) -> Component {
    Component { spans: vec![ChatSpan { text: s.to_string(), color: None }] }
}

fn started(prefix: &str, count: usize) -> App {
    let mut app = App::new();
    app.register_fleet(prefix, count);
    app
}

fn states(app: &App) -> Vec<BotState> {
    app.bots().iter().map(|bot| bot.state().clone()).collect()
}

fn names(app: &App) -> Vec<String> {
    app.bots().iter().map(|bot| bot.username().clone()).collect()
}

fn chat_texts(app: &App, index: usize) -> Vec<String> {
    app.bots()[index]
        .chat()
        .iter()
        .map(|entry| entry.spans.iter().map(|span| span.text.as_str()).collect::<String>())
        .collect()
}

#[test]
fn new_fleet_is_empty_and_unselected() {
    let app = App::new();
    assert!(app.bots().is_empty());
    assert_eq!(app.selected(), None);
}

#[test]
fn usernames_are_prefix_underscore_number() {
    assert_eq!(bot_username("bot", 1), "bot_1");
    assert_eq!(bot_username("bot", 10), "bot_10");
    assert_eq!(bot_username("", 7), "_7");
    assert_eq!(bot_username("a_b", 1234567890), "a_b_1234567890");
    assert_eq!(bot_username("bot", 0), "bot_0");
}

#[test]
fn startup_registers_every_bot_in_order() {
    let config = Config {
        host: "localhost".to_string(),
        port: 25565,
        count: 12,
        prefix: "bot".to_string(),
        rate: 250,
        threads: 2,
    };
    let mut app = App::new();
    let spawned = app.register_fleet(&config.prefix, config.count);
    let expected: Vec<String> = (1..=12).map(|i| format!("bot_{}", i)).collect();
    assert_eq!(spawned, expected);
    assert_eq!(names(&app), expected);
    assert_eq!(app.bots().len(), 12);
    for bot in app.bots() {
        assert_eq!(*bot.state(), BotState::Connecting);
        assert!(bot.chat().is_empty());
    }
    assert_eq!(app.selected(), None);
}

#[test]
fn startup_with_no_bots_registers_nothing() {
    let mut app = App::new();
    let spawned = app.register_fleet("bot", 0);
    assert!(spawned.is_empty());
    assert!(app.bots().is_empty());
}

#[test]
fn register_refuses_a_name_that_is_taken() {
    let mut app = App::new();
    assert!(app.register("alice".to_string()));
    assert!(app.register("bob".to_string()));
    assert!(!app.register("alice".to_string()));
    assert_eq!(names(&app), vec!["alice".to_string(), "bob".to_string()]);
}

#[test]
fn a_second_startup_adds_only_the_missing_bots() {
    let mut app = started("bot", 2);
    let spawned = app.register_fleet("bot", 4);
    assert_eq!(spawned, vec!["bot_3".to_string(), "bot_4".to_string()]);
    assert_eq!(
        names(&app),
        vec!["bot_1".to_string(), "bot_2".to_string(), "bot_3".to_string(), "bot_4".to_string()]
    );
}

#[test]
fn position_finds_each_bot_by_name() {
    let app = started("bot", 3);
    assert_eq!(app.position("bot_1"), Some(0));
    assert_eq!(app.position("bot_3"), Some(2));
    assert_eq!(app.position("bot_4"), None);
    assert_eq!(app.position("bot"), None);
    assert_eq!(app.position(""), None);
}

#[test]
fn message_names_its_bot() {
    assert_eq!(Message::Joined("a".to_string()).username(), "a");
    assert_eq!(Message::Left("b".to_string()).username(), "b");
    assert_eq!(Message::Chat("c".to_string(), text("x")).username(), "c");
    assert_eq!(Message::Error("d".to_string(), "boom".to_string()).username(), "d");
}

#[test]
fn injected_messages_give_the_expected_fleet() {
    let config = Config {
        host: "localhost".to_string(),
        port: 25565,
        count: 3,
        prefix: "bot".to_string(),
        rate: 250,
        threads: 1,
    };
    let mut app = App::new();
    app.register_fleet(&config.prefix, config.count);
    let messages = vec![
        Message::Joined("bot_1".to_string()),
        Message::Joined("bot_2".to_string()),
        Message::Chat("bot_1".to_string(), text("hi")),
        Message::Error("bot_3".to_string(), "refused".to_string()),
        Message::Left("bot_1".to_string()),
        Message::Left("bot_2".to_string()),
    ];
    for message in messages {
        assert!(app.position(message.username()).is_some());
        app.apply(message);
    }
    assert_eq!(
        states(&app),
        vec![BotState::Left, BotState::Left, BotState::Error("refused".to_string())]
    );
    assert_eq!(chat_texts(&app, 0), vec!["hi".to_string()]);
    assert_eq!(chat_texts(&app, 1), Vec::<String>::new());
    assert_eq!(chat_texts(&app, 2), vec!["refused".to_string()]);
    assert_eq!(names(&app), vec!["bot_1".to_string(), "bot_2".to_string(), "bot_3".to_string()]);
    assert_eq!(app.selected(), None);
}

#[test]
fn error_entry_is_the_message_in_red() {
    let mut app = started("bot", 1);
    app.apply(Message::Error("bot_1".to_string(), "connection refused".to_string()));
    assert_eq!(
        *app.bots()[0].chat(),
        vec![Component {
            spans: vec![ChatSpan {
                text: "connection refused".to_string(),
                color: Some(16733525)
            }]
        }]
    );
    assert_eq!(ERROR_COLOR, 0xFF5555);
}

#[test]
fn joined_only_moves_a_connecting_bot() {
    let mut app = started("bot", 2);
    app.apply(Message::Left("bot_1".to_string()));
    app.apply(Message::Joined("bot_1".to_string()));
    assert_eq!(*app.bots()[0].state(), BotState::Left);
    app.apply(Message::Error("bot_2".to_string(), "kicked".to_string()));
    app.apply(Message::Joined("bot_2".to_string()));
    assert_eq!(*app.bots()[1].state(), BotState::Error("kicked".to_string()));
    let mut other = started("bot", 1);
    other.apply(Message::Joined("bot_1".to_string()));
    other.apply(Message::Joined("bot_1".to_string()));
    assert_eq!(*other.bots()[0].state(), BotState::Joined);
}

#[test]
fn states_follow_the_lifecycle() {
    let mut app = started("bot", 1);
    let mut seen = vec![app.bots()[0].state().clone()];
    let messages = vec![
        Message::Chat("bot_1".to_string(), text("early")),
        Message::Joined("bot_1".to_string()),
        Message::Chat("bot_1".to_string(), text("a")),
        Message::Chat("bot_1".to_string(), text("b")),
        Message::Error("bot_1".to_string(), "timed out".to_string()),
        Message::Chat("bot_1".to_string(), text("late")),
        Message::Joined("bot_1".to_string()),
    ];
    for message in messages {
        app.apply(message);
        seen.push(app.bots()[0].state().clone());
    }
    let failed = BotState::Error("timed out".to_string());
    assert_eq!(
        seen,
        vec![
            BotState::Connecting,
            BotState::Connecting,
            BotState::Joined,
            BotState::Joined,
            BotState::Joined,
            failed.clone(),
            failed.clone(),
            failed,
        ]
    );
}

#[test]
fn a_session_may_end_before_it_joins() {
    let mut app = started("bot", 1);
    app.apply(Message::Left("bot_1".to_string()));
    assert_eq!(*app.bots()[0].state(), BotState::Left);
}

#[test]
fn chat_only_grows() {
    let mut app = started("bot", 2);
    let mut before: Vec<String> = Vec::new();
    let messages = vec![
        Message::Chat("bot_1".to_string(), text("one")),
        Message::Joined("bot_1".to_string()),
        Message::Chat("bot_2".to_string(), text("elsewhere")),
        Message::Chat("bot_1".to_string(), text("two")),
        Message::Error("bot_1".to_string(), "three".to_string()),
        Message::Left("bot_1".to_string()),
        Message::Chat("bot_1".to_string(), text("four")),
    ];
    for message in messages {
        app.apply(message);
        let now = chat_texts(&app, 0);
        assert!(now.len() >= before.len());
        assert_eq!(now[..before.len()], before[..]);
        before = now;
    }
    assert_eq!(
        before,
        vec!["one".to_string(), "two".to_string(), "three".to_string(), "four".to_string()]
    );
    assert_eq!(chat_texts(&app, 1), vec!["elsewhere".to_string()]);
}

#[test]
fn messages_touch_no_other_bot_and_no_selection() {
    let mut app = started("bot", 3);
    app.next();
    app.next();
    app.apply(Message::Joined("bot_2".to_string()));
    app.apply(Message::Chat("bot_2".to_string(), text("hello")));
    assert_eq!(app.selected(), Some(1));
    assert_eq!(
        states(&app),
        vec![BotState::Connecting, BotState::Joined, BotState::Connecting]
    );
    assert!(app.bots()[0].chat().is_empty());
    assert!(app.bots()[2].chat().is_empty());
    assert_eq!(app.bots().len(), 3);
}

#[test]
fn chat_keeps_the_component_as_it_came() {
    let mut app = started("bot", 1);
    let component = Component {
        spans: vec![
            ChatSpan { text: "<".to_string(), color: None },
            ChatSpan { text: "steve".to_string(), color: Some(5635925) },
            ChatSpan { text: "> hi".to_string(), color: Some(12) },
        ],
    };
    app.apply(Message::Chat("bot_1".to_string(), component.clone()));
    assert_eq!(*app.bots()[0].chat(), vec![component]);
}
