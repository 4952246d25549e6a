use minecraft_bots::chat::{ChatSpan, Component};
use minecraft_bots::session::{finish, handle, Event, BUS_CAPACITY};
use minecraft_bots::{App, BotState, Message};

fn text(s: &str) -> Component {
    Component { spans: vec![ChatSpan { text: s.to_string(), color: None }] }
}

fn run_session(username: &str, events: Vec<Event>, outcome: Result<(), String>) -> Vec<Message> {
    let mut sent = Vec::new();
    for event in events {
        if let Some(message) = handle(username, event) {
            sent.push(message);
        }
    }
    sent.push(finish(username, outcome));
    sent
}

#[test]
fn login_is_passed_on_as_joined() {
    assert_eq!(handle("bot_1", Event::Login), Some(Message::Joined("bot_1".to_string())));
}

#[test]
fn chat_is_passed_on_with_its_component() {
    assert_eq!(
        handle("bot_2", Event::Chat(text("hi"))),
        Some(Message::Chat("bot_2".to_string(), text("hi")))
    );
}

#[test]
fn other_events_are_ignored() {
    assert_eq!(handle("bot_1", Event::Other), None);
}

#[test]
fn a_clean_end_is_left() {
    assert_eq!(finish("bot_1", Ok(())), Message::Left("bot_1".to_string()));
}

#[test]
fn a_failure_is_error_with_its_text() {
    assert_eq!(
        finish("bot_3", Err("connection refused".to_string())),
        Message::Error("bot_3".to_string(), "connection refused".to_string())
    );
}

#[test]
fn a_session_sends_its_ending_once_and_last() {
    let events = vec![
        Event::Other,
        Event::Login,
        Event::Other,
        Event::Chat(text("a")),
        Event::Other,
        Event::Chat(text("b")),
    ];
    let sent = run_session("bot_1", events, Ok(()));
    assert_eq!(
        sent,
        vec![
            Message::Joined("bot_1".to_string()),
            Message::Chat("bot_1".to_string(), text("a")),
            Message::Chat("bot_1".to_string(), text("b")),
            Message::Left("bot_1".to_string()),
        ]
    );
    let endings = sent
        .iter()
        .filter(|m| matches!(m, Message::Left(_) | Message::Error(_, _)))
        .count();
    assert_eq!(endings, 1);
    assert!(sent.iter().all(|m| m.username() == "bot_1"));
}

#[test]
fn a_session_without_events_sends_only_its_ending() {
    assert_eq!(
        run_session("bot_9", vec![], Err("refused".to_string())),
        vec![Message::Error("bot_9".to_string(), "refused".to_string())]
    );
}

#[test]
fn joined_comes_before_chat_and_chat_before_the_ending() {
    let events =
        vec![Event::Login, Event::Chat(text("x")), Event::Other, Event::Chat(text("y"))];
    let sent = run_session("bot_1", events, Err("kicked".to_string()));
    let joined = sent.iter().position(|m| matches!(m, Message::Joined(_))).unwrap();
    let last = sent.len() - 1;
    for (at, message) in sent.iter().enumerate() {
        if matches!(message, Message::Chat(_, _)) {
            assert!(joined < at);
            assert!(at < last);
        }
    }
    assert!(matches!(sent[last], Message::Error(_, _)));
}

#[test]
fn two_sessions_interleaved_reach_the_fleet() {
    let mut app = App::new();
    app.register_fleet("bot", 2);
    let first = run_session("bot_1", vec![Event::Login, Event::Chat(text("one"))], Ok(()));
    let second = run_session("bot_2", vec![Event::Login], Err("lost".to_string()));
    let mut first = first.into_iter();
    let mut second = second.into_iter();
    loop {
        let a = first.next();
        let b = second.next();
        if a.is_none() && b.is_none() {
            break;
        }
        for message in [b, a].into_iter().flatten() {
            app.apply(message);
        }
    }
    assert_eq!(*app.bots()[0].state(), BotState::Left);
    assert_eq!(*app.bots()[1].state(), BotState::Error("lost".to_string()));
    assert_eq!(app.bots()[0].chat().len(), 1);
    assert_eq!(app.bots()[1].chat().len(), 1);
}

#[test]
fn the_bus_holds_sixteen_messages() {
    assert_eq!(BUS_CAPACITY, 16);
}
