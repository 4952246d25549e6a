//! One session, seen from its runner: the events that the protocol delivers
//! and the messages that the runner passes on to the supervisor.

use vstd::prelude::*;
use crate::chat::{ChatSpanView, Component};
use crate::fleet::{Message, MessageView};
use crate::laws::ends_once;

verus! {

/// How many messages the bus between the sessions and the supervisor holds
/// before a session has to wait.
pub const BUS_CAPACITY: usize = 16;

/// What the protocol reports of a running session.
#[derive(Debug, Clone, PartialEq, Eq)]
pub enum Event {
    /// The session logged in.
    Login,
    /// A chat component arrived.
    Chat(Component),
    /// Anything else.
    Other,
}

/// What an [`Event`] is, with its component by its view.
pub enum EventView {
    Login,
    Chat(Seq<ChatSpanView>),
    Other,
}

impl View for Event {
    type V = EventView;

    open spec fn view(&self) -> EventView {
        match self {
            Event::Login => EventView::Login,
            Event::Chat(component) => EventView::Chat(component@),
            Event::Other => EventView::Other,
        }
    }
}

/// The message that an event gives rise to: `Joined` for a login, `Chat`
/// with the component for a chat, none for anything else.
pub open spec fn message_of(username: Seq<char>, event: EventView) -> Option<MessageView> {
    match event {
        EventView::Login => Some(MessageView::Joined(username)),
        EventView::Chat(component) => Some(MessageView::Chat(username, component)),
        EventView::Other => None,
    }
}

/// The message that ends a session: `Left` after a clean end, `Error` with
/// the description after a failure.
pub open spec fn closing_message(username: Seq<char>, outcome: Result<(), Seq<char>>) -> MessageView {
    match outcome {
        Ok(_) => MessageView::Left(username),
        Err(text) => MessageView::Error(username, text),
    }
}

/// The messages that a runner passes on for a sequence of events, in the
/// order of the events.
pub open spec fn relayed(username: Seq<char>, events: Seq<EventView>) -> Seq<MessageView>
    decreases events.len(),
{
    if events.len() == 0 {
        Seq::empty()
    } else {
        let front = relayed(username, events.drop_last());
        match message_of(username, events.last()) {
            Some(message) => front.push(message),
            None => front,
        }
    }
}

/// Everything that a runner sends for a session: what it passes on for the
/// events, then the message that ends the session.
pub open spec fn session_messages(
    username: Seq<char>,
    events: Seq<EventView>,
    outcome: Result<(), Seq<char>>,
) -> Seq<MessageView> {
    relayed(username, events).push(closing_message(username, outcome))
}

/// Every chat event has a login before it.
pub open spec fn login_first(events: Seq<EventView>) -> bool {
    forall|c: int|
        0 <= c < events.len() && (#[trigger] events[c]) is Chat ==> exists|l: int|
            0 <= l < c && (#[trigger] events[l]) is Login
}

/// Every `Chat` message has a `Joined` before it.
pub open spec fn joined_first(messages: Seq<MessageView>) -> bool {
    forall|c: int|
        0 <= c < messages.len() && (#[trigger] messages[c]) is Chat ==> exists|j: int|
            0 <= j < c && (#[trigger] messages[j]) is Joined
}

/// The message to send for an event of the session of that bot, if the
/// event calls for one.
pub fn handle(username: &str, event: Event) -> (message: Option<Message>)
    ensures
        match message {
            Some(m) => message_of(username@, event@) == Some(m@),
            None => message_of(username@, event@) is None,
        },
{
    match event {
        Event::Login => Some(Message::Joined(username.to_owned())),
        Event::Chat(component) => Some(Message::Chat(username.to_owned(), component)),
        Event::Other => None,
    }
}

/// The message to send when the session of that bot has ended: cleanly, or
/// with the failure that `outcome` describes.
pub fn finish(username: &str, outcome: Result<(), String>) -> (message: Message)
    ensures
        message@ == closing_message(
            username@,
            match outcome {
                Ok(_) => Ok(()),
                Err(text) => Err(text@),
            },
        ),
        message@.is_terminal(),
{
    match outcome {
        Ok(_) => Message::Left(username.to_owned()),
        Err(text) => Message::Error(username.to_owned(), text),
    }
}

/// What a runner passes on for events never ends the session, and names
/// the runner's bot.
pub proof fn law_relayed(username: Seq<char>, events: Seq<EventView>)
    ensures
        relayed(username, events).len() <= events.len(),
        forall|t: int|
            0 <= t < relayed(username, events).len() ==> {
                let message = #[trigger] relayed(username, events)[t];
                message.username() == username && !message.is_terminal()
            },
    decreases events.len(),
{
    if events.len() > 0 {
        law_relayed(username, events.drop_last());
    }
}

/// A runner sends exactly one message that ends its session, and sends it
/// last; every message names the runner's bot.
pub proof fn law_one_ending(
    username: Seq<char>,
    events: Seq<EventView>,
    outcome: Result<(), Seq<char>>,
)
    ensures
        session_messages(username, events, outcome).last().is_terminal(),
        forall|t: int|
            0 <= t < session_messages(username, events, outcome).len() ==> {
                let message = #[trigger] session_messages(username, events, outcome)[t];
                &&& message.username() == username
                &&& message.is_terminal() <==> t == session_messages(
                    username,
                    events,
                    outcome,
                ).len() - 1
            },
        ends_once(session_messages(username, events, outcome), username),
{
    law_relayed(username, events);
}

/// A login among the events gives a `Joined` among the messages.
proof fn lemma_login_relayed(username: Seq<char>, events: Seq<EventView>, l: int)
    requires
        0 <= l < events.len(),
        events[l] is Login,
    ensures
        exists|j: int|
            0 <= j < relayed(username, events).len() && (#[trigger] relayed(
                username,
                events,
            )[j]) is Joined,
    decreases events.len(),
{
    let front = relayed(username, events.drop_last());
    if l == events.len() - 1 {
        assert(relayed(username, events)[front.len() as int] is Joined);
    } else {
        lemma_login_relayed(username, events.drop_last(), l);
        let j = choose|j: int| 0 <= j < front.len() && (#[trigger] front[j]) is Joined;
        assert(relayed(username, events)[j] is Joined);
    }
}

/// The order of a session is kept: where the protocol reports a login
/// before any chat, the runner's `Joined` comes before any of its `Chat`
/// messages, and these come before the message that ends the session.
pub proof fn law_session_order(
    username: Seq<char>,
    events: Seq<EventView>,
    outcome: Result<(), Seq<char>>,
)
    requires
        login_first(events),
    ensures
        joined_first(relayed(username, events)),
        joined_first(session_messages(username, events, outcome)),
        forall|c: int|
            0 <= c < session_messages(username, events, outcome).len() && (
            #[trigger] session_messages(username, events, outcome)[c]) is Chat ==> c
                < session_messages(username, events, outcome).len() - 1,
    decreases events.len(),
{
    let all = relayed(username, events);
    if events.len() > 0 {
        let shorter = events.drop_last();
        let front = relayed(username, shorter);
        assert(login_first(shorter)) by {
            assert forall|c: int| 0 <= c < shorter.len() && (#[trigger] shorter[c]) is Chat implies exists|
                l: int,
            |
                0 <= l < c && (#[trigger] shorter[l]) is Login by {
                let l = choose|l: int| 0 <= l < c && (#[trigger] events[l]) is Login;
                assert(shorter[l] is Login);
            }
        }
        law_session_order(username, shorter, outcome);
        assert forall|c: int| 0 <= c < all.len() && (#[trigger] all[c]) is Chat implies exists|
            j: int,
        |
            0 <= j < c && (#[trigger] all[j]) is Joined by {
            if c < front.len() {
                let j = choose|j: int| 0 <= j < c && (#[trigger] front[j]) is Joined;
                assert(all[j] is Joined);
            } else {
                let l = choose|l: int| 0 <= l < events.len() - 1 && (#[trigger] events[l]) is Login;
                lemma_login_relayed(username, shorter, l);
                let j = choose|j: int| 0 <= j < front.len() && (#[trigger] front[j]) is Joined;
                assert(all[j] is Joined);
            }
        }
    }
    let sent = session_messages(username, events, outcome);
    assert forall|c: int| 0 <= c < sent.len() && (#[trigger] sent[c]) is Chat implies exists|
        j: int,
    |
        0 <= j < c && (#[trigger] sent[j]) is Joined by {
        let j = choose|j: int| 0 <= j < c && (#[trigger] all[j]) is Joined;
        assert(sent[j] is Joined);
    }
}

} // verus!
