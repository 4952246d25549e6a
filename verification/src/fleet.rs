//! The fleet: every bot with its state and its chat, and the entry that is
//! selected in the list. One supervisor fills it from the messages of the
//! sessions; the interface reads it and moves the selection.

use vstd::prelude::*;
use crate::chat::{error_component, error_entry, ChatSpanView, Component};
use crate::laws::{law_apply, law_startup};
use crate::text::{decimal, to_decimal};

verus! {

/// Where a bot stands in its session.
#[derive(Debug, Clone, PartialEq, Eq)]
pub enum BotState {
    /// Registered; the session has not logged in yet.
    Connecting,
    /// Logged in.
    Joined,
    /// The session ended cleanly.
    Left,
    /// The session ended with a failure, described by the message.
    Error(String),
}

/// What a [`BotState`] is, with the message as a sequence of characters.
pub enum BotStateView {
    Connecting,
    Joined,
    Left,
    Error(Seq<char>),
}

impl BotStateView {
    /// `Left` and `Error` end a session.
    pub open spec fn is_terminal(self) -> bool {
        self is Left || self is Error
    }

    /// How far a session has come: 0 while connecting, 1 once joined, 2
    /// when it has ended.
    pub open spec fn phase(self) -> int {
        match self {
            BotStateView::Connecting => 0,
            BotStateView::Joined => 1,
            BotStateView::Left => 2,
            BotStateView::Error(_) => 2,
        }
    }

    /// Whether a bot in this state may later be seen in `later`: a session
    /// never goes back, and once it has ended its state stays as it is.
    pub open spec fn leads_to(self, later: BotStateView) -> bool {
        &&& self.phase() <= later.phase()
        &&& self.is_terminal() ==> later == self
    }
}

impl View for BotState {
    type V = BotStateView;

    open spec fn view(&self) -> BotStateView {
        match self {
            BotState::Connecting => BotStateView::Connecting,
            BotState::Joined => BotStateView::Joined,
            BotState::Left => BotStateView::Left,
            BotState::Error(message) => BotStateView::Error(message@),
        }
    }
}

/// What a session tells the supervisor. Each message names its bot.
#[derive(Debug, Clone, PartialEq, Eq)]
pub enum Message {
    /// The session logged in.
    Joined(String),
    /// The session ended cleanly.
    Left(String),
    /// A chat component arrived.
    Chat(String, Component),
    /// The session ended with a failure, described by the second field.
    Error(String, String),
}

/// What a [`Message`] is, with strings as sequences of characters.
pub enum MessageView {
    Joined(Seq<char>),
    Left(Seq<char>),
    Chat(Seq<char>, Seq<ChatSpanView>),
    Error(Seq<char>, Seq<char>),
}

impl MessageView {
    /// The bot that the message is about.
    pub open spec fn username(self) -> Seq<char> {
        match self {
            MessageView::Joined(name) => name,
            MessageView::Left(name) => name,
            MessageView::Chat(name, _) => name,
            MessageView::Error(name, _) => name,
        }
    }

    /// `Left` and `Error` are the messages that end a session.
    pub open spec fn is_terminal(self) -> bool {
        self is Left || self is Error
    }
}

impl View for Message {
    type V = MessageView;

    open spec fn view(&self) -> MessageView {
        match self {
            Message::Joined(name) => MessageView::Joined(name@),
            Message::Left(name) => MessageView::Left(name@),
            Message::Chat(name, component) => MessageView::Chat(name@, component@),
            Message::Error(name, text) => MessageView::Error(name@, text@),
        }
    }
}

impl Message {
    /// The bot that the message is about.
    pub fn username(&self) -> (name: &String)
        ensures
            name@ == self@.username(),
    {
        match self {
            Message::Joined(name) => name,
            Message::Left(name) => name,
            Message::Chat(name, _) => name,
            Message::Error(name, _) => name,
        }
    }
}

/// One bot of the fleet.
#[derive(Debug)]
pub struct Bot {
    username: String,
    state: BotState,
    chat: Vec<Component>,
}

/// What a [`Bot`] is: its name, its state, and its chat entries in the
/// order in which they arrived.
pub struct BotView {
    pub username: Seq<char>,
    pub state: BotStateView,
    pub chat: Seq<Seq<ChatSpanView>>,
}

impl BotView {
    /// A bot as it is registered: connecting, with no chat.
    pub open spec fn connecting(username: Seq<char>) -> BotView {
        BotView { username, state: BotStateView::Connecting, chat: Seq::empty() }
    }

    /// The bot after a message about it.
    ///
    /// `Joined` moves a connecting bot to `Joined` and leaves any other bot
    /// as it is. `Left` and `Error` set the state; `Error` also appends the
    /// entry that reports the failure. `Chat` appends its component.
    pub open spec fn receive(self, message: MessageView) -> BotView {
        match message {
            MessageView::Joined(_) => if self.state is Connecting {
                BotView { state: BotStateView::Joined, ..self }
            } else {
                self
            },
            MessageView::Left(_) => BotView { state: BotStateView::Left, ..self },
            MessageView::Chat(_, component) => BotView { chat: self.chat.push(component), ..self },
            MessageView::Error(_, text) => BotView {
                state: BotStateView::Error(text),
                chat: self.chat.push(error_entry(text)),
                ..self
            },
        }
    }
}

impl View for Bot {
    type V = BotView;

    closed spec fn view(&self) -> BotView {
        BotView {
            username: self.username@,
            state: self.state@,
            chat: self.chat@.map_values(|c: Component| c@),
        }
    }
}

impl Bot {
    fn new(username: String) -> (bot: Bot)
        ensures
            bot@ == BotView::connecting(username@),
    {
        let bot = Bot { username, state: BotState::Connecting, chat: Vec::new() };
        assert(bot@.chat =~= Seq::empty());
        bot
    }

    /// The bot's name.
    pub fn username(&self) -> (name: &String)
        ensures
            name@ == self@.username,
    {
        &self.username
    }

    /// The bot's state.
    pub fn state(&self) -> (state: &BotState)
        ensures
            state@ == self@.state,
    {
        &self.state
    }

    /// The bot's chat entries, oldest first.
    pub fn chat(&self) -> (chat: &Vec<Component>)
        ensures
            chat@.map_values(|c: Component| c@) == self@.chat,
    {
        &self.chat
    }
}

/// The name of the bot with the given number under a prefix.
pub open spec fn username_of(prefix: Seq<char>, index: nat) -> Seq<char> {
    prefix + seq!['_'] + decimal(index)
}

/// The bots that startup registers for a prefix and a count: numbers 1 to
/// `count`, in that order, each connecting and without chat.
pub open spec fn fleet(prefix: Seq<char>, count: nat) -> Seq<BotView> {
    Seq::new(count, |k: int| BotView::connecting(username_of(prefix, (k + 1) as nat)))
}

/// What an [`App`] is: its bots in the order of their registration, and
/// the selected index, if one is selected.
pub struct AppView {
    pub bots: Seq<BotView>,
    pub selection: Option<int>,
}

impl AppView {
    /// The fleet before startup.
    pub open spec fn empty() -> AppView {
        AppView { bots: Seq::empty(), selection: None }
    }

    /// The selection points at a bot, and no two bots share a name.
    pub open spec fn wf(self) -> bool {
        &&& self.selection matches Some(i) ==> 0 <= i < self.bots.len()
        &&& forall|i: int, j: int|
            0 <= i < j < self.bots.len() ==> self.bots[i].username != self.bots[j].username
    }

    /// Whether a bot of that name is registered.
    pub open spec fn knows(self, username: Seq<char>) -> bool {
        exists|i: int| 0 <= i < self.bots.len() && self.bots[i].username == username
    }

    /// The index of the bot of that name, if `knows(username)`.
    pub open spec fn index_of(self, username: Seq<char>) -> int {
        choose|i: int| 0 <= i < self.bots.len() && self.bots[i].username == username
    }

    /// Moves the selection one down, from the last bot to the first, and
    /// from no selection to the first. Nothing changes without bots.
    pub open spec fn next(self) -> AppView {
        if self.bots.len() == 0 {
            self
        } else {
            AppView {
                selection: Some(
                    match self.selection {
                        Some(i) => if i + 1 >= self.bots.len() {
                            0
                        } else {
                            i + 1
                        },
                        None => 0,
                    },
                ),
                ..self
            }
        }
    }

    /// Moves the selection one up, from the first bot to the last, and from
    /// no selection to the first. Nothing changes without bots.
    pub open spec fn previous(self) -> AppView {
        if self.bots.len() == 0 {
            self
        } else {
            AppView {
                selection: Some(
                    match self.selection {
                        Some(i) => if i == 0 {
                            self.bots.len() - 1
                        } else {
                            i - 1
                        },
                        None => 0,
                    },
                ),
                ..self
            }
        }
    }

    /// Clears the selection.
    pub open spec fn unselect(self) -> AppView {
        AppView { selection: None, ..self }
    }

    /// Appends a connecting bot of that name, unless the name is taken.
    pub open spec fn register(self, username: Seq<char>) -> AppView {
        if self.knows(username) {
            self
        } else {
            AppView { bots: self.bots.push(BotView::connecting(username)), ..self }
        }
    }

    /// Registers the bots numbered 1 to `count` under a prefix, in that
    /// order.
    pub open spec fn register_fleet(self, prefix: Seq<char>, count: nat) -> AppView
        decreases count,
    {
        if count == 0 {
            self
        } else {
            self.register_fleet(prefix, (count - 1) as nat).register(username_of(prefix, count))
        }
    }

    /// The fleet after a message: the bot that it names has received it,
    /// and nothing else has changed.
    pub open spec fn apply(self, message: MessageView) -> AppView {
        let i = self.index_of(message.username());
        AppView { bots: self.bots.update(i, self.bots[i].receive(message)), ..self }
    }

    /// The fleet after a sequence of messages, applied in order.
    pub open spec fn run(self, messages: Seq<MessageView>) -> AppView
        decreases messages.len(),
    {
        if messages.len() == 0 {
            self
        } else {
            self.run(messages.drop_last()).apply(messages.last())
        }
    }
}

/// The state that the supervisor and the interface share.
#[derive(Debug)]
pub struct App {
    bots: Vec<Bot>,
    selection: Option<usize>,
}

impl View for App {
    type V = AppView;

    closed spec fn view(&self) -> AppView {
        AppView {
            bots: self.bots@.map_values(|b: Bot| b@),
            selection: match self.selection {
                Some(i) => Some(i as int),
                None => None,
            },
        }
    }
}

/// Writes the name of the bot with the given number under a prefix.
pub fn bot_username(prefix: &str, index: usize) -> (name: String)
    ensures
        name@ == username_of(prefix@, index as nat),
{
    proof {
        reveal_strlit("_");
    }
    let mut name = prefix.to_owned();
    name.append("_");
    let number = to_decimal(index as u64);
    name.append(number.as_str());
    name
}

impl App {
    /// Whether the fleet keeps its invariant: see [`AppView::wf`].
    pub open spec fn wf(&self) -> bool {
        self@.wf()
    }

    /// A fleet without bots and without selection.
    pub fn new() -> (app: App)
        ensures
            app@ == AppView::empty(),
            app.wf(),
    {
        let app = App { bots: Vec::new(), selection: None };
        assert(app@.bots =~= Seq::empty());
        app
    }

    /// The bots, in the order of their registration.
    pub fn bots(&self) -> (bots: &Vec<Bot>)
        ensures
            bots@.map_values(|b: Bot| b@) == self@.bots,
    {
        &self.bots
    }

    /// The selected index, if one is selected.
    pub fn selected(&self) -> (selection: Option<usize>)
        ensures
            selection matches Some(i) ==> self@.selection == Some(i as int),
            selection is None ==> self@.selection is None,
    {
        self.selection
    }

    /// Selects the next bot: see [`AppView::next`].
    pub fn next(&mut self)
        requires
            old(self).wf(),
        ensures
            final(self)@ == old(self)@.next(),
            final(self).wf(),
    {
        let n = self.bots.len();
        if n == 0 {
            return ;
        }
        let i = match self.selection {
            Some(i) => {
                if i >= n - 1 {
                    0
                } else {
                    i + 1
                }
            },
            None => 0,
        };
        self.selection = Some(i);
    }

    /// Selects the previous bot: see [`AppView::previous`].
    pub fn previous(&mut self)
        requires
            old(self).wf(),
        ensures
            final(self)@ == old(self)@.previous(),
            final(self).wf(),
    {
        let n = self.bots.len();
        if n == 0 {
            return ;
        }
        let i = match self.selection {
            Some(i) => {
                if i == 0 {
                    n - 1
                } else {
                    i - 1
                }
            },
            None => 0,
        };
        self.selection = Some(i);
    }

    /// Clears the selection.
    pub fn unselect(&mut self)
        requires
            old(self).wf(),
        ensures
            final(self)@ == old(self)@.unselect(),
            final(self).wf(),
    {
        self.selection = None;
    }

    /// The first bot of that name, by a scan from the front.
    fn find(&self, username: &String) -> (found: Option<usize>)
        ensures
            match found {
                Some(i) => i < self@.bots.len() && self@.bots[i as int].username == username@,
                None => !self@.knows(username@),
            },
    {
        let mut i: usize = 0;
        while i < self.bots.len()
            invariant
                i <= self.bots@.len(),
                forall|k: int| 0 <= k < i ==> self@.bots[k].username != username@,
            decreases self.bots@.len() - i,
        {
            if self.bots[i].username == *username {
                return Some(i);
            }
            i += 1;
        }
        None
    }

    /// The index of the bot of that name, or `None` if no bot has it.
    pub fn position(&self, username: &str) -> (found: Option<usize>)
        requires
            self.wf(),
        ensures
            found is Some <==> self@.knows(username@),
            found matches Some(i) ==> i < self@.bots.len() && i == self@.index_of(username@),
    {
        let name = username.to_owned();
        self.find(&name)
    }

    /// Registers a connecting bot of that name and returns `true`, or
    /// returns `false` and changes nothing if the name is taken.
    pub fn register(&mut self, username: String) -> (added: bool)
        requires
            old(self).wf(),
        ensures
            added == !old(self)@.knows(username@),
            final(self)@ == old(self)@.register(username@),
            final(self).wf(),
    {
        if self.find(&username).is_some() {
            return false;
        }
        let bot = Bot::new(username);
        self.bots.push(bot);
        assert(self@.bots =~= old(self)@.bots.push(BotView::connecting(username@)));
        true
    }

    /// Registers the bots numbered 1 to `count` under a prefix, in that
    /// order, and returns the names of those that it added: the sessions
    /// to start. On a fleet without bots these are all of them.
    pub fn register_fleet(&mut self, prefix: &str, count: usize) -> (names: Vec<String>)
        requires
            old(self).wf(),
        ensures
            final(self)@ == old(self)@.register_fleet(prefix@, count as nat),
            final(self).wf(),
            final(self)@.selection == old(self)@.selection,
            old(self)@.bots.is_prefix_of(final(self)@.bots),
            old(self)@.bots.len() == 0 ==> final(self)@.bots == fleet(prefix@, count as nat),
            names@.map_values(|s: String| s@) == final(self)@.bots.skip(
                old(self)@.bots.len() as int,
            ).map_values(|b: BotView| b.username),
    {
        let ghost start = self@;
        let mut names: Vec<String> = Vec::new();
        let mut i: usize = 0;
        assert(names@.map_values(|s: String| s@) =~= self@.bots.skip(
            start.bots.len() as int,
        ).map_values(|b: BotView| b.username));
        while i < count
            invariant
                i <= count,
                self.wf(),
                self@ == start.register_fleet(prefix@, i as nat),
                self@.selection == start.selection,
                start.bots.is_prefix_of(self@.bots),
                names@.map_values(|s: String| s@) == self@.bots.skip(
                    start.bots.len() as int,
                ).map_values(|b: BotView| b.username),
            decreases count - i,
        {
            let ghost before = self@;
            let ghost named = names@.map_values(|s: String| s@);
            let name = bot_username(prefix, i + 1);
            let added = self.register(name.clone());
            if added {
                names.push(name);
            }
            proof {
                let offset = start.bots.len() as int;
                let now = names@.map_values(|s: String| s@);
                let appended = self@.bots.skip(offset).map_values(|b: BotView| b.username);
                assert forall|k: int| 0 <= k < now.len() implies now[k] == appended[k] by {
                    if k < named.len() {
                        assert(named[k] == before.bots[k + offset].username);
                    }
                }
            }
            i += 1;
        }
        proof {
            if start.bots.len() == 0 {
                assert(start.bots =~= Seq::empty());
                law_startup(prefix@, count as nat);
            }
        }
        names
    }

    /// Applies a message of a session to the bot that it names: see
    /// [`AppView::apply`] and [`BotView::receive`].
    pub fn apply(&mut self, message: Message)
        requires
            old(self).wf(),
            old(self)@.knows(message@.username()),
        ensures
            final(self)@ == old(self)@.apply(message@),
            final(self).wf(),
            final(self)@.bots.len() == old(self)@.bots.len(),
            forall|name: Seq<char>| old(self)@.knows(name) <==> #[trigger] final(self)@.knows(name),
    {
        proof {
            law_apply(self@, message@);
        }
        let ghost before = self@;
        let ghost m = message@;
        let found = self.find(message.username());
        let i = found.unwrap();
        match message {
            Message::Joined(_) => {
                if let BotState::Connecting = self.bots[i].state {
                    self.bots[i].state = BotState::Joined;
                }
            },
            Message::Left(_) => {
                self.bots[i].state = BotState::Left;
            },
            Message::Chat(_, component) => {
                self.bots[i].chat.push(component);
                assert(self.bots@[i as int]@.chat =~= before.bots[i as int].chat.push(component@));
            },
            Message::Error(_, text) => {
                let entry = error_component(text.as_str());
                self.bots[i].state = BotState::Error(text);
                self.bots[i].chat.push(entry);
                assert(self.bots@[i as int]@.chat =~= before.bots[i as int].chat.push(
                    error_entry(text@),
                ));
            },
        }
        assert(self@.bots =~= before.bots.update(i as int, before.bots[i as int].receive(m)));
    }
}

} // verus!
