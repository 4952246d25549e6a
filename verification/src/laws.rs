//! What holds of the fleet whatever the configuration, the messages and the
//! keys are.

use vstd::prelude::*;
use crate::fleet::{fleet, username_of, AppView, BotStateView, BotView, MessageView};
use crate::text::{decimal, lemma_decimal_injective};

verus! {

/// Under one prefix, bots of different numbers have different names.
pub proof fn law_usernames_distinct(prefix: Seq<char>, i: nat, j: nat)
    requires
        username_of(prefix, i) == username_of(prefix, j),
    ensures
        i == j,
{
    let a = username_of(prefix, i);
    let b = username_of(prefix, j);
    assert(a.subrange(prefix.len() as int + 1, a.len() as int) =~= decimal(i));
    assert(b.subrange(prefix.len() as int + 1, b.len() as int) =~= decimal(j));
    lemma_decimal_injective(i, j);
}

/// Registering a fleet whose names are all free appends exactly the bots
/// numbered 1 to `count`, in that order, each connecting and without chat;
/// it keeps the selection and the invariant.
pub proof fn law_register_fleet(app: AppView, prefix: Seq<char>, count: nat)
    requires
        app.wf(),
        forall|k: nat| 1 <= k <= count ==> !app.knows(#[trigger] username_of(prefix, k)),
    ensures
        app.register_fleet(prefix, count).bots == app.bots + fleet(prefix, count),
        app.register_fleet(prefix, count).selection == app.selection,
        app.register_fleet(prefix, count).wf(),
    decreases count,
{
    if count > 0 {
        let shorter = (count - 1) as nat;
        law_register_fleet(app, prefix, shorter);
        let before = app.register_fleet(prefix, shorter);
        let name = username_of(prefix, count);
        assert(!before.knows(name)) by {
            if before.knows(name) {
                let i = before.index_of(name);
                if i >= app.bots.len() {
                    law_usernames_distinct(prefix, (i - app.bots.len() + 1) as nat, count);
                }
            }
        }
    }
}

/// Startup: after the bots numbered 1 to `count` are registered on a fleet
/// without bots, the fleet holds exactly these bots, in that order, each
/// connecting and without chat, and nothing is selected.
pub proof fn law_startup(prefix: Seq<char>, count: nat)
    ensures
        AppView::empty().register_fleet(prefix, count).bots == fleet(prefix, count),
        AppView::empty().register_fleet(prefix, count).bots.len() == count,
        AppView::empty().register_fleet(prefix, count).selection is None,
        AppView::empty().register_fleet(prefix, count).wf(),
{
    law_register_fleet(AppView::empty(), prefix, count);
}

/// Every message of the sequence names a registered bot.
pub open spec fn all_known(app: AppView, messages: Seq<MessageView>) -> bool {
    forall|t: int| 0 <= t < messages.len() ==> app.knows(#[trigger] messages[t].username())
}

/// At most one message of the sequence ends the session of that bot.
pub open spec fn ends_once(messages: Seq<MessageView>, username: Seq<char>) -> bool {
    forall|s: int, t: int|
        0 <= s < t < messages.len() && (#[trigger] messages[s]).is_terminal()
            && messages[s].username() == username && (#[trigger] messages[t]).username()
            == username ==> !messages[t].is_terminal()
}

/// The fleet after the first `t` messages of the sequence.
pub open spec fn fleet_at(app: AppView, messages: Seq<MessageView>, t: int) -> AppView {
    app.run(messages.take(t))
}

/// One message changes one bot and nothing else: the bots keep their
/// number, order and names, the selection and the invariant stay, the bot
/// that the message names has received it, and every other bot is as it
/// was. No bot goes back in its session, and no chat loses an entry.
pub proof fn law_apply(app: AppView, message: MessageView)
    requires
        app.wf(),
        app.knows(message.username()),
    ensures
        app.apply(message).wf(),
        app.apply(message).selection == app.selection,
        app.apply(message).bots.len() == app.bots.len(),
        forall|k: int|
            0 <= k < app.bots.len() ==> {
                let (was, now) = (app.bots[k], #[trigger] app.apply(message).bots[k]);
                &&& now.username == was.username
                &&& was.username == message.username() ==> now == was.receive(message)
                &&& was.username != message.username() ==> now == was
                &&& was.state.phase() <= now.state.phase()
                &&& was.chat.is_prefix_of(now.chat)
            },
        forall|name: Seq<char>| app.knows(name) <==> #[trigger] app.apply(message).knows(name),
{
    let next = app.apply(message);
    assert forall|name: Seq<char>| app.knows(name) implies #[trigger] next.knows(name) by {
        assert(next.bots[app.index_of(name)].username == name);
    }
}

/// A sequence of messages about registered bots keeps the bots' number,
/// order and names, the selection and the invariant.
pub proof fn law_run(app: AppView, messages: Seq<MessageView>)
    requires
        app.wf(),
        all_known(app, messages),
    ensures
        app.run(messages).wf(),
        app.run(messages).selection == app.selection,
        app.run(messages).bots.len() == app.bots.len(),
        forall|k: int|
            0 <= k < app.bots.len() ==> (#[trigger] app.run(messages).bots[k]).username
                == app.bots[k].username,
        forall|name: Seq<char>| app.knows(name) <==> #[trigger] app.run(messages).knows(name),
    decreases messages.len(),
{
    if messages.len() > 0 {
        law_run(app, messages.drop_last());
        law_apply(app.run(messages.drop_last()), messages.last());
    }
}

/// The step from one point of a run to the next is one message.
proof fn lemma_fleet_step(app: AppView, messages: Seq<MessageView>, t: int)
    requires
        app.wf(),
        all_known(app, messages),
        0 <= t < messages.len(),
    ensures
        fleet_at(app, messages, t + 1) == fleet_at(app, messages, t).apply(messages[t]),
        fleet_at(app, messages, t).wf(),
        fleet_at(app, messages, t).knows(messages[t].username()),
        fleet_at(app, messages, t).bots.len() == app.bots.len(),
        forall|k: int|
            0 <= k < app.bots.len() ==> (#[trigger] fleet_at(app, messages, t).bots[k]).username
                == app.bots[k].username,
{
    assert(messages.take(t + 1).drop_last() =~= messages.take(t));
    law_run(app, messages.take(t));
}

/// The chat of a bot only grows: at any two points of a run, what the bot
/// had at the earlier one is the front of what it has at the later one.
pub proof fn law_chat_grows(app: AppView, messages: Seq<MessageView>, s: int, t: int, k: int)
    requires
        app.wf(),
        all_known(app, messages),
        0 <= s <= t <= messages.len(),
        0 <= k < app.bots.len(),
    ensures
        fleet_at(app, messages, s).bots[k].chat.is_prefix_of(
            fleet_at(app, messages, t).bots[k].chat,
        ),
    decreases t - s,
{
    if s < t {
        law_chat_grows(app, messages, s, t - 1, k);
        lemma_fleet_step(app, messages, t - 1);
        law_apply(fleet_at(app, messages, t - 1), messages[t - 1]);
    }
}

/// No bot goes back in its session: between any two points of a run its
/// state stays in its phase or moves to a later one. A bot that has left or
/// failed is never seen connecting or joined again.
pub proof fn law_states_advance(app: AppView, messages: Seq<MessageView>, s: int, t: int, k: int)
    requires
        app.wf(),
        all_known(app, messages),
        0 <= s <= t <= messages.len(),
        0 <= k < app.bots.len(),
    ensures
        fleet_at(app, messages, s).bots[k].state.phase() <= fleet_at(
            app,
            messages,
            t,
        ).bots[k].state.phase(),
    decreases t - s,
{
    if s < t {
        law_states_advance(app, messages, s, t - 1, k);
        lemma_fleet_step(app, messages, t - 1);
        law_apply(fleet_at(app, messages, t - 1), messages[t - 1]);
    }
}

/// A bot whose session has ended at some point of a run has had a message
/// that ended it.
proof fn lemma_ended_by_message(app: AppView, messages: Seq<MessageView>, t: int, k: int)
    requires
        app.wf(),
        all_known(app, messages),
        0 <= t <= messages.len(),
        0 <= k < app.bots.len(),
        !app.bots[k].state.is_terminal(),
        fleet_at(app, messages, t).bots[k].state.is_terminal(),
    ensures
        exists|u: int|
            0 <= u < t && (#[trigger] messages[u]).is_terminal() && messages[u].username()
                == app.bots[k].username,
    decreases t,
{
    if t > 0 {
        lemma_fleet_step(app, messages, t - 1);
        law_apply(fleet_at(app, messages, t - 1), messages[t - 1]);
        if fleet_at(app, messages, t - 1).bots[k].state.is_terminal() {
            lemma_ended_by_message(app, messages, t - 1, k);
        } else {
            assert(messages[t - 1].is_terminal() && messages[t - 1].username()
                == app.bots[k].username);
        }
    }
}

/// The life of a bot: where at most one message ends its session, the
/// states seen of a bot that starts connecting are `Connecting`, then
/// perhaps `Joined`, then perhaps one of `Left` and `Error`, in that order,
/// and the state in which the session ended stays.
pub proof fn law_lifecycle(app: AppView, messages: Seq<MessageView>, s: int, t: int, k: int)
    requires
        app.wf(),
        all_known(app, messages),
        0 <= s <= t <= messages.len(),
        0 <= k < app.bots.len(),
        app.bots[k].state is Connecting,
        ends_once(messages, app.bots[k].username),
    ensures
        fleet_at(app, messages, 0).bots[k].state is Connecting,
        fleet_at(app, messages, s).bots[k].state.leads_to(fleet_at(app, messages, t).bots[k].state),
    decreases t - s,
{
    law_states_advance(app, messages, s, t, k);
    if s < t {
        law_lifecycle(app, messages, s, t - 1, k);
        lemma_fleet_step(app, messages, t - 1);
        let before = fleet_at(app, messages, t - 1);
        law_apply(before, messages[t - 1]);
        if before.bots[k].state.is_terminal() && messages[t - 1].username()
            == app.bots[k].username && messages[t - 1].is_terminal() {
            lemma_ended_by_message(app, messages, t - 1, k);
        }
    }
}

/// The fleet after `times` moves of the selection down.
pub open spec fn next_times(app: AppView, times: nat) -> AppView
    decreases times,
{
    if times == 0 {
        app
    } else {
        next_times(app, (times - 1) as nat).next()
    }
}

/// Where the selection stands after `times` moves down from a selected bot.
proof fn lemma_next_times(app: AppView, times: nat)
    requires
        app.wf(),
        app.selection is Some,
        times <= app.bots.len(),
    ensures
        next_times(app, times) == (AppView {
            selection: Some(
                if app.selection->0 + times < app.bots.len() {
                    app.selection->0 + times
                } else {
                    app.selection->0 + times - app.bots.len()
                },
            ),
            ..app
        }),
    decreases times,
{
    if times > 0 {
        lemma_next_times(app, (times - 1) as nat);
    }
}

/// Moving the selection down as many times as there are bots comes back to
/// the bot that was selected. (From no selection the first move selects the
/// first bot, so with bots the moves cannot come back to no selection.)
pub proof fn law_next_cycle(app: AppView)
    requires
        app.wf(),
        app.selection is Some || app.bots.len() == 0,
    ensures
        next_times(app, app.bots.len()) == app,
{
    if app.selection is Some {
        lemma_next_times(app, app.bots.len());
    }
}

/// With at least one bot, clearing the selection and moving down selects
/// the first bot.
pub proof fn law_unselect_next(app: AppView)
    requires
        app.bots.len() >= 1,
    ensures
        app.unselect().next().selection == Some(0int),
        app.unselect().next().bots == app.bots,
{
}

/// With a single bot every move selects that bot, so a selection that
/// stands on it does not change.
pub proof fn law_single_bot(app: AppView)
    requires
        app.wf(),
        app.bots.len() == 1,
    ensures
        app.next().selection == Some(0int),
        app.previous().selection == Some(0int),
        app.selection is Some ==> app.next() == app && app.previous() == app,
{
}

/// Without bots the moves change nothing.
pub proof fn law_no_bots(app: AppView)
    requires
        app.wf(),
        app.bots.len() == 0,
    ensures
        app.next() == app,
        app.previous() == app,
        app.unselect() == app,
{
}

/// The moves keep the selection within the bots.
pub proof fn law_selection_in_range(app: AppView)
    requires
        app.wf(),
    ensures
        app.next().wf(),
        app.previous().wf(),
        app.unselect().wf(),
        app.next().bots == app.bots,
        app.previous().bots == app.bots,
        app.unselect().bots == app.bots,
{
}

} // verus!
