//! The interface's loop, without the terminal: what a key does, how long
//! to wait for the next one, and when a tick has passed.

use vstd::prelude::*;
use crate::fleet::{App, AppView};

verus! {

/// Nanoseconds in a millisecond.
pub const NANOS_PER_MILLI: u128 = 1000000;

/// A key, as far as the interface tells keys apart.
#[derive(Debug, Clone, Copy, PartialEq, Eq)]
pub enum Key {
    Char(char),
    Up,
    Down,
    Left,
    Other,
}

/// What the terminal reported while the interface waited.
#[derive(Debug, Clone, Copy, PartialEq, Eq)]
pub enum Input {
    /// Nothing came before the wait was over.
    Idle,
    /// A key was pressed.
    Key(Key),
    /// Something else happened: the mouse, a resize.
    Other,
}

/// Whether the loop goes on.
#[derive(Debug, Clone, Copy, PartialEq, Eq)]
pub enum Control {
    Continue,
    Exit,
}

/// Only the key `q` ends the loop.
pub open spec fn control_of(input: Input) -> Control {
    if input == Input::Key(Key::Char('q')) {
        Control::Exit
    } else {
        Control::Continue
    }
}

/// The fleet after an input: `Up` selects the previous bot, `Down` the
/// next, `Left` clears the selection, and nothing else changes anything.
pub open spec fn after_input(app: AppView, input: Input) -> AppView {
    match input {
        Input::Key(Key::Up) => app.previous(),
        Input::Key(Key::Down) => app.next(),
        Input::Key(Key::Left) => app.unselect(),
        _ => app,
    }
}

/// How long to wait for input, in nanoseconds: what is left of the tick,
/// and nothing once the tick is over.
pub open spec fn timeout_of(rate: u64, elapsed: u128) -> int {
    if rate * NANOS_PER_MILLI >= elapsed {
        rate * NANOS_PER_MILLI - elapsed
    } else {
        0
    }
}

/// Acts on what the terminal reported and says whether the loop goes on.
pub fn handle_input(app: &mut App, input: Input) -> (control: Control)
    requires
        old(app).wf(),
    ensures
        control == control_of(input),
        final(app)@ == after_input(old(app)@, input),
        final(app).wf(),
{
    match input {
        Input::Key(key) => match key {
            Key::Char(c) => {
                if c == 'q' {
                    Control::Exit
                } else {
                    Control::Continue
                }
            },
            Key::Up => {
                app.previous();
                Control::Continue
            },
            Key::Down => {
                app.next();
                Control::Continue
            },
            Key::Left => {
                app.unselect();
                Control::Continue
            },
            Key::Other => Control::Continue,
        },
        Input::Idle => Control::Continue,
        Input::Other => Control::Continue,
    }
}

/// How long to wait for input, in nanoseconds, when the tick lasts `rate`
/// milliseconds and `elapsed` nanoseconds of it have passed.
pub fn poll_timeout(rate: u64, elapsed: u128) -> (timeout: u128)
    ensures
        timeout == timeout_of(rate, elapsed),
{
    let tick: u128 = rate as u128 * NANOS_PER_MILLI;
    if tick >= elapsed {
        tick - elapsed
    } else {
        0
    }
}

/// Whether a tick of `rate` milliseconds is over after `elapsed`
/// nanoseconds, so that the next one begins.
pub fn tick_due(rate: u64, elapsed: u128) -> (due: bool)
    ensures
        due <==> elapsed >= rate * NANOS_PER_MILLI,
{
    elapsed >= rate as u128 * NANOS_PER_MILLI
}

} // verus!
