use minecraft_bots::input::{handle_input, poll_timeout, tick_due, Control, Input, Key};
use minecraft_bots::App;

fn started(count: usize) -> App {
    let mut app = App::new();
    app.register_fleet("bot", count);
    app
}

#[test]
fn q_ends_the_loop() {
    let mut app = started(3);
    assert_eq!(handle_input(&mut app, Input::Key(Key::Char('q'))), Control::Exit);
    assert_eq!(app.selected(), None);
}

#[test]
fn other_characters_do_nothing() {
    let mut app = started(3);
    app.next();
    for c in ['Q', 'a', ' ', 'w', '\n'] {
        assert_eq!(handle_input(&mut app, Input::Key(Key::Char(c))), Control::Continue);
        assert_eq!(app.selected(), Some(0));
    }
}

#[test]
fn arrows_move_the_selection() {
    let mut app = started(3);
    let mut seen = Vec::new();
    for _ in 0..4 {
        assert_eq!(handle_input(&mut app, Input::Key(Key::Down)), Control::Continue);
        seen.push(app.selected());
    }
    assert_eq!(seen, vec![Some(0), Some(1), Some(2), Some(0)]);
    assert_eq!(handle_input(&mut app, Input::Key(Key::Up)), Control::Continue);
    assert_eq!(app.selected(), Some(2));
    assert_eq!(handle_input(&mut app, Input::Key(Key::Left)), Control::Continue);
    assert_eq!(app.selected(), None);
    assert_eq!(handle_input(&mut app, Input::Key(Key::Up)), Control::Continue);
    assert_eq!(app.selected(), Some(0));
}

#[test]
fn what_is_no_key_is_ignored() {
    let mut app = started(2);
    app.next();
    app.next();
    for input in [Input::Idle, Input::Other, Input::Key(Key::Other)] {
        assert_eq!(handle_input(&mut app, input), Control::Continue);
        assert_eq!(app.selected(), Some(1));
    }
}

#[test]
fn timeout_is_what_is_left_of_the_tick() {
    assert_eq!(poll_timeout(250, 0), 250_000_000);
    assert_eq!(poll_timeout(250, 100_700_000), 149_300_000);
    assert_eq!(poll_timeout(250, 249_999_999), 1);
    assert_eq!(poll_timeout(250, 250_000_000), 0);
    assert_eq!(poll_timeout(250, 300_000_000), 0);
    assert_eq!(poll_timeout(0, 0), 0);
    assert_eq!(poll_timeout(0, 5), 0);
    assert_eq!(poll_timeout(u64::MAX, 1), u64::MAX as u128 * 1_000_000 - 1);
    assert_eq!(poll_timeout(1, u128::MAX), 0);
}

#[test]
fn a_tick_is_over_when_its_time_has_passed() {
    assert!(!tick_due(250, 0));
    assert!(!tick_due(250, 249_999_999));
    assert!(tick_due(250, 250_000_000));
    assert!(tick_due(250, 250_000_001));
    assert!(tick_due(0, 0));
    assert!(!tick_due(u64::MAX, u64::MAX as u128));
    assert!(tick_due(u64::MAX, u128::MAX));
}
