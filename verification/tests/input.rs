use snake::geometry::UNIT;
use snake::input::{event_command, key_command};
use snake::{App, Command, Direction, InputEvent, Key, KeyKind, Outcome, Position};

fn heading(d: Direction) -> App {
    App::with_layout(Position::new(0, 0), d, Position::new(40 * UNIT, 40 * UNIT))
        .expect("head and food lie in the field")
}

fn press(code: Key) -> InputEvent {
    InputEvent::Key { code, kind: KeyKind::Press }
}

#[test]
fn each_key_stands_for_its_command() {
    assert_eq!(key_command(Key::Char('q')), Some(Command::Quit));
    assert_eq!(key_command(Key::Down), Some(Command::MoveDown));
    assert_eq!(key_command(Key::Up), Some(Command::MoveUp));
    assert_eq!(key_command(Key::Right), Some(Command::MoveRight));
    assert_eq!(key_command(Key::Left), Some(Command::MoveLeft));
    assert_eq!(key_command(Key::Esc), Some(Command::TogglePause));
    assert_eq!(key_command(Key::Enter), Some(Command::Restart));
    assert_eq!(key_command(Key::Tab), Some(Command::ToggleAutoplay));
}

#[test]
fn other_keys_stand_for_nothing() {
    assert_eq!(key_command(Key::Other), None);
    assert_eq!(key_command(Key::Char('Q')), None);
    assert_eq!(key_command(Key::Char('A')), None);
    assert_eq!(key_command(Key::Char('a')), None);
    assert_eq!(key_command(Key::Char('x')), None);
    assert_eq!(key_command(Key::Char(' ')), None);
}

#[test]
fn only_a_press_counts() {
    assert_eq!(event_command(press(Key::Up)), Some(Command::MoveUp));
    assert_eq!(event_command(InputEvent::Key { code: Key::Up, kind: KeyKind::Release }), None);
    assert_eq!(event_command(InputEvent::Key { code: Key::Up, kind: KeyKind::Repeat }), None);
    assert_eq!(event_command(InputEvent::Other), None);
    assert_eq!(event_command(press(Key::Other)), None);
}

#[test]
fn reversal_is_ignored_for_all_four_pairs() {
    let pairs = [
        (Direction::Right, Key::Left),
        (Direction::Left, Key::Right),
        (Direction::Up, Key::Down),
        (Direction::Down, Key::Up),
    ];
    for (current, key) in pairs {
        let mut app = heading(current);
        app.append_segment();
        let before_dirs = app.directions().clone();
        let before_segs = app.segments().clone();
        assert_eq!(app.handle_key_event(key), Outcome::Continue);
        assert_eq!(app.heading(), current);
        assert_eq!(app.directions(), &before_dirs);
        assert_eq!(app.segments(), &before_segs);
        assert_eq!(app.handle_key_event(key), Outcome::Continue);
        assert_eq!(app.heading(), current);
    }
}

#[test]
fn reversal_methods_leave_the_heading() {
    let mut app = heading(Direction::Right);
    app.left();
    assert_eq!(app.heading(), Direction::Right);
    let mut app = heading(Direction::Left);
    app.right();
    assert_eq!(app.heading(), Direction::Left);
    let mut app = heading(Direction::Up);
    app.down();
    assert_eq!(app.heading(), Direction::Up);
    let mut app = heading(Direction::Down);
    app.up();
    assert_eq!(app.heading(), Direction::Down);
}

#[test]
fn any_other_turn_is_taken_at_once() {
    let all = [Direction::Right, Direction::Left, Direction::Up, Direction::Down];
    let keys = [Key::Right, Key::Left, Key::Up, Key::Down];
    for current in all {
        for (wanted, key) in all.into_iter().zip(keys) {
            let mut app = heading(current);
            app.handle_key_event(key);
            if wanted == current.reversed() {
                assert_eq!(app.heading(), current);
            } else {
                assert_eq!(app.heading(), wanted);
            }
            assert_eq!(app.head(), Position::new(0, 0));
        }
    }
}

#[test]
fn a_turn_touches_only_the_head_heading() {
    let mut app = heading(Direction::Right);
    app.append_segment();
    app.append_segment();
    app.up();
    assert_eq!(
        app.directions().as_slice(),
        &[Direction::Up, Direction::Right, Direction::Right]
    );
    assert_eq!(app.segments().as_slice(), &[Position::new(-UNIT, 0), Position::new(-2 * UNIT, 0)]);
}

#[test]
fn escape_flips_the_pause_switch() {
    let mut app = App::new();
    assert_eq!(app.handle_key_event(Key::Esc), Outcome::Continue);
    assert!(app.is_paused());
    assert_eq!(app.handle_key_event(Key::Esc), Outcome::Continue);
    assert!(!app.is_paused());
    app.pause();
    assert!(app.is_paused());
}

#[test]
fn tab_flips_the_autoplay_switch() {
    let mut app = App::new();
    app.handle_key_event(Key::Tab);
    assert!(app.is_auto());
    app.handle_key_event(Key::Tab);
    assert!(!app.is_auto());
    app.auto();
    assert!(app.is_auto());
}

#[test]
fn q_quits_from_any_state() {
    let mut app = App::new();
    assert!(!app.should_exit());
    app.handle_key_event(Key::Char('q'));
    assert!(app.should_exit());

    let mut paused = App::new();
    paused.pause();
    paused.handle_key_event(Key::Char('q'));
    assert!(paused.should_exit());

    let mut dead = App::with_layout(
        Position::new(0, 45 * UNIT),
        Direction::Up,
        Position::new(0, 0),
    )
    .expect("head and food lie in the field");
    dead.update();
    dead.update();
    assert!(dead.is_dead());
    dead.handle_key_event(Key::Char('q'));
    assert!(dead.should_exit());
    dead.exit();
    assert!(dead.should_exit());
}

#[test]
fn no_key_grows_the_chain() {
    let mut app = heading(Direction::Up);
    let keys = [
        Key::Char('a'),
        Key::Char('q'),
        Key::Down,
        Key::Up,
        Key::Right,
        Key::Left,
        Key::Esc,
        Key::Enter,
        Key::Tab,
        Key::Other,
    ];
    for key in keys {
        app.handle_key_event(key);
        assert_eq!(app.length(), 0);
        assert_eq!(app.directions().len(), 1);
    }
    app.append_segment();
    let segments = app.segments().clone();
    assert_eq!(segments.len(), 1);
    for key in keys {
        app.handle_key_event(key);
        assert_eq!(app.segments(), &segments);
        assert_eq!(app.directions().len(), 2);
    }
}

#[test]
fn unknown_keys_change_nothing() {
    let mut app = heading(Direction::Left);
    app.append_segment();
    for key in [Key::Other, Key::Char('z'), Key::Char('Q'), Key::Char('a'), Key::Char('x')] {
        assert_eq!(app.handle_key_event(key), Outcome::Continue);
    }
    assert_eq!(app.heading(), Direction::Left);
    assert_eq!(app.length(), 1);
    assert!(!app.is_paused() && !app.is_auto() && !app.should_exit() && !app.is_dead());
}

#[test]
fn events_that_are_no_press_change_nothing() {
    let mut app = heading(Direction::Right);
    let ignored = [
        InputEvent::Other,
        InputEvent::Key { code: Key::Up, kind: KeyKind::Release },
        InputEvent::Key { code: Key::Up, kind: KeyKind::Repeat },
        InputEvent::Key { code: Key::Char('q'), kind: KeyKind::Release },
        InputEvent::Key { code: Key::Esc, kind: KeyKind::Repeat },
    ];
    for event in ignored {
        assert_eq!(app.handle_events(event), Outcome::Continue);
    }
    assert_eq!(app.heading(), Direction::Right);
    assert!(!app.should_exit());
    assert!(!app.is_paused());
    assert_eq!(app.handle_events(press(Key::Up)), Outcome::Continue);
    assert_eq!(app.heading(), Direction::Up);
}

#[test]
fn enter_on_a_dead_game_asks_to_store_the_best_score() {
    let mut app = App::with_layout(
        Position::new(-90 * UNIT, 0),
        Direction::Left,
        Position::new(0, 0),
    )
    .expect("head and food lie in the field");
    app.update();
    app.update();
    assert!(app.is_dead());
    app.score = 100;
    app.highscore = 900;
    assert_eq!(app.best(), 900);
    assert_eq!(app.handle_events(press(Key::Enter)), Outcome::Persist { highscore: 900 });
    assert_eq!(app.command(Command::Restart), Outcome::Persist { highscore: 900 });
    assert!(app.is_dead());
    assert_eq!(app.score, 100);
    app.score = 901;
    assert_eq!(app.handle_key_event(Key::Enter), Outcome::Persist { highscore: 901 });
    assert_eq!(
        app.handle_events(InputEvent::Key { code: Key::Enter, kind: KeyKind::Release }),
        Outcome::Continue
    );
}

#[test]
fn commands_do_what_their_keys_do() {
    let mut app = heading(Direction::Right);
    assert_eq!(app.command(Command::MoveUp), Outcome::Continue);
    assert_eq!(app.heading(), Direction::Up);
    app.command(Command::MoveLeft);
    assert_eq!(app.heading(), Direction::Left);
    app.command(Command::MoveDown);
    assert_eq!(app.heading(), Direction::Down);
    app.command(Command::MoveRight);
    assert_eq!(app.heading(), Direction::Right);
    app.command(Command::TogglePause);
    assert!(app.is_paused());
    app.command(Command::ToggleAutoplay);
    assert!(app.is_auto());
    assert_eq!(app.length(), 0);
    assert_eq!(app.command(Command::Restart), Outcome::Continue);
    app.command(Command::Quit);
    assert!(app.should_exit());
}
