use pomodoros::command_for;
use pomodoros::control::FRAME_INTERVAL_MILLIS;
use pomodoros::frame_due;
use pomodoros::Command;
use pomodoros::Key;
use pomodoros::KeyStroke;
use pomodoros::Phase;
use pomodoros::PomodoroApp;
use pomodoros::PomodoroConfig;
use pomodoros::Span;
use pomodoros::Turn;

fn press(key: Key) -> KeyStroke {
    KeyStroke { key, control: false, pressed: true }
}

fn press_with_control(key: Key) -> KeyStroke {
    KeyStroke { key, control: true, pressed: true }
}

fn timer() -> PomodoroApp {
    let config = PomodoroConfig {
        focus: Span::from_secs(10),
        short_break: Span::from_secs(2),
        long_break: Span::from_secs(5),
        long_every: 2,
        mute: false,
    };
    PomodoroApp::new(config, Span::zero())
}

#[test]
fn quit_keys() {
    assert_eq!(command_for(press(Key::Char('q'))), Some(Command::Quit));
    assert_eq!(command_for(press_with_control(Key::Char('q'))), Some(Command::Quit));
    assert_eq!(command_for(press(Key::Esc)), Some(Command::Quit));
    assert_eq!(command_for(press_with_control(Key::Esc)), Some(Command::Quit));
    assert_eq!(command_for(press_with_control(Key::Char('c'))), Some(Command::Quit));
}

#[test]
fn plain_c_is_not_bound() {
    assert_eq!(command_for(press(Key::Char('c'))), None);
}

#[test]
fn timer_keys() {
    assert_eq!(command_for(press(Key::Char(' '))), Some(Command::Toggle));
    assert_eq!(command_for(press(Key::Char('n'))), Some(Command::Skip));
    assert_eq!(command_for(press(Key::Right)), Some(Command::Skip));
    assert_eq!(command_for(press(Key::Char('r'))), Some(Command::Reset));
}

#[test]
fn timer_keys_with_control_held() {
    assert_eq!(command_for(press_with_control(Key::Char(' '))), Some(Command::Toggle));
    assert_eq!(command_for(press_with_control(Key::Char('n'))), Some(Command::Skip));
    assert_eq!(command_for(press_with_control(Key::Right)), Some(Command::Skip));
    assert_eq!(command_for(press_with_control(Key::Char('r'))), Some(Command::Reset));
}

#[test]
fn bindings_are_case_sensitive() {
    assert_eq!(command_for(press(Key::Char('Q'))), None);
    assert_eq!(command_for(press(Key::Char('N'))), None);
    assert_eq!(command_for(press(Key::Char('R'))), None);
    assert_eq!(command_for(press_with_control(Key::Char('C'))), None);
}

#[test]
fn other_keys_are_ignored() {
    assert_eq!(command_for(press(Key::Other)), None);
    assert_eq!(command_for(press_with_control(Key::Other)), None);
    assert_eq!(command_for(press(Key::Char('x'))), None);
    assert_eq!(command_for(press(Key::Char('1'))), None);
    assert_eq!(command_for(press(Key::Char('\n'))), None);
}

#[test]
fn only_presses_count() {
    let keys = [Key::Char('q'), Key::Esc, Key::Char(' '), Key::Char('n'), Key::Right, Key::Char('r'), Key::Char('c')];
    for key in keys {
        assert_eq!(command_for(KeyStroke { key, control: false, pressed: false }), None);
        assert_eq!(command_for(KeyStroke { key, control: true, pressed: false }), None);
    }
}

#[test]
fn dispatch_carries_out_one_command() {
    let mut app = timer();
    assert!(!app.dispatch(Command::Toggle));
    assert!(app.is_running());
    app.update(Span::from_secs(3));
    assert!(!app.dispatch(Command::Reset));
    assert_eq!(app.remaining(), Span::from_secs(10));
    assert_eq!(app.phase(), Phase::Focus);
    assert!(!app.dispatch(Command::Skip));
    assert_eq!(app.phase(), Phase::ShortBreak);
    assert_eq!(app.remaining(), Span::from_secs(2));
    assert_eq!(app.completed_focus(), 0);
}

#[test]
fn dispatch_of_quit_leaves_the_timer_alone() {
    let mut app = timer();
    app.toggle();
    app.update(Span::from_secs(3));
    assert!(app.dispatch(Command::Quit));
    assert!(app.is_running());
    assert_eq!(app.phase(), Phase::Focus);
    assert_eq!(app.remaining(), Span::from_secs(7));
    assert_eq!(app.last_tick(), Span::from_secs(3));
}

#[test]
fn turn_without_input_still_updates() {
    let mut app = timer();
    app.toggle();
    assert_eq!(app.turn(None, Span::from_secs(4)), Turn::Continue { ring: false });
    assert_eq!(app.remaining(), Span::from_secs(6));
    assert_eq!(app.turn(None, Span::from_secs(10)), Turn::Continue { ring: true });
    assert_eq!(app.phase(), Phase::ShortBreak);
    assert_eq!(app.completed_focus(), 1);
}

#[test]
fn turn_with_an_unbound_key_still_updates() {
    let mut app = timer();
    app.toggle();
    let outcome = app.turn(Some(press(Key::Char('x'))), Span::from_secs(4));
    assert_eq!(outcome, Turn::Continue { ring: false });
    assert_eq!(app.remaining(), Span::from_secs(6));
    let outcome = app.turn(Some(KeyStroke { key: Key::Char('q'), control: false, pressed: false }), Span::from_secs(5));
    assert_eq!(outcome, Turn::Continue { ring: false });
    assert_eq!(app.remaining(), Span::from_secs(5));
}

#[test]
fn turn_dispatches_before_it_updates() {
    let mut app = timer();
    let outcome = app.turn(Some(press(Key::Char(' '))), Span::from_secs(4));
    assert_eq!(outcome, Turn::Continue { ring: false });
    assert!(app.is_running());
    assert_eq!(app.remaining(), Span::from_secs(6));

    let outcome = app.turn(Some(press(Key::Char('r'))), Span::from_secs(5));
    assert_eq!(outcome, Turn::Continue { ring: false });
    assert_eq!(app.remaining(), Span::from_secs(9));

    let outcome = app.turn(Some(press(Key::Right)), Span::from_secs(6));
    assert_eq!(outcome, Turn::Continue { ring: false });
    assert_eq!(app.phase(), Phase::ShortBreak);
    assert_eq!(app.remaining(), Span::from_secs(1));

    let outcome = app.turn(Some(press(Key::Char(' '))), Span::from_secs(60));
    assert_eq!(outcome, Turn::Continue { ring: false });
    assert!(!app.is_running());
    assert_eq!(app.remaining(), Span::from_secs(1));
    assert_eq!(app.last_tick(), Span::from_secs(60));
}

#[test]
fn turn_on_quit_neither_updates_nor_rings() {
    let mut app = timer();
    app.toggle();
    let outcome = app.turn(Some(press(Key::Char('q'))), Span::from_secs(100));
    assert_eq!(outcome, Turn::Quit);
    assert_eq!(app.remaining(), Span::from_secs(10));
    assert_eq!(app.phase(), Phase::Focus);
    assert_eq!(app.last_tick(), Span::zero());
    assert_eq!(app.completed_focus(), 0);
    assert_eq!(app.turn(Some(press(Key::Esc)), Span::from_secs(100)), Turn::Quit);
    assert_eq!(app.turn(Some(press_with_control(Key::Char('c'))), Span::from_secs(100)), Turn::Quit);
    assert_eq!(app.last_tick(), Span::zero());
}

#[test]
fn turn_fits_on_a_fresh_timer() {
    let app = timer();
    assert!(app.turn_fits(None, Span::from_secs(100)));
    assert!(app.turn_fits(Some(press(Key::Char(' '))), Span::from_secs(100)));
    assert!(app.turn_fits(Some(press(Key::Char('q'))), Span::from_secs(100)));
    assert_eq!(app.remaining(), Span::from_secs(10));
    assert!(!app.is_running());
}

#[test]
fn frame_is_due_after_sixteen_milliseconds() {
    assert_eq!(FRAME_INTERVAL_MILLIS, 16);
    assert!(!frame_due(Span::zero()));
    assert!(!frame_due(Span::from_millis(15)));
    assert!(!frame_due(Span::from_nanos(15_999_999)));
    assert!(frame_due(Span::from_millis(16)));
    assert!(frame_due(Span::from_nanos(16_000_001)));
    assert!(frame_due(Span::from_millis(200)));
}
