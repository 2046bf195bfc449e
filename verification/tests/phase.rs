use pomodoros::Accent;
use pomodoros::Phase;

#[test]
fn names_of_the_phases() {
    assert_eq!(Phase::Focus.name(), "Focus");
    assert_eq!(Phase::ShortBreak.name(), "Short Break");
    assert_eq!(Phase::LongBreak.name(), "Long Break");
}

#[test]
fn colours_of_the_phases() {
    assert_eq!(Phase::Focus.color(), Accent::LightGreen);
    assert_eq!(Phase::ShortBreak.color(), Accent::Cyan);
    assert_eq!(Phase::LongBreak.color(), Accent::Magenta);
}

#[test]
fn skip_cycle() {
    assert_eq!(Phase::Focus.after_skip(), Phase::ShortBreak);
    assert_eq!(Phase::ShortBreak.after_skip(), Phase::Focus);
    assert_eq!(Phase::LongBreak.after_skip(), Phase::Focus);
}

#[test]
fn focus_completion_picks_the_break_by_the_count() {
    assert_eq!(Phase::Focus.after_completion(1, 4), Phase::ShortBreak);
    assert_eq!(Phase::Focus.after_completion(2, 4), Phase::ShortBreak);
    assert_eq!(Phase::Focus.after_completion(3, 4), Phase::ShortBreak);
    assert_eq!(Phase::Focus.after_completion(4, 4), Phase::LongBreak);
    assert_eq!(Phase::Focus.after_completion(5, 4), Phase::ShortBreak);
    assert_eq!(Phase::Focus.after_completion(8, 4), Phase::LongBreak);
    assert_eq!(Phase::Focus.after_completion(1, 2), Phase::ShortBreak);
    assert_eq!(Phase::Focus.after_completion(2, 2), Phase::LongBreak);
    assert_eq!(Phase::Focus.after_completion(u32::MAX, 5), Phase::LongBreak);
    assert_eq!(Phase::Focus.after_completion(u32::MAX, 2), Phase::ShortBreak);
}

#[test]
fn every_session_earns_a_long_break_when_the_interval_is_one() {
    assert_eq!(Phase::Focus.after_completion(1, 1), Phase::LongBreak);
    assert_eq!(Phase::Focus.after_completion(2, 1), Phase::LongBreak);
    assert_eq!(Phase::Focus.after_completion(7, 1), Phase::LongBreak);
}

#[test]
fn break_completion_leads_to_focus() {
    assert_eq!(Phase::ShortBreak.after_completion(0, 4), Phase::Focus);
    assert_eq!(Phase::ShortBreak.after_completion(4, 4), Phase::Focus);
    assert_eq!(Phase::LongBreak.after_completion(4, 4), Phase::Focus);
    assert_eq!(Phase::LongBreak.after_completion(3, 1), Phase::Focus);
}
