use map_tests::game_time::{GameTime, SECONDS_PER_DAY};

#[test]
fn format_start_morning() {
    let t = GameTime::start_of_day_one_at(8, 0, 0);
    assert_eq!(t.format_label(), "Dzień 1 · 08:00:00");
}

#[test]
fn advance_hours_crosses_midnight() {
    let mut t = GameTime::start_of_day_one_at(23, 0, 0);
    t.advance_hours(2);
    assert_eq!(t.day, 2);
    assert_eq!(t.second_of_day, 3600);
}

#[test]
fn advance_wraps_day() {
    let mut t = GameTime {
        day: 1,
        second_of_day: SECONDS_PER_DAY as u32 - 2,
    };
    t.advance(5);
    assert_eq!(t.day, 2);
    assert_eq!(t.second_of_day, 3);
}

#[test]
fn advance_ignores_non_positive() {
    let mut t = GameTime::start_of_day_one_at(8, 0, 0);
    t.advance(0);
    assert_eq!(t, GameTime::start_of_day_one_at(8, 0, 0));
}

#[test]
fn hour_skip_is_capped_at_one_day() {
    let mut t = GameTime::start_of_day_one_at(8, 0, 0);
    t.advance_hours(30);
    assert_eq!(t.day, 2);
    assert_eq!(t.second_of_day, 8 * 3600);
}

#[test]
fn day_counter_saturates() {
    let mut t = GameTime {
        day: u32::MAX,
        second_of_day: 86_000,
    };
    t.advance(1_000);
    assert_eq!(t.day, u32::MAX);
    assert_eq!(t.second_of_day, 600);
}

#[test]
fn hour_skips_compose() {
    let mut a = GameTime::start_of_day_one_at(22, 30, 15);
    a.advance_hours(2);
    a.advance_hours(3);
    let mut b = GameTime::start_of_day_one_at(22, 30, 15);
    b.advance_hours(5);
    assert_eq!(a, b);
    assert_eq!(a.format_label(), "Dzień 2 · 03:30:15");
}

#[test]
fn label_pads_and_grows() {
    let t = GameTime {
        day: 123,
        second_of_day: 9 * 3600 + 5 * 60 + 7,
    };
    assert_eq!(t.format_label(), "Dzień 123 · 09:05:07");
    let late = GameTime {
        day: 7,
        second_of_day: 23 * 3600 + 59 * 60 + 59,
    };
    assert_eq!(late.format_label(), "Dzień 7 · 23:59:59");
}

#[test]
fn long_hitch_advances_one_day_at_most() {
    let mut t = GameTime::start_of_day_one_at(8, 0, 0);
    t.advance(10 * SECONDS_PER_DAY);
    assert_eq!(t.day, 2);
    assert_eq!(t.second_of_day, 8 * 3600);
    t.advance(u64::MAX);
    assert_eq!(t.day, 3);
    assert_eq!(t.second_of_day, 8 * 3600);
}

#[test]
fn last_second_of_the_day_stays_in_the_day() {
    let t = GameTime::start_of_day_one_at(23, 59, 59);
    assert_eq!(t.day, 1);
    assert_eq!(t.second_of_day as u64, SECONDS_PER_DAY - 1);
}

#[test]
fn minutes_past_sixty_still_within_the_day() {
    let t = GameTime::start_of_day_one_at(0, 100, 0);
    assert_eq!(t.day, 1);
    assert_eq!(t.second_of_day, 6000);
}
