use map_tests::game_loop::{effective_time_scale, GameLoop, DEFAULT_TIME_SCALE, SPEED_MULTIPLIERS};
use map_tests::game_time::GameTime;

#[test]
fn tick_advances_when_running() {
    let mut loop_ = GameLoop::new();
    let before = loop_.time().second_of_day;
    loop_.tick_game_seconds(DEFAULT_TIME_SCALE as u64);
    assert_eq!(loop_.time().second_of_day, before + DEFAULT_TIME_SCALE);
}

#[test]
fn tick_noop_when_paused() {
    let mut loop_ = GameLoop::new();
    loop_.toggle_pause();
    let before = loop_.time();
    loop_.tick_game_seconds(DEFAULT_TIME_SCALE as u64);
    assert_eq!(loop_.time(), before);
}

#[test]
fn set_speed_unpauses() {
    let mut loop_ = GameLoop::new();
    loop_.toggle_pause();
    loop_.set_speed(10);
    assert!(!loop_.paused());
    assert_eq!(loop_.speed_mult(), 10);
}

#[test]
fn skip_hours_bypasses_pause() {
    let mut loop_ = GameLoop::new();
    loop_.toggle_pause();
    loop_.skip_hours(1);
    assert_eq!(loop_.time().second_of_day, 8 * 3600 + 3600);
}

#[test]
fn reset_time_returns_to_day_one() {
    let mut loop_ = GameLoop::new();
    loop_.skip_hours(30);
    assert!(loop_.time().day > 1);
    loop_.reset_time();
    assert_eq!(loop_.time(), GameTime::start_of_day_one_at(8, 0, 0));
}

#[test]
fn toggling_pause_twice_restores_playback() {
    let mut loop_ = GameLoop::default();
    loop_.toggle_pause();
    loop_.toggle_pause();
    assert!(!loop_.paused());
    loop_.tick_game_seconds(120);
    assert_eq!(loop_.time().second_of_day, 8 * 3600 + 120);
}

#[test]
fn time_scale_per_speed() {
    assert_eq!(effective_time_scale(false, SPEED_MULTIPLIERS[0]), 60);
    assert_eq!(effective_time_scale(false, SPEED_MULTIPLIERS[1]), 600);
    assert_eq!(effective_time_scale(false, SPEED_MULTIPLIERS[2]), 3600);
    assert_eq!(effective_time_scale(true, SPEED_MULTIPLIERS[2]), 0);
    assert_eq!(effective_time_scale(false, 0), 0);
}

#[test]
fn stopped_speed_keeps_clock() {
    let mut loop_ = GameLoop::new();
    loop_.set_speed(0);
    let before = loop_.time();
    loop_.tick_game_seconds(500);
    assert_eq!(loop_.time(), before);
}

#[test]
fn effective_scale_respects_pause() {
    assert_eq!(effective_time_scale(true, 10), 0);
    assert_eq!(effective_time_scale(false, 1), DEFAULT_TIME_SCALE as u64);
    assert_eq!(effective_time_scale(false, 60), DEFAULT_TIME_SCALE as u64 * 60);
}

#[test]
fn long_frame_moves_the_clock_one_day() {
    let mut loop_ = GameLoop::new();
    let before = loop_.time();
    loop_.tick_game_seconds(u64::MAX);
    assert_eq!(loop_.time().day, before.day + 1);
    assert_eq!(loop_.time().second_of_day, before.second_of_day);
}
