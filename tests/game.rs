use dominacao::game::{GameState, Scores, Team, DEFAULT_TIME_TO_WIN_MS};

#[test]
fn new_clock_is_inert() {
    let g = GameState::new(10_000);
    assert!(!g.active());
    assert_eq!(g.current_team(), None);
    assert_eq!(g.scores(), Scores { red: 0, blue: 0 });
    assert_eq!(g.winner(), None);
    assert_eq!(g.time_to_win(), 10_000);
}

#[test]
fn default_clock_wins_after_ten_seconds() {
    let g = GameState::default();
    assert_eq!(g.time_to_win(), DEFAULT_TIME_TO_WIN_MS);
    assert_eq!(DEFAULT_TIME_TO_WIN_MS, 10_000);
}

#[test]
fn win_reported_just_past_threshold() {
    let mut g = GameState::new(10_000);
    g.start(1_000);
    g.button_press(Team::Red, 1_000);
    g.tick(1_000 + 10_000 - 1);
    assert_eq!(g.winner(), None);
    g.tick(1_000 + 10_000 - 1 + 2);
    assert_eq!(g.scores().red, 10_001);
    // Red's duration crossed the threshold; the comparison rule reports Blue.
    assert_eq!(g.winner(), Some(Team::Blue));
}

#[test]
fn unowned_time_is_credited_to_nobody() {
    let mut g = GameState::new(10_000);
    g.start(0);
    g.tick(100);
    g.tick(250);
    assert_eq!(g.scores(), Scores { red: 0, blue: 0 });
    g.button_press(Team::Blue, 300);
    g.tick(400);
    g.tick(450);
    assert_eq!(g.scores(), Scores { red: 0, blue: 150 });
    g.button_press(Team::Red, 500);
    g.tick(800);
    assert_eq!(g.scores(), Scores { red: 300, blue: 200 });
}

#[test]
fn press_credits_previous_owner() {
    let mut g = GameState::new(10_000);
    g.start(0);
    g.button_press(Team::Red, 10);
    g.button_press(Team::Blue, 60);
    assert_eq!(g.scores(), Scores { red: 50, blue: 0 });
    assert_eq!(g.current_team(), Some(Team::Blue));
}

#[test]
fn same_team_pressing_twice_keeps_accumulating() {
    let mut g = GameState::new(10_000);
    g.start(0);
    g.button_press(Team::Red, 0);
    g.button_press(Team::Red, 40);
    g.tick(100);
    assert_eq!(g.scores(), Scores { red: 100, blue: 0 });
}

#[test]
fn press_while_inactive_does_nothing() {
    let mut g = GameState::new(10_000);
    g.button_press(Team::Red, 50);
    assert_eq!(g.current_team(), None);
    g.tick(500);
    assert_eq!(g.scores(), Scores { red: 0, blue: 0 });
    assert!(!g.active());
}

#[test]
fn stop_flushes_then_freezes() {
    let mut g = GameState::new(10_000);
    g.start(0);
    g.button_press(Team::Blue, 0);
    g.stop(70);
    assert!(!g.active());
    assert_eq!(g.current_team(), None);
    assert_eq!(g.scores(), Scores { red: 0, blue: 70 });
    g.tick(1_000);
    assert_eq!(g.scores(), Scores { red: 0, blue: 70 });
}

#[test]
fn stop_twice_same_as_once() {
    let mut once = GameState::new(10_000);
    once.start(0);
    once.button_press(Team::Red, 5);
    let mut twice = once;
    once.stop(50);
    twice.stop(50);
    twice.stop(900);
    assert_eq!(once.scores(), twice.scores());
    assert_eq!(once.active(), twice.active());
    assert_eq!(once.current_team(), twice.current_team());
}

#[test]
fn start_after_stop_resets_everything() {
    let mut g = GameState::new(10_000);
    g.start(0);
    g.button_press(Team::Blue, 0);
    g.stop(3_000);
    assert_eq!(g.scores().blue, 3_000);
    g.start(4_000);
    assert!(g.active());
    assert_eq!(g.current_team(), None);
    assert_eq!(g.scores(), Scores { red: 0, blue: 0 });
}

#[test]
fn restart_while_running_discards_progress() {
    let mut g = GameState::new(10_000);
    g.start(0);
    g.button_press(Team::Red, 0);
    g.tick(500);
    g.start(600);
    assert_eq!(g.scores(), Scores { red: 0, blue: 0 });
    assert_eq!(g.current_team(), None);
}

#[test]
fn win_stays_reported_while_ticking() {
    let mut g = GameState::new(100);
    g.start(0);
    g.button_press(Team::Blue, 0);
    g.tick(100);
    assert_eq!(g.winner(), Some(Team::Red));
    g.tick(150);
    g.button_press(Team::Red, 200);
    g.tick(400);
    assert_eq!(g.winner(), Some(Team::Red));
}

#[test]
fn both_over_threshold_reports_red() {
    let mut g = GameState::new(100);
    g.start(0);
    g.button_press(Team::Red, 0);
    g.button_press(Team::Blue, 100);
    g.tick(200);
    assert_eq!(g.scores(), Scores { red: 100, blue: 100 });
    assert_eq!(g.winner(), Some(Team::Red));
}

#[test]
fn clock_reading_backwards_credits_nothing() {
    let mut g = GameState::new(10_000);
    g.start(1_000);
    g.button_press(Team::Red, 1_000);
    g.tick(900);
    assert_eq!(g.scores().red, 0);
    g.tick(1_100);
    assert_eq!(g.scores().red, 100);
}

#[test]
fn zero_threshold_wins_immediately() {
    let g = GameState::new(0);
    assert_eq!(g.winner(), Some(Team::Red));
}
