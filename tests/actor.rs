use dominacao::actor::{App, AppState, Command, Query, Reply};
use dominacao::audio::AudioCommand;
use dominacao::game::{Scores, Team};

#[test]
fn start_press_and_query() {
    let mut app = App::new(10_000);
    assert_eq!(app.app_state(), AppState::Setup);
    assert_eq!(app.execute_at(Command::StartGame, 0), None);
    assert_eq!(app.answer(Query::IsActive), Reply::IsActive(true));
    let cue = app.execute_at(Command::TeamPress(Team::Red), 100);
    assert_eq!(cue, Some(AudioCommand::Play { generation: 1, cue: Team::Red }));
    app.tick_at(400);
    assert_eq!(app.answer(Query::Scores), Reply::Scores(Scores { red: 300, blue: 0 }));
    assert_eq!(app.answer(Query::CurrentTeam), Reply::CurrentTeam(Some(Team::Red)));
    assert_eq!(app.answer(Query::Winner), Reply::Winner(None));
}

#[test]
fn start_while_running_is_ignored() {
    let mut app = App::new(10_000);
    app.start_game_at(0);
    app.team_press_at(Team::Blue, 0);
    app.tick_at(500);
    app.start_game_at(600);
    assert_eq!(app.game().scores(), Scores { red: 0, blue: 500 });
    assert_eq!(app.game().current_team(), Some(Team::Blue));
}

#[test]
fn press_before_start_plays_nothing() {
    let mut app = App::new(10_000);
    assert_eq!(app.team_press_at(Team::Red, 10), None);
    assert_eq!(app.answer(Query::CurrentTeam), Reply::CurrentTeam(None));
}

#[test]
fn end_game_stops_accumulating() {
    let mut app = App::new(10_000);
    app.execute_at(Command::StartGame, 0);
    app.execute_at(Command::TeamPress(Team::Blue), 0);
    assert_eq!(app.execute_at(Command::EndGame, 250), None);
    app.tick_at(900);
    assert_eq!(app.answer(Query::Scores), Reply::Scores(Scores { red: 0, blue: 250 }));
    assert_eq!(app.answer(Query::IsActive), Reply::IsActive(false));
}

#[test]
fn stop_audio_issues_a_new_generation() {
    let mut app = App::new(10_000);
    app.start_game_at(0);
    app.team_press_at(Team::Red, 0);
    assert_eq!(
        app.execute_at(Command::StopAudio, 5),
        Some(AudioCommand::Stop { generation: 2 })
    );
}

#[test]
fn winner_query_uses_comparison_rule() {
    let mut app = App::new(1_000);
    app.start_game_at(0);
    app.team_press_at(Team::Red, 0);
    app.tick_at(1_000);
    assert_eq!(app.answer(Query::Winner), Reply::Winner(Some(Team::Blue)));
}

#[test]
fn state_can_move_out_of_setup() {
    let mut app = App::new(10_000);
    app.set_app_state(AppState::Idle);
    assert_eq!(app.app_state(), AppState::Idle);
}

#[test]
fn clock_driven_commands_run() {
    let mut app = App::new(10_000);
    app.execute(Command::StartGame);
    app.tick();
    assert_eq!(app.answer(Query::IsActive), Reply::IsActive(true));
    let t0 = app.now_ms();
    assert!(app.now_ms() >= t0);
}
