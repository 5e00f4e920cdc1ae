//! The state owned by the single actor that serialises every change to the
//! match and every audio request, and the commands and queries other threads
//! send it.
//!
//! Each operation runs to completion on the actor's state and yields at most
//! one audio request, which the caller hands to the audio worker.
use vstd::prelude::*;
use crate::audio::{AudioCommand, AudioPipeline, next_generation};
use crate::clock::MonotonicClock;
use crate::game::{
    GameState, MatchModel, Scores, Team, pressed, started, stopped, ticked, winner_of,
};

verus! {

/// Phase of the whole device.
#[derive(Debug, Clone, Copy, PartialEq, Eq, Structural)]
pub enum AppState {
    /// Radios and peripherals are being brought up.
    Setup,
    /// Ready, no match running.
    Idle,
    /// A match is running.
    InGame,
}

/// A deferred change of the actor's state.
#[derive(Debug, Clone, Copy, PartialEq, Eq, Structural)]
pub enum Command {
    /// Start a match unless one is already running.
    StartGame,
    /// A team's button was pressed.
    TeamPress(Team),
    /// End the running match, if any.
    EndGame,
    /// Silence the audio.
    StopAudio,
}

/// A read-only question to the actor.
#[derive(Debug, Clone, Copy, PartialEq, Eq, Structural)]
pub enum Query {
    Scores,
    CurrentTeam,
    IsActive,
    Winner,
}

/// The answer to a `Query`.
#[derive(Debug, Clone, Copy, PartialEq, Eq, Structural)]
pub enum Reply {
    Scores(Scores),
    CurrentTeam(Option<Team>),
    IsActive(bool),
    Winner(Option<Team>),
}

/// Abstract state of the actor.
pub struct AppModel {
    pub state: AppState,
    pub game: MatchModel,
    pub generation: u32,
}

/// The match after a start request at `now`: a running match is left alone.
pub open spec fn after_start_game(m: MatchModel, now: int) -> MatchModel {
    if m.active {
        m
    } else {
        started(m, now)
    }
}

/// The match after an end request at `now`.
pub open spec fn after_end_game(m: MatchModel, now: int) -> MatchModel {
    if m.active {
        stopped(m, now)
    } else {
        m
    }
}

/// Whether running `cmd` at `now` on `before` may leave `after` and issue `r`.
pub open spec fn executes(
    before: AppModel,
    cmd: Command,
    now: int,
    after: AppModel,
    r: Option<AudioCommand>,
) -> bool {
    &&& after.state == before.state
    &&& match cmd {
        Command::StartGame => r is None && after.generation == before.generation && after.game
            == after_start_game(before.game, now),
        Command::TeamPress(team) => after.game == pressed(before.game, team, now) && if before.game.active {
            after.generation == next_generation(before.generation) && r == Some(
                AudioCommand::Play { generation: after.generation, cue: team },
            )
        } else {
            after.generation == before.generation && r is None
        },
        Command::EndGame => r is None && after.generation == before.generation && after.game
            == after_end_game(before.game, now),
        Command::StopAudio => after.game == before.game && after.generation == next_generation(
            before.generation,
        ) && r == Some(AudioCommand::Stop { generation: after.generation }),
    }
}

pub struct App {
    app_state: AppState,
    current_game: GameState,
    audio: AudioPipeline,
    clock: MonotonicClock,
}

impl View for App {
    type V = AppModel;

    closed spec fn view(&self) -> AppModel {
        AppModel { state: self.app_state, game: self.current_game@, generation: self.audio@ }
    }
}

impl App {
    pub closed spec fn wf(&self) -> bool {
        self.current_game.wf()
    }

    /// A device in setup, with no match running; a match is won by holding
    /// the point for `time_to_win` milliseconds.
    pub fn new(time_to_win: u64) -> (r: App)
        ensures
            r.wf(),
            r@.state == AppState::Setup,
            r@.game == (MatchModel {
                active: false,
                owner: None,
                last_tick: None,
                red: 0,
                blue: 0,
                time_to_win: time_to_win as int,
            }),
            r@.generation == 0,
    {
        App {
            app_state: AppState::Setup,
            current_game: GameState::new(time_to_win),
            audio: AudioPipeline::new(),
            clock: MonotonicClock::new(),
        }
    }

    pub fn app_state(&self) -> (r: AppState)
        ensures
            r == self@.state,
    {
        self.app_state
    }

    pub fn set_app_state(&mut self, state: AppState)
        requires
            old(self).wf(),
        ensures
            final(self).wf(),
            final(self)@ == (AppModel { state, ..old(self)@ }),
    {
        self.app_state = state;
    }

    pub fn game(&self) -> (r: &GameState)
        requires
            self.wf(),
        ensures
            r.wf(),
            r@ == self@.game,
    {
        &self.current_game
    }

    /// Starts a match at `now` unless one is already running, in which case
    /// nothing changes.
    pub fn start_game_at(&mut self, now: u64)
        requires
            old(self).wf(),
        ensures
            final(self).wf(),
            final(self)@ == (AppModel {
                game: after_start_game(old(self)@.game, now as int),
                ..old(self)@
            }),
    {
        if !self.current_game.active() {
            self.current_game.start(now);
        }
    }

    /// A press of `team`'s button at `now`: during a match the team takes the
    /// point and its capture cue is requested; otherwise nothing happens.
    pub fn team_press_at(&mut self, team: Team, now: u64) -> (r: Option<AudioCommand>)
        requires
            old(self).wf(),
        ensures
            final(self).wf(),
            final(self)@.state == old(self)@.state,
            final(self)@.game == pressed(old(self)@.game, team, now as int),
            old(self)@.game.active ==> final(self)@.generation == next_generation(
                old(self)@.generation,
            ) && r == Some(AudioCommand::Play { generation: final(self)@.generation, cue: team }),
            !old(self)@.game.active ==> final(self)@.generation == old(self)@.generation
                && r is None,
    {
        if !self.current_game.active() {
            return None;
        }
        let cmd = self.audio.play(team);
        self.current_game.button_press(team, now);
        Some(cmd)
    }

    /// Ends the running match at `now`, if any.
    pub fn end_game_at(&mut self, now: u64)
        requires
            old(self).wf(),
        ensures
            final(self).wf(),
            final(self)@ == (AppModel {
                game: after_end_game(old(self)@.game, now as int),
                ..old(self)@
            }),
    {
        if self.current_game.active() {
            self.current_game.stop(now);
        }
    }

    /// Requests silence.
    pub fn stop_audio(&mut self) -> (r: AudioCommand)
        requires
            old(self).wf(),
        ensures
            final(self).wf(),
            final(self)@ == (AppModel {
                generation: next_generation(old(self)@.generation),
                ..old(self)@
            }),
            r == (AudioCommand::Stop { generation: final(self)@.generation }),
    {
        self.audio.stop()
    }

    /// The periodic accounting pass of the actor's loop, at `now`.
    pub fn tick_at(&mut self, now: u64)
        requires
            old(self).wf(),
        ensures
            final(self).wf(),
            final(self)@ == (AppModel { game: ticked(old(self)@.game, now as int), ..old(self)@ }),
    {
        if self.current_game.active() {
            self.current_game.tick(now);
        }
    }

    /// Runs `cmd` at `now`; returns the audio request it issued, if any.
    pub fn execute_at(&mut self, cmd: Command, now: u64) -> (r: Option<AudioCommand>)
        requires
            old(self).wf(),
        ensures
            final(self).wf(),
            executes(old(self)@, cmd, now as int, final(self)@, r),
    {
        match cmd {
            Command::StartGame => {
                self.start_game_at(now);
                None
            },
            Command::TeamPress(team) => self.team_press_at(team, now),
            Command::EndGame => {
                self.end_game_at(now);
                None
            },
            Command::StopAudio => Some(self.stop_audio()),
        }
    }

    /// Answers `q` from the current state.
    pub fn answer(&self, q: Query) -> (r: Reply)
        requires
            self.wf(),
        ensures
            match q {
                Query::Scores => r matches Reply::Scores(s) && s.red == self@.game.red && s.blue
                    == self@.game.blue,
                Query::CurrentTeam => r == Reply::CurrentTeam(self@.game.owner),
                Query::IsActive => r == Reply::IsActive(self@.game.active),
                Query::Winner => r == Reply::Winner(winner_of(self@.game)),
            },
    {
        match q {
            Query::Scores => Reply::Scores(self.current_game.scores()),
            Query::CurrentTeam => Reply::CurrentTeam(self.current_game.current_team()),
            Query::IsActive => Reply::IsActive(self.current_game.active()),
            Query::Winner => Reply::Winner(self.current_game.winner()),
        }
    }

    /// Milliseconds on the actor's clock.
    pub fn now_ms(&self) -> u64 {
        self.clock.now_ms()
    }

    /// Runs `cmd` at the current time of the actor's clock; see `execute_at`.
    pub fn execute(&mut self, cmd: Command) -> (r: Option<AudioCommand>)
        requires
            old(self).wf(),
        ensures
            final(self).wf(),
            exists|now: u64| #[trigger] executes(old(self)@, cmd, now as int, final(self)@, r),
    {
        let now = self.clock.now_ms();
        self.execute_at(cmd, now)
    }

    /// The periodic accounting pass at the current time of the actor's clock.
    pub fn tick(&mut self)
        requires
            old(self).wf(),
        ensures
            final(self).wf(),
            exists|now: u64|
                final(self)@ == (AppModel {
                    game: #[trigger] ticked(old(self)@.game, now as int),
                    ..old(self)@
                }),
    {
        let now = self.clock.now_ms();
        self.tick_at(now);
    }
}

} // verus!
