//! The match clock: which team holds the point, how long each team has held
//! it, and whether one of them has held it long enough to win.
//!
//! Time is counted in milliseconds on a monotonic clock whose origin is
//! arbitrary; every operation that needs the current time takes it as an
//! argument, so the state machine itself never reads a clock.
use vstd::prelude::*;

verus! {

/// Time a team must hold the point to win when nothing else is configured.
pub const DEFAULT_TIME_TO_WIN_MS: u64 = 10_000;

/// One of the two teams competing for the point.
#[derive(Debug, Clone, Copy, PartialEq, Eq, Structural)]
pub enum Team {
    Red,
    Blue,
}

/// Abstract state of a match clock.
pub struct MatchModel {
    pub active: bool,
    pub owner: Option<Team>,
    pub last_tick: Option<int>,
    pub red: int,
    pub blue: int,
    pub time_to_win: int,
}

/// Time credited to both teams together.
pub open spec fn total(m: MatchModel) -> int {
    m.red + m.blue
}

/// The later of two timestamps: a reading earlier than the last accounting
/// pass counts as no time elapsed.
pub open spec fn later(a: int, b: int) -> int {
    if a > b {
        a
    } else {
        b
    }
}

/// One accounting pass at time `now`: the time elapsed since the last pass
/// goes to the owner, if there is one.  The first pass after a start without
/// a baseline only records the baseline.
pub open spec fn ticked(m: MatchModel, now: int) -> MatchModel {
    if !m.active {
        m
    } else {
        match m.last_tick {
            None => MatchModel { last_tick: Some(now), ..m },
            Some(last) => {
                let t = later(now, last);
                let delta = t - last;
                MatchModel {
                    red: if m.owner == Some(Team::Red) {
                        m.red + delta
                    } else {
                        m.red
                    },
                    blue: if m.owner == Some(Team::Blue) {
                        m.blue + delta
                    } else {
                        m.blue
                    },
                    last_tick: Some(t),
                    ..m
                }
            },
        }
    }
}

/// A (re)start at time `now`: durations back to zero, nobody owns the point.
pub open spec fn started(m: MatchModel, now: int) -> MatchModel {
    MatchModel { active: true, owner: None, last_tick: Some(now), red: 0, blue: 0, ..m }
}

/// A button press by `team` at time `now`: the elapsed time goes to the
/// previous owner, then `team` owns the point.  Nothing happens while inactive.
pub open spec fn pressed(m: MatchModel, team: Team, now: int) -> MatchModel {
    if !m.active {
        m
    } else {
        MatchModel { owner: Some(team), ..ticked(m, now) }
    }
}

/// A stop at time `now`: pending time is flushed, then the clock is inert.
pub open spec fn stopped(m: MatchModel, now: int) -> MatchModel {
    MatchModel { active: false, owner: None, last_tick: None, ..ticked(m, now) }
}

/// The reported winner.  Blue's duration is compared first and a Blue
/// duration at the threshold reports Red; otherwise a Red duration at the
/// threshold reports Blue.  A tie therefore always reports Red.
pub open spec fn winner_of(m: MatchModel) -> Option<Team> {
    if m.blue >= m.time_to_win {
        Some(Team::Red)
    } else if m.red >= m.time_to_win {
        Some(Team::Blue)
    } else {
        None
    }
}

/// The state after accounting passes at each time of `nows`, in order.
pub open spec fn tick_all(m: MatchModel, nows: Seq<int>) -> MatchModel
    decreases nows.len(),
{
    if nows.len() == 0 {
        m
    } else {
        tick_all(ticked(m, nows[0]), nows.drop_first())
    }
}

/// The latest of `start` and the times of `nows`.
pub open spec fn latest(start: int, nows: Seq<int>) -> int
    decreases nows.len(),
{
    if nows.len() == 0 {
        start
    } else {
        latest(later(nows[0], start), nows.drop_first())
    }
}

/// Over any run of accounting passes on a running clock, the time credited to
/// both teams together grows by exactly the time that elapsed while someone
/// owned the point: all of it if there is an owner, none of it otherwise.  The
/// team that does not own the point gains nothing.
pub proof fn lemma_ticks_credit_only_owned_time(m: MatchModel, nows: Seq<int>)
    requires
        m.active,
        m.last_tick is Some,
    ensures
        tick_all(m, nows).active,
        tick_all(m, nows).owner == m.owner,
        tick_all(m, nows).last_tick == Some(latest(m.last_tick->0, nows)),
        latest(m.last_tick->0, nows) >= m.last_tick->0,
        total(tick_all(m, nows)) == total(m) + if m.owner is Some {
            latest(m.last_tick->0, nows) - m.last_tick->0
        } else {
            0
        },
        m.owner != Some(Team::Red) ==> tick_all(m, nows).red == m.red,
        m.owner != Some(Team::Blue) ==> tick_all(m, nows).blue == m.blue,
    decreases nows.len(),
{
    if nows.len() > 0 {
        let next = ticked(m, nows[0]);
        assert(total(next) == total(m) + if m.owner is Some {
            next.last_tick->0 - m.last_tick->0
        } else {
            0
        }) by {
            match m.owner {
                Some(Team::Red) => {},
                Some(Team::Blue) => {},
                None => {},
            }
        }
        lemma_ticks_credit_only_owned_time(next, nows.drop_first());
    }
}

/// On a clock that only moves forward, the last pass of a run is the latest.
pub proof fn lemma_latest_of_monotone_clock(start: int, nows: Seq<int>)
    requires
        nows.len() > 0,
        forall|i: int| 0 <= i < nows.len() ==> start <= #[trigger] nows[i],
        forall|i: int, j: int| 0 <= i <= j < nows.len() ==> nows[i] <= nows[j],
    ensures
        latest(start, nows) == nows.last(),
    decreases nows.len(),
{
    assert(start <= nows[0]);
    if nows.len() > 1 {
        let rest = nows.drop_first();
        assert forall|i: int| 0 <= i < rest.len() implies later(nows[0], start) <= #[trigger] rest[i] by {
            assert(rest[i] == nows[i + 1]);
        }
        assert forall|i: int, j: int| 0 <= i <= j < rest.len() implies rest[i] <= rest[j] by {
            assert(rest[i] == nows[i + 1]);
            assert(rest[j] == nows[j + 1]);
        }
        lemma_latest_of_monotone_clock(later(nows[0], start), rest);
        assert(rest.last() == nows.last());
    } else {
        assert(latest(later(nows[0], start), nows.drop_first()) == later(nows[0], start));
    }
}

/// Accounting passes never take time away from either team.
pub proof fn lemma_ticks_never_decrease(m: MatchModel, nows: Seq<int>)
    ensures
        tick_all(m, nows).red >= m.red,
        tick_all(m, nows).blue >= m.blue,
        tick_all(m, nows).time_to_win == m.time_to_win,
    decreases nows.len(),
{
    if nows.len() > 0 {
        lemma_ticks_never_decrease(ticked(m, nows[0]), nows.drop_first());
    }
}

/// Once a winner is reported, accounting passes without a stop keep a winner
/// reported; while Blue's duration is at the threshold the reported team does
/// not change either.
pub proof fn lemma_win_is_never_withdrawn(m: MatchModel, nows: Seq<int>)
    requires
        winner_of(m) is Some,
    ensures
        winner_of(tick_all(m, nows)) is Some,
        m.blue >= m.time_to_win ==> winner_of(tick_all(m, nows)) == winner_of(m),
{
    lemma_ticks_never_decrease(m, nows);
}

/// Stopping twice in a row leaves the same state as stopping once.
pub proof fn lemma_stop_is_idempotent(m: MatchModel, first: int, second: int)
    ensures
        stopped(stopped(m, first), second) == stopped(m, first),
{
}

/// A start on an inert clock clears both durations and the owner, whatever
/// they were before.
pub proof fn lemma_start_resets(m: MatchModel, now: int)
    requires
        !m.active,
    ensures
        started(m, now).active,
        started(m, now).red == 0,
        started(m, now).blue == 0,
        started(m, now).owner is None,
        started(m, now).last_tick == Some(now),
        started(m, now).time_to_win == m.time_to_win,
{
}

/// A snapshot of both accumulated durations, in milliseconds.
#[derive(Debug, Clone, Copy, PartialEq, Eq, Structural)]
pub struct Scores {
    pub red: u64,
    pub blue: u64,
}

/// The match clock.
#[derive(Debug, Clone, Copy)]
pub struct GameState {
    active: bool,
    current_team: Option<Team>,
    last_tick: Option<u64>,
    team_red_time: u64,
    team_blue_time: u64,
    time_to_win: u64,
}

impl View for GameState {
    type V = MatchModel;

    closed spec fn view(&self) -> MatchModel {
        MatchModel {
            active: self.active,
            owner: self.current_team,
            last_tick: match self.last_tick {
                Some(t) => Some(t as int),
                None => None,
            },
            red: self.team_red_time as int,
            blue: self.team_blue_time as int,
            time_to_win: self.time_to_win as int,
        }
    }
}

impl GameState {
    /// Durations never exceed the time elapsed up to the last accounting pass,
    /// and a running clock without a baseline has credited nothing yet.
    pub open spec fn wf(&self) -> bool {
        &&& self@.red >= 0
        &&& self@.blue >= 0
        &&& (self@.last_tick matches Some(t) ==> total(self@) <= t && t <= u64::MAX)
        &&& (self@.last_tick is None && self@.active ==> total(self@) == 0)
        &&& self@.time_to_win >= 0
        &&& self@.time_to_win <= u64::MAX
    }

    /// An inert clock with no time credited.
    pub fn new(time_to_win: u64) -> (r: GameState)
        ensures
            r.wf(),
            r@ == (MatchModel {
                active: false,
                owner: None,
                last_tick: None,
                red: 0,
                blue: 0,
                time_to_win: time_to_win as int,
            }),
    {
        GameState {
            active: false,
            current_team: None,
            last_tick: None,
            team_red_time: 0,
            team_blue_time: 0,
            time_to_win,
        }
    }

    pub fn active(&self) -> (r: bool)
        ensures
            r == self@.active,
    {
        self.active
    }

    /// Start or restart the match at time `now`.  Restarting a running match
    /// discards its progress.
    pub fn start(&mut self, now: u64)
        requires
            old(self).wf(),
        ensures
            final(self).wf(),
            final(self)@ == started(old(self)@, now as int),
    {
        self.active = true;
        self.current_team = None;
        self.last_tick = Some(now);
        self.team_red_time = 0;
        self.team_blue_time = 0;
    }

    /// Stop the match at time `now`: pending time is credited, then nothing
    /// accumulates any more.
    pub fn stop(&mut self, now: u64)
        requires
            old(self).wf(),
        ensures
            final(self).wf(),
            final(self)@ == stopped(old(self)@, now as int),
    {
        self.tick(now);
        self.active = false;
        self.current_team = None;
        self.last_tick = None;
    }

    /// A press of `team`'s button at time `now`.
    pub fn button_press(&mut self, team: Team, now: u64)
        requires
            old(self).wf(),
        ensures
            final(self).wf(),
            final(self)@ == pressed(old(self)@, team, now as int),
    {
        if !self.active {
            return;
        }
        self.tick(now);
        self.current_team = Some(team);
    }

    /// One accounting pass at time `now`; meant to run every few tens of
    /// milliseconds, and harmless when repeated.
    pub fn tick(&mut self, now: u64)
        requires
            old(self).wf(),
        ensures
            final(self).wf(),
            final(self)@ == ticked(old(self)@, now as int),
    {
        if !self.active {
            return;
        }
        match self.last_tick {
            None => {
                self.last_tick = Some(now);
            },
            Some(last) => {
                let t = if now > last {
                    now
                } else {
                    last
                };
                let delta = t - last;
                match self.current_team {
                    Some(Team::Red) => {
                        self.team_red_time = self.team_red_time + delta;
                    },
                    Some(Team::Blue) => {
                        self.team_blue_time = self.team_blue_time + delta;
                    },
                    None => {},
                }
                self.last_tick = Some(t);
            },
        }
    }

    /// The winner, if any (see `winner_of` for the comparison rule).
    pub fn winner(&self) -> (r: Option<Team>)
        ensures
            r == winner_of(self@),
    {
        if self.team_blue_time >= self.time_to_win {
            Some(Team::Red)
        } else if self.team_red_time >= self.time_to_win {
            Some(Team::Blue)
        } else {
            None
        }
    }

    pub fn scores(&self) -> (r: Scores)
        ensures
            r.red == self@.red,
            r.blue == self@.blue,
    {
        Scores { red: self.team_red_time, blue: self.team_blue_time }
    }

    /// Who currently owns the point.
    pub fn current_team(&self) -> (r: Option<Team>)
        ensures
            r == self@.owner,
    {
        self.current_team
    }

    pub fn time_to_win(&self) -> (r: u64)
        ensures
            r == self@.time_to_win,
    {
        self.time_to_win
    }
}

impl Default for GameState {
    fn default() -> (r: GameState)
        ensures
            r.wf(),
            r@ == (MatchModel {
                active: false,
                owner: None,
                last_tick: None,
                red: 0,
                blue: 0,
                time_to_win: DEFAULT_TIME_TO_WIN_MS as int,
            }),
    {
        GameState::new(DEFAULT_TIME_TO_WIN_MS)
    }
}

} // verus!
