//! The session state machine and the per-tick driver. The session owns the
//! phase, the score, the round timer, the cue and the bar, as one aggregate
//! passed explicitly to every operation; inputs enter through
//! `submit_input`, time enters through `step`, and the signals a tick raises
//! (reversal, outcome, round-end request) are returned to the caller instead
//! of being broadcast, so the fixed in-tick ordering stays explicit.

use vstd::prelude::*;
use crate::config::GameConfig;
use crate::cue::{Bar, Cue};
use crate::timer::RoundTimer;
use crate::timing::{
    Outcome,
    apply_outcome,
    classify,
    classify_spec,
    dist,
    distance,
    score_step,
};

verus! {

/// The top-level phase of the session; exactly one is active, and it is the
/// sole authority for which subsystems run.
#[derive(Clone, Copy, Debug, PartialEq, Eq)]
pub enum SessionPhase {
    Menu,
    Playing,
    Paused,
    Lost,
    Won,
}

/// A logical input event, one at most per tick: the primary action, the pause
/// toggle, and the retry and back-to-menu requests of the end screens.
#[derive(Clone, Copy, Debug, PartialEq, Eq)]
pub enum InputKind {
    Primary,
    PauseToggle,
    Retry,
    ToMenu,
}

/// The signals one tick raised, drained within that tick: the cue's reversal
/// signal, the outcome of an evaluated input, and the round-end request
/// carrying the final score. Outside collaborators (sound, effects, the
/// scoreboard) observe them read-only.
#[derive(Clone, Copy, Debug, PartialEq, Eq)]
pub struct StepEvents {
    pub reversal: bool,
    pub outcome: Option<Outcome>,
    pub round_end: Option<u64>,
}

/// The whole state of one session: phase, score, round timer, and the round's
/// cue and bar. Cue and bar belong to the current round: they are respawned
/// from the configuration whenever the playing phase is entered from the
/// menu or an end screen, and stand frozen outside the playing phase.
#[derive(Clone, Copy, Debug)]
pub struct Session {
    pub phase: SessionPhase,
    pub score: u64,
    pub timer: RoundTimer,
    pub cue: Cue,
    pub bar: Bar,
    pub config: GameConfig,
}

impl Session {
    /// The session invariant: a well-formed configuration, the timer bound to
    /// the configured round length, bar and cue carrying the configured
    /// geometry, and the cue inside its travel band around the bar.
    pub open spec fn wf(self) -> bool {
        &&& self.config.wf()
        &&& self.timer.wf()
        &&& self.timer.limit == self.config.time_limit
        &&& self.bar.center_x == self.config.bar_center_x
        &&& self.bar.half_width == self.config.bar_half_width
        &&& self.cue.speed == self.config.cue_speed
        &&& self.cue.in_travel_band(self.bar)
    }

    /// The state a session starts in, and the state it returns to on the
    /// back-to-menu request: the menu phase, a zero score, a full timer, and
    /// the round pieces in their spawn places.
    pub open spec fn initial_spec(cfg: GameConfig) -> Session {
        Session {
            phase: SessionPhase::Menu,
            score: 0,
            timer: RoundTimer { remaining: cfg.time_limit, limit: cfg.time_limit },
            cue: Cue {
                position_x: cfg.cue_start_x,
                moving_right: cfg.cue_start_moving_right,
                speed: cfg.cue_speed,
            },
            bar: Bar { center_x: cfg.bar_center_x, half_width: cfg.bar_half_width },
            config: cfg,
        }
    }

    /// The state reached on every entry into the playing phase from the menu
    /// or an end screen: bar and cue respawned, the score reset to zero and
    /// the timer reset to the configured limit — regardless of what the prior
    /// round left behind. Resuming from pause does not pass through here.
    pub open spec fn playing_entry_spec(self) -> Session {
        Session {
            phase: SessionPhase::Playing,
            ..Session::initial_spec(self.config)
        }
    }

    /// The distance between cue and bar center, sampled at input time.
    pub open spec fn cue_distance(self) -> int {
        dist(self.cue.position_x as int, self.bar.center_x as int)
    }

    /// The transition table of the state machine, driven by one input event:
    /// the primary action starts a round from the menu and is evaluated
    /// against the cue during one, the pause toggle suspends and resumes a
    /// round (without touching score or timer), and the end screens accept
    /// retry and back-to-menu. An input with no row here is a no-op. The
    /// second component is the outcome signal, raised exactly by an evaluated
    /// primary action.
    pub open spec fn input_step(self, kind: InputKind) -> (Session, Option<Outcome>) {
        match (self.phase, kind) {
            (SessionPhase::Menu, InputKind::Primary) => (self.playing_entry_spec(), None),
            (SessionPhase::Playing, InputKind::Primary) => {
                let o = classify_spec(self.cue_distance(), self.config);
                (Session { score: score_step(self.score, o, self.config), ..self }, Some(o))
            },
            (SessionPhase::Playing, InputKind::PauseToggle) => (
                Session { phase: SessionPhase::Paused, ..self },
                None,
            ),
            (SessionPhase::Paused, InputKind::PauseToggle) => (
                Session { phase: SessionPhase::Playing, ..self },
                None,
            ),
            (SessionPhase::Lost, InputKind::Retry) => (self.playing_entry_spec(), None),
            (SessionPhase::Won, InputKind::Retry) => (self.playing_entry_spec(), None),
            (SessionPhase::Lost, InputKind::ToMenu) => (
                Session { phase: SessionPhase::Menu, ..self },
                None,
            ),
            (SessionPhase::Won, InputKind::ToMenu) => (
                Session { phase: SessionPhase::Menu, ..self },
                None,
            ),
            _ => (self, None),
        }
    }

    /// One full simulation step while playing, in the fixed in-tick order:
    /// (1) the cue advances and may raise the reversal signal, (2) a primary
    /// input, if present, is evaluated against the advanced cue and (3) its
    /// outcome applied to the score, (4) the round timer counts down and on
    /// expiry raises the round-end request carrying the final score, and
    /// (5) the phase transition is applied — the round's end routes to won or
    /// lost by the clear threshold and takes precedence over a pause toggle
    /// raised on the same tick. Outside the playing phase nothing ticks
    /// (pause skips the gameplay subsystems), and the step only applies the
    /// input transition, as `submit_input` does.
    pub open spec fn step_spec(self, dt: u64, input: Option<InputKind>) -> (Session, StepEvents) {
        if self.phase is Playing {
            let (cue1, reversal) = self.cue.advance_spec(self.bar);
            let s1 = Session { cue: cue1, ..self };
            let (s2, outcome) = if input == Some(InputKind::Primary) {
                s1.input_step(InputKind::Primary)
            } else {
                (s1, None)
            };
            let (timer3, expired) = s2.timer.tick_spec(dt);
            let s3 = Session { timer: timer3, ..s2 };
            if expired {
                let end_phase = if s3.score >= s3.config.clear_threshold {
                    SessionPhase::Won
                } else {
                    SessionPhase::Lost
                };
                (
                    Session { phase: end_phase, ..s3 },
                    StepEvents { reversal, outcome, round_end: Some(s3.score) },
                )
            } else if input == Some(InputKind::PauseToggle) {
                (
                    Session { phase: SessionPhase::Paused, ..s3 },
                    StepEvents { reversal, outcome, round_end: None },
                )
            } else {
                (s3, StepEvents { reversal, outcome, round_end: None })
            }
        } else {
            let next = match input {
                Some(kind) => self.input_step(kind).0,
                None => self,
            };
            (next, StepEvents { reversal: false, outcome: None, round_end: None })
        }
    }

    /// A new session at the menu, ready to start its first round.
    pub fn new(cfg: GameConfig) -> (s: Session)
        requires
            cfg.wf(),
        ensures
            s == Session::initial_spec(cfg),
            s.wf(),
    {
        Session {
            phase: SessionPhase::Menu,
            score: 0,
            timer: RoundTimer::new(cfg.time_limit),
            cue: Cue::spawn(cfg.cue_start_x, cfg.cue_start_moving_right, cfg.cue_speed),
            bar: Bar { center_x: cfg.bar_center_x, half_width: cfg.bar_half_width },
            config: cfg,
        }
    }

    /// The current phase, for outside observers.
    pub fn current_phase(&self) -> (p: SessionPhase)
        ensures
            p == self.phase,
    {
        self.phase
    }

    /// The current (or, on an end screen, final) score.
    pub fn current_score(&self) -> (s: u64)
        ensures
            s == self.score,
    {
        self.score
    }

    /// The time units left in the running round.
    pub fn remaining_time(&self) -> (t: u64)
        ensures
            t == self.timer.remaining,
    {
        self.timer.remaining
    }

    /// Enters the playing phase for a fresh round: respawns bar and cue and
    /// resets score and timer.
    fn enter_playing(&mut self)
        requires
            old(self).config.wf(),
        ensures
            *final(self) == old(self).playing_entry_spec(),
            final(self).wf(),
    {
        self.phase = SessionPhase::Playing;
        self.score = 0;
        self.timer = RoundTimer::new(self.config.time_limit);
        self.cue = Cue::spawn(
            self.config.cue_start_x,
            self.config.cue_start_moving_right,
            self.config.cue_speed,
        );
        self.bar = Bar {
            center_x: self.config.bar_center_x,
            half_width: self.config.bar_half_width,
        };
    }

    /// The write entry point for input events: applies one row of the
    /// transition table, evaluating the primary action against the cue while
    /// playing and returning the outcome it raised. Inputs with no row in the
    /// current phase are silently ignored.
    pub fn submit_input(&mut self, kind: InputKind) -> (out: Option<Outcome>)
        requires
            old(self).wf(),
        ensures
            (*final(self), out) == old(self).input_step(kind),
            final(self).wf(),
    {
        match (self.phase, kind) {
            (SessionPhase::Menu, InputKind::Primary) => {
                self.enter_playing();
                None
            },
            (SessionPhase::Playing, InputKind::Primary) => {
                let d = distance(self.cue.position_x, self.bar.center_x);
                let o = classify(d, &self.config);
                self.score = apply_outcome(self.score, o, &self.config);
                Some(o)
            },
            (SessionPhase::Playing, InputKind::PauseToggle) => {
                self.phase = SessionPhase::Paused;
                None
            },
            (SessionPhase::Paused, InputKind::PauseToggle) => {
                self.phase = SessionPhase::Playing;
                None
            },
            (SessionPhase::Lost, InputKind::Retry) | (SessionPhase::Won, InputKind::Retry) => {
                self.enter_playing();
                None
            },
            (SessionPhase::Lost, InputKind::ToMenu) | (SessionPhase::Won, InputKind::ToMenu) => {
                self.phase = SessionPhase::Menu;
                None
            },
            _ => None,
        }
    }

    /// One simulation step: advances the gameplay subsystems by `dt` time
    /// units in the fixed in-tick order, processes at most one input event,
    /// and returns the signals the tick raised. See `step_spec` for the
    /// order and for the precedence of a round's end over a pause toggle.
    pub fn step(&mut self, dt: u64, input: Option<InputKind>) -> (ev: StepEvents)
        requires
            old(self).wf(),
        ensures
            (*final(self), ev) == old(self).step_spec(dt, input),
            final(self).wf(),
    {
        match self.phase {
            SessionPhase::Playing => {
                proof {
                    crate::cue::lemma_advance_stays_in_band(self.cue, self.bar);
                }
                let bar = self.bar;
                let reversal = self.cue.advance(&bar);
                let outcome = match input {
                    Some(InputKind::Primary) => self.submit_input(InputKind::Primary),
                    _ => None,
                };
                let expired = self.timer.tick(dt);
                if expired {
                    let final_score = self.score;
                    self.phase = if final_score >= self.config.clear_threshold {
                        SessionPhase::Won
                    } else {
                        SessionPhase::Lost
                    };
                    StepEvents { reversal, outcome, round_end: Some(final_score) }
                } else {
                    match input {
                        Some(InputKind::PauseToggle) => {
                            self.phase = SessionPhase::Paused;
                        },
                        _ => {},
                    }
                    StepEvents { reversal, outcome, round_end: None }
                }
            },
            _ => {
                if let Some(kind) = input {
                    self.submit_input(kind);
                }
                StepEvents { reversal: false, outcome: None, round_end: None }
            },
        }
    }
}

/// Entering the playing phase — from the menu by the primary action, or from
/// an end screen by retry — always resets the score to zero, the timer to the
/// configured limit, and the cue to its spawn place, regardless of the prior
/// round's ending values.
pub proof fn lemma_playing_entry_resets(s: Session, kind: InputKind)
    requires
        s.wf(),
        (s.phase is Menu && kind is Primary) || (s.phase is Lost && kind is Retry) || (
        s.phase is Won && kind is Retry),
    ensures
        s.input_step(kind).0.phase is Playing,
        s.input_step(kind).0.score == 0,
        s.input_step(kind).0.timer.remaining == s.config.time_limit,
        s.input_step(kind).0.cue.position_x == s.config.cue_start_x,
        s.input_step(kind).0.cue.moving_right == s.config.cue_start_moving_right,
        s.input_step(kind).1 is None,
{
}

/// Resuming from pause changes only the phase: the score, the timer's
/// remaining time, the cue and the bar all keep their pre-pause values — only
/// an entry into the playing phase from the menu or an end screen resets
/// them. The same holds in the other direction, when pausing.
pub proof fn lemma_pause_resume_preserves_round(s: Session)
    requires
        s.wf(),
    ensures
        s.phase is Paused ==> {
            let resumed = s.input_step(InputKind::PauseToggle).0;
            &&& resumed.phase is Playing
            &&& resumed.score == s.score
            &&& resumed.timer == s.timer
            &&& resumed.cue == s.cue
            &&& resumed.bar == s.bar
        },
        s.phase is Playing ==> {
            let paused = s.input_step(InputKind::PauseToggle).0;
            &&& paused.phase is Paused
            &&& paused.score == s.score
            &&& paused.timer == s.timer
            &&& paused.cue == s.cue
            &&& paused.bar == s.bar
        },
{
}

/// A round ends won, not lost, exactly when the final score reaches the clear
/// threshold: on the tick whose countdown expires, the round-end request
/// carries the final score and the session routes to the end screen that the
/// threshold picks.
pub proof fn lemma_round_end_routing(s: Session, dt: u64)
    requires
        s.wf(),
        s.phase is Playing,
        dt >= s.timer.remaining,
    ensures
        s.step_spec(dt, None).1.round_end == Some(s.score),
        s.step_spec(dt, None).0.phase is Won <==> s.score >= s.config.clear_threshold,
        s.step_spec(dt, None).0.phase is Lost <==> s.score < s.config.clear_threshold,
        s.step_spec(dt, None).0.timer.remaining == s.config.time_limit,
{
}

} // verus!
