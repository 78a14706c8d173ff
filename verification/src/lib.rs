//! Core of a timing minigame: a cue oscillates across a fixed bar, the player
//! presses an input at a chosen moment, and the distance between cue and bar
//! center at that instant determines a scored outcome. A round timer ends the
//! session and routes to a won or lost screen.
//!
//! The library covers the timing evaluation and the session state machine:
//! cue motion with reversal at the bar's edges, hit-window classification,
//! score bookkeeping floored at zero, the countdown round timer, and the phase
//! machine (menu, playing, paused, lost, won). Positions are length units and
//! times are integer time units (milliseconds in the standard configuration);
//! rendering, audio and input devices are outside collaborators that drive the
//! session through plain values.

pub mod config;
pub mod timing;
pub mod cue;
pub mod timer;
pub mod session;
