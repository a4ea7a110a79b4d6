//! A work/rest interval timer: a four-phase state machine driven by wall-clock
//! instants, together with the thin host that feeds it its settings.
//!
//! Every transition is stated over a mathematical model of the timer
//! ([`app::app_timer::TimerView`]) and proved; the only thing taken on trust is
//! the reading of the system clock in [`clock`].

pub mod instant;
pub mod clock;
pub mod app;
pub mod laws;
