//! Derived quota metrics, computed against the window that actually ran.
//!
//! A `Rolling` window's start is normally `reset_at` minus the roll duration,
//! and that is what turns a bare "62% used" into "62% used but only 48% of the
//! way through the window" — the burn-rate framing the dashboard is built
//! around.
//!
//! It is only true while the provider moves `reset_at` with the reset. Where
//! it does not — a weekly quota that restarts early and keeps publishing the
//! old instant — that subtraction names a window which is over, and every
//! number built on it reads low. So the daemon publishes any restart it
//! actually observed, and [`effective_window`] is where the two are
//! reconciled; nothing downstream of it needs to know which of the two answers
//! it got.
//!
//! A rate is a quotient of two figures. Which two, and whether there is a rate
//! at all, is decided here; the division itself is left to the caller.

pub mod boundaries;
pub mod recent;
pub mod window;

pub use boundaries::{boundaries, Boundary, BoundaryKind};
pub use recent::{gap_tolerance, recent_run, recent_stretch, Stretch};
pub use window::{
    affordable_pace, cap_binds, effective_window, elapsed_fraction, eta_to_cap, pace, runway,
    runway_at, start_is_uncertain, EffectiveWindow, Fraction, Rate,
};
