//! Two-arm spinners in fixed-point arithmetic, with proofs.
//!
//! A spinner is a point that circles a point that circles the origin. The
//! crate holds the animation model of such spinners: how a frame moves the
//! clock, which positions it records, and what the controls do. Drawing and
//! trigonometry are left to the caller, who gets every position as the pair
//! of angles of the two arms.

pub mod arith;
pub mod laws;
pub mod model;
pub mod plot;
pub mod shell;

pub use model::{MAX_TIME_SCALE, UNIT};
pub use plot::{Controls, Plot, Tip};
pub use shell::{App, Frame, GOLDEN_RATIO, PI_RATIO};
