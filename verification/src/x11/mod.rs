//! The X11 side of the bridge.
//!
//! [`X11Setup`] learns what has to be known at the start and ends with an [`X11State`], which
//! answers events with a [`task::Step`]: what to exchange with the X server next, and the task to
//! take up with what came of it.

pub mod answers;
pub mod atoms;
pub mod fetch;
pub mod incr;
pub mod laws;
pub mod protocol;
pub mod runs;
pub mod serve;
pub mod setup;
pub mod state;
pub mod steps;
pub mod task;
pub mod wait;

pub use setup::X11Setup;
pub use state::X11State;
