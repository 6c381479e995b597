//! Core logic of an adaptive CPU-tuning daemon for Android kernels.
//!
//! The crate models the daemon's decision pipeline as pure, verified
//! functions: foreground-application detection, screen-state tracking,
//! mode resolution and routing, and the actuator that turns a performance
//! mode into an ordered list of sysfs writes.  The surrounding process
//! (threads, file and socket I/O, the database and translation services)
//! lives outside this crate and only executes what these functions decide.

pub mod app_detect;
pub mod caps;
pub mod config;
pub mod levels;
pub mod plan;
pub mod power;
pub mod router;
pub mod rules;
pub mod screen;
pub mod scheduler;
pub mod text;
