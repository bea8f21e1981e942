//! The rules of a monitor that measures network speed on a schedule.
//!
//! The scheduler decides when the next measurement is due and whether a
//! due measurement may start; the runner classifies what became of the
//! measurement process and reads the figures out of what it wrote; the
//! notifier words the outcome. Clock, process, sockets and metrics stay
//! with the caller, who hands in plain values and acts on the plain
//! values that come back.
pub mod clock;
pub mod config;
pub mod cron_schedule;
pub mod decimal;
pub mod notifier;
pub mod payload;
pub mod resources;
pub mod runner;
pub mod scheduler;
pub mod server;
pub mod text;
