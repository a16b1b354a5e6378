//! Foreground-window usage tracking: which application holds focus, for how
//! long, and a report of the accumulated time per application.

pub mod accounting;
pub mod clock;
pub mod detector;
pub mod digest;
pub mod ledger;
pub mod names;
pub mod report;
pub mod scheduler;
pub mod text;
pub mod window;
