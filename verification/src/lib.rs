//! Named timers (stopwatches and countdowns) with verified duration
//! arithmetic, pause/resume state machines, and a name-keyed registry.
//!
//! The clock itself is a pluggable capability: production code reads the
//! system clock through a small trusted wrapper, tests drive a settable
//! mock clock, and every state transition is specified as a function of
//! the observed instant.

pub use non_zero::{AtLeastOne, IsZeroError, ParseNonPosZeroError};

pub mod cli_args;
pub mod dispatch;
pub mod listing_items_param;
pub mod non_zero;
pub mod parsed_date;
pub mod table_layout;
pub mod timing;
