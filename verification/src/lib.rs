//! Decision logic of a desktop resource watcher: configuration defaults,
//! battery, memory and disk alert rules, and the arguments handed to the
//! desktop notification tool.

pub mod binary64;
pub mod duration;
pub mod config;
pub mod log;
pub mod model;
pub mod notify;
pub mod text;
pub mod utils;
pub mod watch;

use vstd::prelude::*;

verus! {

/// Name under which notifications are sent.
pub const APP_NAME: &'static str = "vigilance";

} // verus!
