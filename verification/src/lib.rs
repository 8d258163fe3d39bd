//! Native shell logic for the HackerAI desktop application.
//!
//! The host framework delivers deep links, timer wake-ups and update-check
//! results; this crate holds the decisions made on them: token-format
//! validation, origin allow-listing, construction of the auth callback URL,
//! the 24-hour update-check throttle, and the state machine that drives an
//! update check through its dialogs.

pub mod deeplink;
pub mod hosts;
pub mod origin;
pub mod strutil;
pub mod throttle;
pub mod token;
pub mod updateflow;
pub mod urlparse;

pub use token::is_valid_token_format;
