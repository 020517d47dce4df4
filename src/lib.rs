//! Verified core of an on-chain insurance protocol: oracle price consensus,
//! the claims state machine, upgrade governance, reward arithmetic and
//! event-verification summaries.
pub mod consensus;
pub mod errors;
pub mod oracle;
pub mod claims;
pub mod governance;
pub mod rewards;
pub mod events;
