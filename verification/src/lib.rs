//! Command-line core for a specification-language toolchain: command
//! dispatch, a backup-protected in-place file rewrite protocol, and
//! multi-file verification aggregation.
//!
//! All filesystem work is performed by a driver outside this crate; the
//! rewrite protocol itself is a verified step machine ([`rewrite`]) that
//! tells the driver which filesystem action to perform next and reacts to
//! the reported result of each action.

pub mod aggregate;
pub mod backup;
pub mod dispatch;
pub mod errors;
pub mod formatter;
pub mod rewrite;
