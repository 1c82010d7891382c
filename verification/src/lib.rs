//! Blame data: hunks, lookups by index and by line, iteration, and blame options.
pub mod blame;
pub mod error;
pub mod hunk;
pub mod oid;
pub mod options;
pub mod signature;
mod text;
