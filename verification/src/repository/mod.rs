//! The single-table layout of the store (partition key `"{OS}#{arch}"`,
//! sort keys by kind of item) and the paging of a syscall listing.

pub mod keys;
pub mod listing;
