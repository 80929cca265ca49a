//! The values the API serves.

pub mod register;
pub mod syscall;

pub use register::RegisterConvention;
pub use syscall::{enrich, man_url, man_url_for_lowercase_os, Syscall, SyscallView};
