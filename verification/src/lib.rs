//! Reference data about system calls across operating systems and
//! architectures: the domain types, the single-table key layout, the
//! request decisions of the HTTP API and the parser of the kernel's
//! syscall table, with their contracts.

pub mod config;
pub mod domain;
pub mod error;
pub mod handlers;
pub mod repository;
pub mod seed;
pub mod text;

pub use config::Config;
pub use domain::{enrich, man_url, RegisterConvention, Syscall};
pub use error::AppError;
pub use handlers::syscalls::parse_syscall_number;
