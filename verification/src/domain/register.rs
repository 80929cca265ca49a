use vstd::prelude::*;

verus! {

/// How an OS/architecture passes a system call through registers for one
/// trap instruction.
#[derive(Debug, Clone)]
pub struct RegisterConvention {
    pub os: String,
    pub arch: String,
    pub instruction: String,
    pub number_register: String,
    pub argument_registers: Vec<String>,
    pub return_register: String,
}

} // verus!
