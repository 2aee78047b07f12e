//! Saved processor state at the trap boundary of a MIPS kernel.
//!
//! A trap (interrupt, exception or system call) stores the register file in
//! memory; the kernel inspects and edits that record and later resumes it.
//! This crate holds the records and every operation on them that is pure
//! computation, each with a machine-checked contract.

pub mod cp0;
pub mod general_regs;
pub mod text;
pub mod trap_frame;
pub mod user_context;

pub use general_regs::GeneralRegs;
pub use trap_frame::TrapFrame;
pub use user_context::UserContext;
