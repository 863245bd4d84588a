//! A small BPF-family virtual machine: an instruction codec, a static program
//! checker, an interpreter, and a bit-level abstract domain.
//!
//! Registers:
//! - r0 = return value
//! - r1 to r5 = arguments
//! - r6 to r9 = callee saved
//! - r10 = frame pointer
use vstd::prelude::*;

pub mod checker;
pub mod inst;
pub mod interp;
pub mod program;
pub mod znum;

pub use checker::{Block, Env, InstDecodeError, PrgmVerifyError, PrgmVerifyErrorKind};
pub use inst::Inst;
pub use interp::{DataArea, EmptyDataArea, Flow, Invoke, RuntimeError};
pub use program::Program;
pub use znum::Znum;
