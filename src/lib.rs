//! A safety layer over a native code-generation toolkit's handle interface:
//! null rejection, owned diagnostics and buffers, an ownership ledger that
//! disposes each native object exactly once, and pass-manager bookkeeping.
pub mod arena;
pub mod buffer;
pub mod error;
pub mod handle;
pub mod message;
pub mod pass_manager;

pub use crate::arena::{Arena, Id, Kind, Slot};
pub use crate::buffer::MemoryBuffer;
pub use crate::error::Error;
pub use crate::handle::{wrap_inner, ContextRef, Handle, LLVMInner, PassManagerRef};
pub use crate::message::Message;
pub use crate::pass_manager::{FuncPassManager, ModulePassManager, PassManager, Transform};
