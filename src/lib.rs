//! Saved execution contexts of kernel threads on x86-64: the stack layouts
//! that each way of starting or resuming a thread needs, signal injection,
//! and the per-core half of a context switch.
pub mod layout;
pub mod memory;
pub mod thread;
pub mod switch;
pub mod laws;

pub use layout::{FrameWriter, KERNEL_STACK_SIZE, PAGE_SIZE, RFLAGS_IF_DISABLED, RFLAGS_IF_ENABLED, USER_CS64, USER_DS, USER_RPL};
pub use memory::{PagePool, UserVAddr, VAddr};
pub use thread::{ContextError, EntryPoints, SignalHandoff, SyscallFrame, Thread, ThreadGuard, XsaveArea};
pub use switch::{switch_thread, CpuLocal, XsaveSteps, USER_RSP_POISON};
