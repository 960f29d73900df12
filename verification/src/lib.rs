//! Verified model of a bare-metal interrupt subsystem: a latched port bus,
//! typed port access, a cascaded dual interrupt controller, a periodic
//! interval timer, a scancode keyboard decoder, a gate descriptor table,
//! the entry trampoline protocol, and the exception/IRQ dispatch policy.
//!
//! Hardware access is modelled explicitly: every port read and write goes
//! through a `PortBus` value that latches the last byte written to each port
//! and records the full sequence of operations, so contracts can state
//! exactly which port traffic each driver operation produces.
//!
//! The kernel guards its driver singletons with busy-wait locks and must
//! never let a handler contend for a lock its interrupted code holds. Here
//! exclusive ownership stands in for those locks: every driver operation
//! and every dispatch takes `&mut` on the state it touches, so a critical
//! section can never be entered twice — the deadlock-avoidance obligation
//! becomes a borrow the compiler checks rather than a convention.

pub mod bus;
pub mod dispatch;
pub mod idt;
pub mod kbd;
pub mod pic;
pub mod pit;
pub mod port;
pub mod trampoline;

pub use bus::PortBus;
pub use bus::PortOp;
pub use dispatch::ExceptionStackFrame;
pub use dispatch::Outcome;
pub use idt::GateDescriptor;
pub use idt::IDTable;
pub use idt::Registers;
pub use kbd::Keyboard;
pub use pic::ChainedPics;
pub use pit::Pit;
pub use port::InOut;
pub use port::Port;
