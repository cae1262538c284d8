pub mod atomic;
pub mod native;
pub mod narrow;
pub mod spinlock;
mod bits;
pub mod uart;
pub mod kernel;
pub mod laws;

pub use atomic::{Atomic, RmwOp};
pub use native::{AtomicU32, AtomicI32, AtomicU64, AtomicI64, AtomicUSize, AtomicISize};
pub use narrow::{AtomicU8, AtomicI8, AtomicU16, AtomicI16, AtomicBool};
pub use spinlock::{Spinlock, SpinlockGuard};
pub use uart::{UartParity, SifiveUart, Uart16550, InnerUart16550};
