//! Control core of a single-core kernel: interrupt masking, the process
//! table and its round-robin scheduler, and the system-call dispatcher.
pub mod mask;
pub mod table;
pub mod console;
pub mod session;
pub mod dispatch;
pub mod ohci;
