//! Userspace block-device driver core: the control-plane lifecycle, the
//! per-queue I/O engine state machine, and the fixed wire records exchanged
//! with the kernel framework.
pub mod abi;
pub mod bytes;
pub mod ctrl;
pub mod queue;
pub mod ring;
pub mod token;
