//! A safety boundary around an OpenCL device.
//!
//! The crate keeps the books of one device context: which kernels and which
//! memory buffers are registered, and for every buffer whether the host or the
//! device owns its memory at the moment. It decides which device call is due
//! next and what each reply of the device means, and it never talks to the
//! device itself: every call is handed out as a [`Command`] and every answer
//! is handed back in as a plain value.
//!
//! [`Startup`] brings a context up, [`Accel`] is the context with its two
//! registries, and the module [`laws`] holds what is proved of the operations
//! taken together.
pub mod accel;
pub mod buffer;
pub mod command;
pub mod dispatch;
pub mod error;
pub mod kernel;
pub mod laws;
pub mod model;
pub mod startup;
pub mod status;
pub mod teardown;

pub use accel::Accel;
pub use buffer::{BufferId, BufferRecord, HostBlock, Ownership};
pub use command::{ArgValue, Command, KernelArg};
pub use dispatch::{next_call, split_replies, TrueArg};
pub use error::Error;
pub use startup::{Reply, Stage, Startup, Step};
pub use status::error_text;
pub use teardown::{teardown_report, ReleaseFailure};
