//! Control of Xen guests through libxenctrl.
//!
//! The crate holds what the control interface decides: which calls into libxenctrl an operation
//! makes, in which order and with which arguments, what it makes of the replies, how the event
//! ring is kept, how a saved guest context is read, and what an event says. It makes no call
//! itself; see [`operation`].
pub mod access;
pub mod consts;
pub mod context;
pub mod control;
pub mod dialogues;
pub mod error;
pub mod event;
pub mod interface;
pub mod laws;
pub mod operation;
pub mod ring;

pub use crate::access::XenPageAccess;
pub use crate::control::{Layout, XenControl};
pub use crate::error::XcError;
pub use crate::event::{VmEventRequest, XenCr, XenEventType};
pub use crate::operation::{Call, Operation, Outcome, Reply};
pub use crate::ring::{BackRing, RingLayout};
