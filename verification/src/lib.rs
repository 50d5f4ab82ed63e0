//! In-memory mock of a CAN bus.
//!
//! Frames are routed between interfaces attached to a shared bus, without
//! timing or hardware. Every interface has its own receive queue and its own
//! list of acceptance filters; a transmitted frame goes to every interface
//! of the bus whose filters accept it, the sender included.
//!
//! - [`id`], [`frame`] and [`filter`] hold the values that travel: identifiers,
//!   frames, and the filters that gate them.
//! - [`interface`] holds the state of one interface and all that can happen
//!   to it: delivery, first-in-first-out removal, replacement of filters.
//!   These functions are sequential, and their contracts say exactly what
//!   becomes of the state.
//! - [`bus`] holds the state of a bus, and the handles through which threads
//!   share a bus and its interfaces. A handle takes a lock and calls into
//!   the state behind it; what it finds there depends on the other threads.
//! - [`adapter`] offers one interface with the operations of a CAN
//!   controller.
//!
//! Locks, condition variables and reference counts are those of `std::sync`.
//! What is taken on trust about them stands in one file of the crate.

pub mod adapter;
pub mod bus;
pub mod filter;
pub mod frame;
pub mod id;
pub mod interface;
mod sync;

pub use adapter::{MockBuffered, MockBuilder, MockCan, MockError, MockRx, MockTx};
pub use bus::{BusHandle, InterfaceHandle, MockBus, MockInterfaceError, TransmitError};
pub use filter::{FilterError, IdMask, IdMaskFilter};
pub use frame::{MockFrame, MockFrameType};
pub use id::{ExtendedId, Id, StandardId};
pub use interface::MockInterface;
