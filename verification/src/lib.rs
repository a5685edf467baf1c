//! Classifies the desktop's background colour as a dark or a light scheme and
//! carries each classified change from the notification callback to a single
//! polling consumer through a one-slot channel.
//!
//! When the slot is taken, a new value is dropped and the pending one is kept:
//! the consumer sees the oldest change that it has not yet read, and values
//! are never reordered. A change that arrives while another waits is lost, so
//! the last scheme that the consumer sees may no longer be the current one.

pub mod scheme;
pub mod bridge;
pub mod channel;
pub mod receiver;
pub mod protocol;
