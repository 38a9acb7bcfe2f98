//! Lifecycle bridge between a host application object and a portable event loop.
//!
//! The native side (class synthesis, message sends, the instance's attached-data
//! slot) lives outside this library. What is decided here, and proved, is:
//! the auxiliary state that an application delegate owns and the exclusive-borrow
//! discipline that guards it, the lifecycle actions each callback asks for,
//! and the decoding of "open URL" events.

pub mod aux_state;
pub mod url_event;
pub mod delegate;
pub mod registration;
