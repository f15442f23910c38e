//! Compositing bridge core: translates display-protocol surface lifecycle and
//! raw input-device events into the texture registrations, frame notifications
//! and structured messages that an external rendering engine consumes.
//!
//! The crate owns the stateful bookkeeping of that translation — view
//! identifiers, per-view texture queues, double-buffered swap chains, pointer
//! gesture phases and the pressed-button bitmask — and proves its invariants.
//! The surrounding process performs the actual I/O: it reads protocol and
//! device events, hands them to this crate as plain values, and carries the
//! returned engine calls and messages out over its channels.

pub mod input_handling;
pub mod mouse_button_tracker;
pub mod server_state;
pub mod texture_swap_chain;
pub mod wayland_messages;
