//! Pointer-input normalization: native mouse, touch and pen samples become
//! one canonical pointer event, delivered in order to a window's queue.
//!
//! - [`event`]: the canonical event and its parts.
//! - [`history`]: samples of the history-based native API (touch and pen).
//! - [`dom`]: browser pointer events and their coalesced sub-events.
//! - [`sink`]: the per-window queue the events are appended to.

pub mod dom;
pub mod event;
pub mod history;
pub mod sink;
