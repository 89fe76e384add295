//! Resolution of inbound user-interaction events into a normalized context,
//! together with a short-lived, keyed store of pending multi-step
//! interaction state.
//!
//! A raw event (command invocation, component activation or modal
//! submission) is normalized into an [`event::InteractionEnvelope`], then
//! resolved into an [`context::InteractionContext`], fetching the guild
//! configuration record exactly once for guild-scoped events. Handlers that
//! defer a follow-up action write a [`component::PendingComponent`] record
//! into a [`store::PendingComponentStore`], which expires records after a
//! fixed time-to-live.

pub mod component;
pub mod context;
pub mod error;
pub mod event;
pub mod guild;
pub mod model;
pub mod store;
