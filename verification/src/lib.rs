//! qgl-types: shared payload types for the QGL ecosystem.
//!
//! Every payload carried on the bus is wrapped in an `Envelope<T>` and
//! implements `PayloadValidation`.  Each `is_valid` is verified against a
//! spec function of its type, so that receivers know exactly which payloads
//! they skip.
pub mod clock;
pub mod commands;
pub mod display;
pub mod envelope;
pub mod events;
pub mod input;
pub mod json;
pub mod logs;
pub mod metrics;
pub mod recorder;
pub mod state;
pub mod text;
pub mod validate;

pub use envelope::{CorrelationId, Envelope, ServiceId};
pub use validate::PayloadValidation;
