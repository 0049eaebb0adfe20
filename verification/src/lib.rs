//! Serial link lifecycle: discovering the port that speaks the telemetry protocol,
//! validating it, and decoding its line-oriented stream into readings.
//!
//! Every component is a small state machine from state and event to next state and
//! action. The code that owns the device performs the actions and reports the events;
//! nothing in this crate touches a device, a clock or a thread.
//!
//! - [`text`]: blanks, searching and decimal fields on bytes.
//! - [`reading`]: a reading and the grammar of the line that carries it.
//! - [`decoder`]: the streaming decoder; [`decoder_laws`]: what holds of every session.
//! - [`validator`]: the protocol validator; [`validator_laws`]: what holds of every
//!   validation.
//! - [`store`]: the slot for the one open port and the cancellation flag.
//! - [`link`]: the connection orchestrator; [`link_laws`]: what holds of every attempt.
//! - [`error`], [`messages`]: what a user is told.
//! - [`presets`]: the preset file.
//! - [`mock`]: a simulated sensor.

pub mod decoder;
pub mod decoder_laws;
pub mod error;
pub mod link;
pub mod link_laws;
pub mod messages;
pub mod mock;
pub mod presets;
pub mod reading;
pub mod store;
pub mod text;
pub mod validator;
pub mod validator_laws;
