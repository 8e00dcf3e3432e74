//! The real-time core of a single-voice synthesizer plugin.
//!
//! The interface edits a [`model::Model`] of parameters through a
//! [`view::View`]; once per render cycle a [`bridge::Bridge`] tells the
//! synthesis engine which parameters changed and hands a rendered buffer to
//! the host; a [`voice::VoiceTracker`] turns note messages into pitch and
//! trigger writes. Parameter values are carried as the bit patterns described
//! in [`value`].

pub mod bridge;
pub mod model;
pub mod value;
pub mod view;
pub mod voice;
