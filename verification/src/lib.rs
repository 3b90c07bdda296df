//! Transport, framing and display logic of an on-screen notification
//! service: producers write NUL-delimited messages to a local byte channel,
//! and one presenter decodes them and drives a debounced show/hide surface.

pub mod client;
pub mod display;
pub mod frame;
pub mod json;
pub mod message;
pub mod payload;
pub mod recent;
pub mod stream;
pub mod text;
pub mod timeline;
pub mod transport;
pub mod wire;
