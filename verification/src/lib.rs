//! A minimal broker for a length-prefixed binary request/response protocol
//! in the style of Kafka: frames, versioned headers, and one dispatch step.

pub mod kafka;
pub mod logging;
pub mod protocol;
