//! Decoding of raw CAN bus frames into messages.
//!
//! A frame carries a 16-bit identifier in its first two bytes, high byte
//! first, followed by the payload. A frame decodes to a message only when it
//! holds both identifier bytes and its identifier is known to the parser's
//! registry.
pub mod error;
pub mod parser;
