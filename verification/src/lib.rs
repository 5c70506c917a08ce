//! Byte-level encoder for a subset of the MQTT version-5 control-packet
//! format: it turns structured in-memory packet descriptions (CONNECT,
//! PUBLISH) into the exact byte sequence required by the wire protocol,
//! ready to be handed to a reliable, ordered byte-stream transport.

pub mod types;
