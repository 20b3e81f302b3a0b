//! Obfuscation of string, byte string and C string literals: each byte is
//! masked with a random pad and kept beside it; decoding gives a buffer that is
//! overwritten with zeroes when dropped.
pub mod codec;
pub mod data;
pub mod obfuscated;
pub mod encoder;
pub mod args;
pub mod laws;
