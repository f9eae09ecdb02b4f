//! Unlocking of the password-protected Samsung Portable SSD T1, T3 and T5.
//!
//! The drives speak a small bulk-transfer protocol: a 31-byte unlock command
//! block, a 512-byte password block and a 31-byte relink command block, the
//! password block and the relink block each acknowledged by a 512-byte reply.
//! This crate builds those blocks, judges the replies and drives the exchange
//! as a state machine; the USB transfers themselves are performed by the
//! caller, which hands each outcome back.

pub mod cli;
pub mod errors;
pub mod text;
pub mod usb;
