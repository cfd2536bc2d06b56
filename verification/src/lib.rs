//! A boundary library for a host application written in another language:
//! archive extraction into host-supplied storage, leveled logging, and a
//! rich-presence client lifecycle.
//!
//! The host hands in plain values (byte buffers already read off the wire,
//! already checked for null at the pointer level); this crate validates
//! them, performs the computation, and hands back plain values or status
//! outcomes. All delegation to outside libraries goes through small trusted
//! wrappers whose contracts state what the callee's source shows.

pub mod marshal;
pub mod logging;
pub mod extract;
pub mod presence;
