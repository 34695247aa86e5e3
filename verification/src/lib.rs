//! Verified decisions of a Media Foundation capture pipeline.
//!
//! Every call into the operating system is made by the caller. This crate says which call
//! comes next, what each reply to it means, and what is returned in the end.

pub mod com;
pub mod devices;
pub mod driver;
pub mod error;
pub mod graphics;
pub mod machine;
pub mod media;
pub mod payload;
pub mod pipeline;
pub mod reader;
pub mod reading;
pub mod sample;
pub mod timestamps;
pub mod unsupported;
pub mod windows_mf;
pub mod worker;
