//! Safe access to the memory and error conventions of the LabVIEW runtime.
//!
//! The host keeps its data in relocatable blocks reached through handles
//! (a pointer to a pointer), reports failures as numeric status codes and
//! threads errors through call chains in three-field error clusters.
//! This crate models that memory, proves the bookkeeping around it and
//! converts between the host's error conventions and its own.

pub mod array;
pub mod boolean;
pub mod dims;
pub mod error_cluster;
pub mod errors;
pub mod host;
pub mod memory;
pub mod mg_error;
pub mod status;
pub mod string;
pub mod timestamp;

