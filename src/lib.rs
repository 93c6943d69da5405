//! A transfer agent for large-file storage: it decodes line-delimited JSON
//! requests, decides what each one asks for, and encodes the responses that
//! report each object's progress and outcome.

pub mod json;
pub mod protocol;
pub mod transfer;
pub mod agent;
pub mod config;
