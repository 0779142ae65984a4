//! Watches a research vessel's public status page: extracts four optional
//! fields from its markup, decides whether the vessel's status changed since
//! the last stored observation, and prepares the notification payload that a
//! caller sends when it did.

pub mod observation;
pub mod compare;
pub mod dom;
pub mod extract;
pub mod notify;
pub mod pipeline;
pub mod queries;
pub mod richtext;
