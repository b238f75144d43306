//! Persisted entity records and their binary codecs.

pub mod offering;
pub mod publisher;
pub mod publisher_token;
pub mod purchase;
