//! Normalization of media-catalog records into one result model, and the
//! decision logic of a single-redirect stream relay.

pub mod thumbnail;
pub mod record;
pub mod search;
pub mod aggregate;
pub mod channel;
pub mod playlist;
pub mod trending;
pub mod relay;
