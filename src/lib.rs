//! Adapts byte-stream transports to the callback shape of an access-control
//! protocol engine, and derives stable numeric identities for named transports.

pub mod channel;
pub mod identity;

pub use channel::{Channel, OsdpChannel};
pub use identity::{fold_hash, str_to_channel_id};
