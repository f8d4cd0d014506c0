//! Plain records that mirror what travels over the wire.

pub mod channel_type;
pub mod id;
pub mod permission_overwrite;
pub mod webhook_type;
