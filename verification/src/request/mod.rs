//! Builders for requests to the service's REST interface. A builder checks
//! each field when it is set and describes the request to send; sending it is
//! left to the caller.

pub mod audit;
pub mod route;
pub mod update_channel;
pub mod update_emoji;
pub mod validate;
