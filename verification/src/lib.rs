//! Gateway core of a card-payment oracle: the decisions taken at the trust
//! boundary between callers, the message processor and the account store.

pub mod batch;
pub mod canonical;
pub mod error;
pub mod gateway;
pub mod model;
pub mod seed;
pub mod signature;
