//! Building, signing and querying Cosmos SDK bank transactions, with the
//! wire conversions, error taxonomy and response handling proved in Verus.

pub mod amount;
pub mod error;
pub mod pagination;
pub mod query;
pub mod wire;
pub mod tx;
pub mod bank;
pub mod client;
pub mod model;
