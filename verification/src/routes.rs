//! The decisions of the subscription endpoints. Reading requests, talking to
//! the database and sending mail are left to the caller, which hands the
//! outcome of each step back to these functions.

pub mod status;
pub mod subscriptions;
pub mod subscriptions_confirm;

pub use subscriptions::SubscribeRequest;
pub use subscriptions_confirm::{ConfirmError, Parameters};
