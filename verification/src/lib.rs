//! Validation of newsletter subscriptions and the decisions of the
//! subscription endpoints.

pub mod domain;
pub mod routes;
pub mod decimal;
pub mod startup;
