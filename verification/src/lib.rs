//! Client for the healthchecks.io monitoring service.
//!
//! [`ping`] reports the state of a monitored job with single HTTP GET
//! requests; [`identifier`] says which texts name a check; [`listing`] holds
//! what the command-line tool decides when it lists the checks of an account.

pub mod identifier;
pub mod listing;
pub mod ping;
