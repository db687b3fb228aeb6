//! Trust-establishment core of a single sign-on gateway: identity-token
//! verification against a rotating key set, the account approval state
//! machine, and the cached exchange for downstream network credentials.

pub mod keys;
pub mod token;
pub mod account;
pub mod upstream;
pub mod broker;
pub mod config;
