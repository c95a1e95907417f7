//! Client side of the password-verifier SRP sign-in of a user pool: the
//! builder of the token client, the session that turns a pool identity and a
//! password into the request parameters and the answer to the server's
//! challenge, and the checks on what the identity provider returns.
pub mod client;
pub mod error;
pub mod group;
pub mod pairs;
pub mod srp;
pub mod srp_client;
pub mod tokens;

pub use client::{TokenClient, TokenClientBuilder};
pub use error::AuthError;
pub use srp::{PoolIdentity, SrpSession};
