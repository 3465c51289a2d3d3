//! Connection-control engine of an agent that keeps a workstation logged in
//! to a campus captive portal and watches its data quota.
//!
//! - `credentials`: the account and the file that keeps it.
//! - `portal`: the portal's requests and how its replies read.
//! - `quota`: the figures of the account page and the warning levels.
//! - `engine`: the state store, the login and traffic loops, the user's
//!   commands.
pub mod credentials;
pub mod engine;
pub mod portal;
pub mod quota;
mod text;
