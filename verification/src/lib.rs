//! Resolution of a usable, time-bounded set of access credentials from a
//! declarative *credential chain*: a base credential source followed by zero
//! or more sequential "assume a different identity" steps.
//!
//! The crate holds the chain-construction and sequential-resolution logic:
//! the named-provider registry, construction of an executable chain from a
//! parsed chain description, the request shaping and response validation of a
//! single role-assumption step, and the overall sequential resolution
//! contract. The remote identity-assumption call itself is network work that
//! the surrounding program performs; every decision around it — which request
//! to send, with which calling identity, and what each possible response
//! means — is made and proved here.

pub mod credentials;
pub mod digits;
pub mod error;
pub mod exec;
pub mod laws;
pub mod named;
pub mod repr;
pub mod source;
