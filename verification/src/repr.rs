//! The parsed chain description, as an external configuration parser hands
//! it over: a base-source reference plus an ordered list of role
//! specifications. Immutable once parsed; consumed by the chain builder.

use vstd::prelude::*;
use crate::credentials::Credentials;

verus! {

/// The base-source reference of a chain description: either a stable name
/// to look up in the registry, or an embedded static access-key pair that
/// needs no lookup.
#[derive(Debug)]
pub enum BaseProvider {
    NamedSource(String),
    AccessKey(Credentials),
}

/// One role specification: the role identifier (required), an optional
/// external identifier, and an optional session name. When the session name
/// is absent, a fixed default is used at request time.
#[derive(Debug)]
pub struct RoleArn {
    pub role_arn: String,
    pub external_id: Option<String>,
    pub session_name: Option<String>,
}

/// A whole chain description. Order is significant: entry `i` of `chain`
/// assumes its role using the credentials produced by entry `i - 1`, or by
/// the base source for the first entry.
#[derive(Debug)]
pub struct ProfileChain {
    pub base: BaseProvider,
    pub chain: Vec<RoleArn>,
}

} // verus!
