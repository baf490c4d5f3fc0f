//! The base credential source that seeds a chain.

use vstd::prelude::*;
use crate::credentials::Credentials;

verus! {

/// One credential source: the capability "produce credentials or fail",
/// closed over its two shapes. A static source embeds an access-key pair and
/// resolves to exactly that value, with no outside work. An external source
/// stands for a dynamic provider that the surrounding program owns — the
/// handle picks it out there — and whose credentials are produced outside
/// this crate, one asynchronous resolution per request.
#[derive(Debug)]
pub enum CredentialsSource {
    External(u64),
    Static(Credentials),
}

impl CredentialsSource {
    /// The credentials a source can hand out without outside work: the
    /// embedded pair of a static source. An external source has none here;
    /// its outcome is produced by the program that owns it.
    pub fn static_credentials(&self) -> (r: Option<Credentials>)
        ensures
            (match self {
                CredentialsSource::Static(c) => r == Some(*c),
                CredentialsSource::External(_) => r is None,
            }),
    {
        match self {
            CredentialsSource::Static(c) => Some(c.clone()),
            CredentialsSource::External(_) => None,
        }
    }
}

impl Clone for CredentialsSource {
    fn clone(&self) -> (r: CredentialsSource)
        ensures
            r == self,
    {
        match self {
            CredentialsSource::External(handle) => CredentialsSource::External(*handle),
            CredentialsSource::Static(c) => CredentialsSource::Static(c.clone()),
        }
    }
}

} // verus!
