//! The credential value that a chain resolves to, and the error that a
//! failed resolution reports.

use vstd::prelude::*;

verus! {

/// A resolved set of access credentials: an access key identifier, the
/// secret key material, an optional session token, an optional absolute
/// expiration instant (whole seconds since the reference epoch, hence never
/// earlier than it), and a provenance tag naming the component that produced
/// the value. Constructed once per resolution and immutable afterward.
#[derive(Debug)]
pub struct Credentials {
    pub access_key_id: String,
    pub secret_access_key: String,
    pub session_token: Option<String>,
    pub expiration: Option<u64>,
    pub provider_name: String,
}

/// The mathematical image of a [`Credentials`] value: each text field as its
/// character sequence.
pub struct CredentialsView {
    pub access_key_id: Seq<char>,
    pub secret_access_key: Seq<char>,
    pub session_token: Option<Seq<char>>,
    pub expiration: Option<u64>,
    pub provider_name: Seq<char>,
}

/// The view of an optional string: the character sequence, if one is there.
pub open spec fn opt_str_view(o: Option<String>) -> Option<Seq<char>> {
    match o {
        Some(s) => Some(s@),
        None => None,
    }
}

impl View for Credentials {
    type V = CredentialsView;

    open spec fn view(&self) -> CredentialsView {
        CredentialsView {
            access_key_id: self.access_key_id@,
            secret_access_key: self.secret_access_key@,
            session_token: opt_str_view(self.session_token),
            expiration: self.expiration,
            provider_name: self.provider_name@,
        }
    }
}

/// Clones an optional string, field for field.
pub fn clone_opt_string(o: &Option<String>) -> (r: Option<String>)
    ensures
        r == o,
{
    match o {
        Some(s) => Some(s.clone()),
        None => None,
    }
}

impl Credentials {
    /// Builds a credential value from its parts.
    pub fn new(
        access_key_id: String,
        secret_access_key: String,
        session_token: Option<String>,
        expiration: Option<u64>,
        provider_name: &str,
    ) -> (r: Credentials)
        ensures
            r@ == (CredentialsView {
                access_key_id: access_key_id@,
                secret_access_key: secret_access_key@,
                session_token: opt_str_view(session_token),
                expiration: expiration,
                provider_name: provider_name@,
            }),
    {
        Credentials {
            access_key_id,
            secret_access_key,
            session_token,
            expiration,
            provider_name: provider_name.to_owned(),
        }
    }
}

impl Clone for Credentials {
    fn clone(&self) -> (r: Credentials)
        ensures
            r == self,
    {
        Credentials {
            access_key_id: self.access_key_id.clone(),
            secret_access_key: self.secret_access_key.clone(),
            session_token: clone_opt_string(&self.session_token),
            expiration: self.expiration,
            provider_name: self.provider_name.clone(),
        }
    }
}

/// Why a resolution produced no credentials: one broad kind carrying a
/// human-readable cause. Failures of the remote call and every response
/// validation failure are reported through it; no automatic retry happens at
/// this layer.
#[derive(Debug)]
pub enum CredentialsError {
    Unhandled(String),
}

impl CredentialsError {
    /// The human-readable cause carried by the error.
    pub fn message(&self) -> (r: &String)
        ensures
            *self == CredentialsError::Unhandled(*r),
    {
        match self {
            CredentialsError::Unhandled(m) => m,
        }
    }
}

/// What a credential source or a chain resolution hands back: one credential
/// value, or one error.
pub type CredentialsResult = Result<Credentials, CredentialsError>;

/// The mathematical image of a [`CredentialsResult`]: the credential view on
/// success, the cause text on failure.
pub open spec fn result_view(r: CredentialsResult) -> Result<CredentialsView, Seq<char>> {
    match r {
        Ok(c) => Ok(c@),
        Err(CredentialsError::Unhandled(m)) => Err(m@),
    }
}

} // verus!
