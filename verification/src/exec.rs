//! The executable chain: role-assumption steps, chain construction from a
//! description, and sequential resolution.
//!
//! A step's remote identity-assumption call is network work that the
//! surrounding program performs through its client. This module decides
//! everything around that call: [`AssumeRoleProvider::request`] shapes the
//! request a step sends, [`AssumeRoleProvider::credentials`] says what every
//! possible outcome of the call means, and [`ProviderChain::resolve`] runs
//! the whole chain over the outcomes, step by step in list order.

use vstd::prelude::*;
use vstd::string::StringExecFns;
use crate::credentials::{
    clone_opt_string,
    opt_str_view,
    result_view,
    Credentials,
    CredentialsError,
    CredentialsResult,
    CredentialsView,
};
use crate::digits::{i64_dec_string, signed_dec_digits};
use crate::error::ProfileFileError;
use crate::named::{lookup_view, NamedProviderFactory};
use crate::repr::{BaseProvider, ProfileChain, RoleArn};
use crate::source::CredentialsSource;

verus! {

/// One role-assumption step: exchanges the credentials it is handed for new,
/// time-bounded credentials by one remote identity-assumption call. Owns its
/// role specification by value and holds no state between invocations.
#[derive(Debug)]
pub struct AssumeRoleProvider {
    pub role_arn: String,
    pub external_id: Option<String>,
    pub session_name: Option<String>,
}

/// The configuration a resolution runs under: an optional region
/// identifier. The network client that carries the remote call belongs to
/// the surrounding program, which pairs it with this value.
#[derive(Debug)]
pub struct ClientConfiguration {
    pub region: Option<String>,
}

/// The request one step sends to the remote identity-assumption operation:
/// the calling identity, the region, the role identifier, the optional
/// external identifier, and the session name (already defaulted).
#[derive(Debug)]
pub struct AssumeRoleRequest {
    pub calling_credentials: Credentials,
    pub region: Option<String>,
    pub role_arn: String,
    pub external_id: Option<String>,
    pub session_name: String,
}

/// The mathematical image of an [`AssumeRoleRequest`].
pub struct RequestView {
    pub calling_credentials: CredentialsView,
    pub region: Option<Seq<char>>,
    pub role_arn: Seq<char>,
    pub external_id: Option<Seq<char>>,
    pub session_name: Seq<char>,
}

impl View for AssumeRoleRequest {
    type V = RequestView;

    open spec fn view(&self) -> RequestView {
        RequestView {
            calling_credentials: self.calling_credentials@,
            region: opt_str_view(self.region),
            role_arn: self.role_arn@,
            external_id: opt_str_view(self.external_id),
            session_name: self.session_name@,
        }
    }
}

/// The credentials payload inside a remote response, loosely typed as the
/// wire allows: every field may be absent, and the expiration (whole seconds
/// relative to the reference epoch) may lie before it.
#[derive(Debug)]
pub struct ResponseCredentials {
    pub access_key_id: Option<String>,
    pub secret_access_key: Option<String>,
    pub session_token: Option<String>,
    pub expiration: Option<i64>,
}

/// A remote identity-assumption response: a credentials payload, when the
/// service sent one.
#[derive(Debug)]
pub struct AssumeRoleResponse {
    pub credentials: Option<ResponseCredentials>,
}

/// What one remote call came back with: a response, or the transport's or
/// service's failure text.
pub type CallOutcome = Result<AssumeRoleResponse, String>;

/// The session name a step sends: its own, or the fixed default when it
/// carries none.
pub open spec fn session_name_view(step: AssumeRoleProvider) -> Seq<char> {
    match step.session_name {
        Some(s) => s@,
        None => "assume-role-provider-session"@,
    }
}

/// The request a step sends when called with the given identity under the
/// given region.
pub open spec fn request_view(
    step: AssumeRoleProvider,
    identity: CredentialsView,
    region: Option<Seq<char>>,
) -> RequestView {
    RequestView {
        calling_credentials: identity,
        region: region,
        role_arn: step.role_arn@,
        external_id: opt_str_view(step.external_id),
        session_name: session_name_view(step),
    }
}

/// The cause text when a response's expiration lies before the reference
/// epoch; it carries the offending value.
pub open spec fn epoch_error_message(v: int) -> Seq<char> {
    "expiration is before unix epoch: "@ + signed_dec_digits(v)
}

/// What one call outcome means, exactly as a step reads it: the transport's
/// failure text is passed through; a response must carry a credentials
/// payload, the payload an expiration not before the reference epoch, an
/// access key identifier and a secret key; the first check that fails names
/// the error, and a response that passes them all yields the validated
/// credential value, tagged as produced by a role-assumption step.
pub open spec fn validate_view(outcome: CallOutcome) -> Result<CredentialsView, Seq<char>> {
    match outcome {
        Err(m) => Err(m@),
        Ok(resp) => match resp.credentials {
            None => Err("assume role provider did not return credentials"@),
            Some(p) => match p.expiration {
                None => Err("missing expiration"@),
                Some(exp) => if exp < 0 {
                    Err(epoch_error_message(exp as int))
                } else {
                    match p.access_key_id {
                        None => Err("access key id missing from result"@),
                        Some(akid) => match p.secret_access_key {
                            None => Err("secret access token missing"@),
                            Some(secret) => Ok(
                                CredentialsView {
                                    access_key_id: akid@,
                                    secret_access_key: secret@,
                                    session_token: opt_str_view(p.session_token),
                                    expiration: Some(exp as u64),
                                    provider_name: "AssumeRoleProvider"@,
                                },
                            ),
                        },
                    }
                },
            },
        },
    }
}

impl AssumeRoleProvider {
    /// Shapes the request this step sends: the supplied credentials as the
    /// calling identity, the configured region, the step's role identifier
    /// and optional external identifier, and the session name, falling back
    /// to the fixed default when the step carries none.
    pub fn request(
        &self,
        input_credentials: &Credentials,
        client_config: &ClientConfiguration,
    ) -> (r: AssumeRoleRequest)
        ensures
            r@ == request_view(*self, input_credentials@, opt_str_view(client_config.region)),
    {
        AssumeRoleRequest {
            calling_credentials: input_credentials.clone(),
            region: clone_opt_string(&client_config.region),
            role_arn: self.role_arn.clone(),
            external_id: clone_opt_string(&self.external_id),
            session_name: match &self.session_name {
                Some(s) => s.clone(),
                None => "assume-role-provider-session".to_owned(),
            },
        }
    }

    /// Reads one call outcome into this step's result: the validated,
    /// time-bounded credential value on success, or exactly one error
    /// describing the first thing wrong. No partial success: any validation
    /// failure discards the entire response.
    pub fn credentials(&self, call_outcome: &CallOutcome) -> (r: CredentialsResult)
        ensures
            result_view(r) == validate_view(*call_outcome),
    {
        match call_outcome {
            Err(m) => Err(CredentialsError::Unhandled(m.clone())),
            Ok(resp) => match &resp.credentials {
                None => Err(
                    CredentialsError::Unhandled(
                        "assume role provider did not return credentials".to_owned(),
                    ),
                ),
                Some(p) => match p.expiration {
                    None => Err(CredentialsError::Unhandled("missing expiration".to_owned())),
                    Some(exp) => if exp < 0 {
                        let mut m: String = "expiration is before unix epoch: ".to_owned();
                        let rendered = i64_dec_string(exp);
                        m.append(rendered.as_str());
                        Err(CredentialsError::Unhandled(m))
                    } else {
                        match &p.access_key_id {
                            None => Err(
                                CredentialsError::Unhandled(
                                    "access key id missing from result".to_owned(),
                                ),
                            ),
                            Some(akid) => match &p.secret_access_key {
                                None => Err(
                                    CredentialsError::Unhandled(
                                        "secret access token missing".to_owned(),
                                    ),
                                ),
                                Some(secret) => Ok(
                                    Credentials::new(
                                        akid.clone(),
                                        secret.clone(),
                                        clone_opt_string(&p.session_token),
                                        Some(exp as u64),
                                        "AssumeRoleProvider",
                                    ),
                                ),
                            },
                        }
                    },
                },
            },
        }
    }
}

/// The step a role specification turns into: the same fields, owned by
/// value.
pub open spec fn step_of(spec: RoleArn) -> AssumeRoleProvider {
    AssumeRoleProvider {
        role_arn: spec.role_arn,
        external_id: spec.external_id,
        session_name: spec.session_name,
    }
}

/// What resolving a description's base against a registry yields: the found
/// or embedded source, or the name of the provider the registry does not
/// know.
pub open spec fn base_source_view(
    base: BaseProvider,
    entries: Seq<(String, CredentialsSource)>,
) -> Result<CredentialsSource, Seq<char>> {
    match base {
        BaseProvider::NamedSource(name) => match lookup_view(entries, name@) {
            Some(source) => Ok(source),
            None => Err(name@),
        },
        BaseProvider::AccessKey(key) => Ok(CredentialsSource::Static(key)),
    }
}

/// An executable chain: the resolved base source (shared — the same named
/// source may back several chains) and the ordered role-assumption steps,
/// each owned by exactly this chain. Immutable after construction, so
/// independent resolutions may run concurrently over it.
#[derive(Debug)]
pub struct ProviderChain {
    base: CredentialsSource,
    chain: Vec<AssumeRoleProvider>,
}

impl ProviderChain {
    /// The chain's base source, as contracts speak of it.
    pub closed spec fn base_source(&self) -> CredentialsSource {
        self.base
    }

    /// The chain's steps in resolution order, as contracts speak of them.
    pub closed spec fn steps(&self) -> Seq<AssumeRoleProvider> {
        self.chain@
    }

    /// The chain's base source.
    pub fn base(&self) -> (r: &CredentialsSource)
        ensures
            *r == self.base_source(),
    {
        &self.base
    }

    /// The chain's steps, in resolution order.
    pub fn chain(&self) -> (r: &Vec<AssumeRoleProvider>)
        ensures
            r@ == self.steps(),
    {
        &self.chain
    }

    /// Builds an executable chain from a parsed description. The base is
    /// resolved through the registry — a named reference the registry does
    /// not know fails with an unknown-provider error carrying that name —
    /// or wrapped directly when the description embeds a static key pair.
    /// Each role specification becomes one step, in order; this cannot fail.
    /// Purely descriptive assembly: no network activity.
    pub fn from_repr(repr: ProfileChain, factory: &NamedProviderFactory) -> (r: Result<
        ProviderChain,
        ProfileFileError,
    >)
        ensures
            (match base_source_view(repr.base, factory.entries()) {
                Ok(source) => r matches Ok(chain) && chain.base_source() == source
                    && chain.steps() == repr.chain@.map_values(|s: RoleArn| step_of(s)),
                Err(name) => r matches Err(ProfileFileError::UnknownProvider { name: offender })
                    && offender@ == name,
            }),
    {
        let base = match repr.base {
            BaseProvider::NamedSource(name) => match factory.provider(name.as_str()) {
                Some(source) => source,
                None => {
                    return Err(ProfileFileError::UnknownProvider { name });
                },
            },
            BaseProvider::AccessKey(key) => CredentialsSource::Static(key),
        };
        let n = repr.chain.len();
        let mut steps: Vec<AssumeRoleProvider> = Vec::new();
        let mut i: usize = 0;
        while i < n
            invariant
                i <= n,
                n == repr.chain.len(),
                steps@ == repr.chain@.take(i as int).map_values(|s: RoleArn| step_of(s)),
            decreases n - i,
        {
            let entry = &repr.chain[i];
            steps.push(
                AssumeRoleProvider {
                    role_arn: entry.role_arn.clone(),
                    external_id: clone_opt_string(&entry.external_id),
                    session_name: clone_opt_string(&entry.session_name),
                },
            );
            proof {
                assert(steps@ =~= repr.chain@.take(i + 1).map_values(|s: RoleArn| step_of(s)));
            }
            i += 1;
        }
        proof {
            assert(repr.chain@.take(n as int) =~= repr.chain@);
        }
        Ok(ProviderChain { base, chain: steps })
    }
}

/// What sequential resolution yields from position `i` on, once the work so
/// far stands at `current`: a failure is propagated unchanged and at once,
/// and each remaining outcome in turn replaces the current credentials with
/// what its step's validation makes of it.
pub open spec fn resolve_from(
    current: Result<CredentialsView, Seq<char>>,
    outcomes: Seq<CallOutcome>,
    i: int,
) -> Result<CredentialsView, Seq<char>>
    decreases outcomes.len() - i,
{
    if i < 0 || i >= outcomes.len() {
        current
    } else {
        match current {
            Err(e) => Err(e),
            Ok(_) => resolve_from(validate_view(outcomes[i]), outcomes, i + 1),
        }
    }
}

/// What a whole chain resolves to, given the base source's outcome and the
/// remote outcome of each step in list order. A chain with no steps hands
/// the base outcome back unchanged.
pub open spec fn resolve_view(
    base_outcome: Result<CredentialsView, Seq<char>>,
    outcomes: Seq<CallOutcome>,
) -> Result<CredentialsView, Seq<char>> {
    resolve_from(base_outcome, outcomes, 0)
}

/// The requests a resolution sends from position `i` on, once the work so
/// far stands at `current`: none after a failure; otherwise step `i`'s
/// request, signed with the current credentials, followed by the requests of
/// the remaining steps.
pub open spec fn requests_from(
    steps: Seq<AssumeRoleProvider>,
    current: Result<CredentialsView, Seq<char>>,
    outcomes: Seq<CallOutcome>,
    region: Option<Seq<char>>,
    i: int,
) -> Seq<RequestView>
    decreases steps.len() - i,
{
    if i < 0 || i >= steps.len() {
        Seq::empty()
    } else {
        match current {
            Err(_) => Seq::empty(),
            Ok(identity) => seq![request_view(steps[i], identity, region)] + requests_from(
                steps,
                validate_view(outcomes[i]),
                outcomes,
                region,
                i + 1,
            ),
        }
    }
}

/// The requests a whole resolution sends, in the order it sends them.
pub open spec fn requests_view(
    steps: Seq<AssumeRoleProvider>,
    base_outcome: Result<CredentialsView, Seq<char>>,
    outcomes: Seq<CallOutcome>,
    region: Option<Seq<char>>,
) -> Seq<RequestView> {
    requests_from(steps, base_outcome, outcomes, region, 0)
}

/// The views of a run of sent requests.
pub open spec fn sent_view(requests: Seq<AssumeRoleRequest>) -> Seq<RequestView> {
    requests.map_values(|q: AssumeRoleRequest| q@)
}

impl ProviderChain {
    /// Resolves the chain: starting from the base source's outcome, feeds
    /// the current credentials through each step in strict list order,
    /// replacing them with the step's output, and hands back the last
    /// step's result — or the base outcome unchanged when the chain has no
    /// steps. The first failure aborts the whole resolution at once and is
    /// propagated unchanged; there is no partial result and no fallback.
    ///
    /// The remote call of step `i` is outside work; `step_outcomes[i]` is
    /// what it came back with, and is read only if resolution reaches step
    /// `i`. The second value returned is the request log: one entry per
    /// remote call the resolution performs, in order, each signed with the
    /// credentials produced just before it.
    #[verifier::loop_isolation(false)]
    pub fn resolve(
        &self,
        client_config: &ClientConfiguration,
        base_outcome: CredentialsResult,
        step_outcomes: &Vec<CallOutcome>,
    ) -> (r: (CredentialsResult, Vec<AssumeRoleRequest>))
        requires
            step_outcomes@.len() == self.steps().len(),
        ensures
            result_view(r.0) == resolve_view(result_view(base_outcome), step_outcomes@),
            sent_view(r.1@) == requests_view(
                self.steps(),
                result_view(base_outcome),
                step_outcomes@,
                opt_str_view(client_config.region),
            ),
    {
        let ghost base_v = result_view(base_outcome);
        let ghost region_v = opt_str_view(client_config.region);
        let mut requests: Vec<AssumeRoleRequest> = Vec::new();
        let mut current: Credentials = match base_outcome {
            Ok(c) => c,
            Err(e) => {
                return (Err(e), requests);
            },
        };
        let n = self.chain.len();
        let mut i: usize = 0;
        while i < n
            invariant
                i <= n,
                n == self.chain.len(),
                step_outcomes@.len() == n,
                region_v == opt_str_view(client_config.region),
                resolve_from(Ok(current@), step_outcomes@, i as int) == resolve_view(
                    base_v,
                    step_outcomes@,
                ),
                sent_view(requests@) + requests_from(
                    self.chain@,
                    Ok(current@),
                    step_outcomes@,
                    region_v,
                    i as int,
                ) == requests_view(self.chain@, base_v, step_outcomes@, region_v),
            decreases n - i,
        {
            let step = &self.chain[i];
            let ghost requests_before = requests@;
            let request = step.request(&current, client_config);
            let ghost request_v = request@;
            requests.push(request);
            proof {
                assert(sent_view(requests@) =~= sent_view(requests_before).push(request_v));
            }
            match step.credentials(&step_outcomes[i]) {
                Ok(c) => {
                    proof {
                        assert(requests_from(
                            self.chain@,
                            Ok(current@),
                            step_outcomes@,
                            region_v,
                            i as int,
                        ) =~= seq![request_v] + requests_from(
                            self.chain@,
                            validate_view(step_outcomes@[i as int]),
                            step_outcomes@,
                            region_v,
                            i + 1,
                        ));
                        assert(sent_view(requests_before).push(request_v) + requests_from(
                            self.chain@,
                            validate_view(step_outcomes@[i as int]),
                            step_outcomes@,
                            region_v,
                            i + 1,
                        ) =~= sent_view(requests_before) + (seq![request_v] + requests_from(
                            self.chain@,
                            validate_view(step_outcomes@[i as int]),
                            step_outcomes@,
                            region_v,
                            i + 1,
                        )));
                    }
                    current = c;
                },
                Err(e) => {
                    proof {
                        assert(resolve_from(Ok(current@), step_outcomes@, i as int)
                            == resolve_from(
                            validate_view(step_outcomes@[i as int]),
                            step_outcomes@,
                            i + 1,
                        ));
                        assert(resolve_from(
                            validate_view(step_outcomes@[i as int]),
                            step_outcomes@,
                            i + 1,
                        ) == validate_view(step_outcomes@[i as int]));
                        assert(requests_from(
                            self.chain@,
                            Ok(current@),
                            step_outcomes@,
                            region_v,
                            i as int,
                        ) =~= seq![request_v] + requests_from(
                            self.chain@,
                            validate_view(step_outcomes@[i as int]),
                            step_outcomes@,
                            region_v,
                            i + 1,
                        ));
                        assert(sent_view(requests@) + requests_from(
                            self.chain@,
                            validate_view(step_outcomes@[i as int]),
                            step_outcomes@,
                            region_v,
                            i + 1,
                        ) =~= requests_view(self.chain@, base_v, step_outcomes@, region_v));
                        assert(requests_from(
                            self.chain@,
                            validate_view(step_outcomes@[i as int]),
                            step_outcomes@,
                            region_v,
                            i + 1,
                        ) =~= Seq::<RequestView>::empty());
                        assert(sent_view(requests@) + Seq::<RequestView>::empty() =~= sent_view(
                            requests@,
                        ));
                    }
                    return (Err(e), requests);
                },
            }
            i += 1;
        }
        proof {
            assert(sent_view(requests@) + Seq::<RequestView>::empty() =~= sent_view(requests@));
        }
        (Ok(current), requests)
    }
}

} // verus!
