//! The chain-wide guarantees, stated over the resolution model and proved
//! once for every chain, base outcome and run of remote outcomes.

use vstd::prelude::*;
use vstd::pervasive::arbitrary;
use crate::credentials::CredentialsView;
use crate::exec::{
    epoch_error_message,
    request_view,
    requests_from,
    requests_view,
    resolve_from,
    resolve_view,
    validate_view,
    AssumeRoleProvider,
    CallOutcome,
    RequestView,
};

verus! {

/// The credential value a valid call outcome validates to.
pub open spec fn validated_credentials(outcome: CallOutcome) -> CredentialsView {
    match validate_view(outcome) {
        Ok(c) => c,
        Err(_) => arbitrary(),
    }
}

/// A chain with no steps hands the base outcome back unchanged: the base
/// source's credentials, or its failure, untouched.
pub proof fn lemma_empty_chain_resolution(
    base_outcome: Result<CredentialsView, Seq<char>>,
    outcomes: Seq<CallOutcome>,
)
    requires
        outcomes.len() == 0,
    ensures
        resolve_view(base_outcome, outcomes) == base_outcome,
{
}

/// Whatever a valid outcome validates to is tagged as produced by a
/// role-assumption step and always carries an expiration.
pub proof fn lemma_validated_provenance(outcome: CallOutcome)
    requires
        validate_view(outcome) is Ok,
    ensures
        validate_view(outcome) matches Ok(c) && c.provider_name == "AssumeRoleProvider"@
            && c.expiration is Some,
{
}

proof fn lemma_all_valid_from(
    steps: Seq<AssumeRoleProvider>,
    identity: CredentialsView,
    outcomes: Seq<CallOutcome>,
    region: Option<Seq<char>>,
    i: int,
)
    requires
        0 <= i <= steps.len(),
        outcomes.len() == steps.len(),
        forall|j: int| i <= j < outcomes.len() ==> (#[trigger] validate_view(outcomes[j])) is Ok,
    ensures
        i == steps.len() ==> resolve_from(Ok(identity), outcomes, i) == Ok::<
            CredentialsView,
            Seq<char>,
        >(identity),
        i < steps.len() ==> resolve_from(Ok(identity), outcomes, i) == validate_view(
            outcomes[steps.len() - 1],
        ),
        requests_from(steps, Ok(identity), outcomes, region, i).len() == steps.len() - i,
        forall|k: int|
            0 <= k < steps.len() - i ==> #[trigger] requests_from(
                steps,
                Ok(identity),
                outcomes,
                region,
                i,
            )[k] == request_view(
                steps[i + k],
                if k == 0 {
                    identity
                } else {
                    validated_credentials(outcomes[i + k - 1])
                },
                region,
            ),
    decreases steps.len() - i,
{
    if i < steps.len() {
        let v = validate_view(outcomes[i]);
        let next = validated_credentials(outcomes[i]);
        assert(v == Ok::<CredentialsView, Seq<char>>(next));
        lemma_all_valid_from(steps, next, outcomes, region, i + 1);
        let r_here = requests_from(steps, Ok(identity), outcomes, region, i);
        let r_rest = requests_from(steps, Ok(next), outcomes, region, i + 1);
        assert(r_here =~= seq![request_view(steps[i], identity, region)] + r_rest);
        assert forall|k: int| 0 <= k < steps.len() - i implies #[trigger] r_here[k]
            == request_view(
            steps[i + k],
            if k == 0 {
                identity
            } else {
                validated_credentials(outcomes[i + k - 1])
            },
            region,
        ) by {
            if k > 0 {
                assert(r_here[k] == r_rest[k - 1]);
            }
        }
        assert(resolve_from(Ok(identity), outcomes, i) == resolve_from(v, outcomes, i + 1));
    }
}

/// Sequential resolution over a chain of steps whose every remote outcome is
/// valid: exactly one request per step, issued in list order; the first is
/// signed with the base credentials and each later one with the credentials
/// the step just before it produced; the result is what the last step's
/// outcome validates to — tagged as role-assumption output — or the base
/// credentials untouched when there are no steps.
pub proof fn lemma_sequential_resolution(
    steps: Seq<AssumeRoleProvider>,
    base: CredentialsView,
    outcomes: Seq<CallOutcome>,
    region: Option<Seq<char>>,
)
    requires
        outcomes.len() == steps.len(),
        forall|j: int| 0 <= j < outcomes.len() ==> (#[trigger] validate_view(outcomes[j])) is Ok,
    ensures
        requests_view(steps, Ok(base), outcomes, region).len() == steps.len(),
        forall|k: int|
            0 <= k < steps.len() ==> #[trigger] requests_view(steps, Ok(base), outcomes, region)[k]
                == request_view(
                steps[k],
                if k == 0 {
                    base
                } else {
                    validated_credentials(outcomes[k - 1])
                },
                region,
            ),
        steps.len() == 0 ==> resolve_view(Ok(base), outcomes) == Ok::<CredentialsView, Seq<char>>(
            base,
        ),
        steps.len() > 0 ==> resolve_view(Ok(base), outcomes) == validate_view(
            outcomes[steps.len() - 1],
        ),
        steps.len() > 0 ==> (resolve_view(Ok(base), outcomes) matches Ok(c) && c.provider_name
            == "AssumeRoleProvider"@ && c.expiration is Some),
{
    lemma_all_valid_from(steps, base, outcomes, region, 0);
    if steps.len() > 0 {
        lemma_validated_provenance(outcomes[steps.len() - 1]);
    }
}

proof fn lemma_failure_from(
    steps: Seq<AssumeRoleProvider>,
    identity: CredentialsView,
    outcomes: Seq<CallOutcome>,
    region: Option<Seq<char>>,
    i: int,
    k: int,
)
    requires
        0 <= i <= k < steps.len(),
        outcomes.len() == steps.len(),
        forall|j: int| i <= j < k ==> (#[trigger] validate_view(outcomes[j])) is Ok,
        validate_view(outcomes[k]) is Err,
    ensures
        resolve_from(Ok(identity), outcomes, i) == validate_view(outcomes[k]),
        requests_from(steps, Ok(identity), outcomes, region, i).len() == k + 1 - i,
    decreases k - i,
{
    let v = validate_view(outcomes[i]);
    let r_here = requests_from(steps, Ok(identity), outcomes, region, i);
    if i == k {
        assert(resolve_from(Ok(identity), outcomes, i) == resolve_from(v, outcomes, i + 1));
        assert(resolve_from(v, outcomes, i + 1) == v);
        assert(requests_from(steps, v, outcomes, region, i + 1)
            =~= Seq::<RequestView>::empty());
        assert(r_here =~= seq![request_view(steps[i], identity, region)] + requests_from(
            steps,
            v,
            outcomes,
            region,
            i + 1,
        ));
    } else {
        let next = validated_credentials(outcomes[i]);
        assert(v == Ok::<CredentialsView, Seq<char>>(next));
        lemma_failure_from(steps, next, outcomes, region, i + 1, k);
        assert(resolve_from(Ok(identity), outcomes, i) == resolve_from(v, outcomes, i + 1));
        assert(r_here =~= seq![request_view(steps[i], identity, region)] + requests_from(
            steps,
            v,
            outcomes,
            region,
            i + 1,
        ));
    }
}

/// The first invalid remote outcome aborts the whole resolution: the chain's
/// result is exactly that step's error, propagated unchanged, and no request
/// is sent past the failing step — the failing step's own request is the
/// last one issued.
pub proof fn lemma_step_failure_aborts(
    steps: Seq<AssumeRoleProvider>,
    base: CredentialsView,
    outcomes: Seq<CallOutcome>,
    region: Option<Seq<char>>,
    k: int,
)
    requires
        outcomes.len() == steps.len(),
        0 <= k < steps.len(),
        forall|j: int| 0 <= j < k ==> (#[trigger] validate_view(outcomes[j])) is Ok,
        validate_view(outcomes[k]) is Err,
    ensures
        resolve_view(Ok(base), outcomes) == validate_view(outcomes[k]),
        requests_view(steps, Ok(base), outcomes, region).len() == k + 1,
{
    lemma_failure_from(steps, base, outcomes, region, 0, k);
}

/// A step whose remote response omits the expiration fails the whole
/// resolution with the unhandled cause naming the missing field; no
/// credential value is produced and no request is sent past that step.
pub proof fn lemma_missing_expiration_fails(
    steps: Seq<AssumeRoleProvider>,
    base: CredentialsView,
    outcomes: Seq<CallOutcome>,
    region: Option<Seq<char>>,
    k: int,
)
    requires
        outcomes.len() == steps.len(),
        0 <= k < steps.len(),
        forall|j: int| 0 <= j < k ==> (#[trigger] validate_view(outcomes[j])) is Ok,
        outcomes[k] matches Ok(resp) && resp.credentials matches Some(p) && p.expiration is None,
    ensures
        resolve_view(Ok(base), outcomes) == Err::<CredentialsView, Seq<char>>(
            "missing expiration"@,
        ),
        requests_view(steps, Ok(base), outcomes, region).len() == k + 1,
{
    lemma_step_failure_aborts(steps, base, outcomes, region, k);
}

/// A step whose remote response carries an expiration earlier than the
/// reference epoch fails the whole resolution with an unhandled cause that
/// names the invalid value; no request is sent past that step.
pub proof fn lemma_epoch_expiration_fails(
    steps: Seq<AssumeRoleProvider>,
    base: CredentialsView,
    outcomes: Seq<CallOutcome>,
    region: Option<Seq<char>>,
    k: int,
    exp: i64,
)
    requires
        outcomes.len() == steps.len(),
        0 <= k < steps.len(),
        forall|j: int| 0 <= j < k ==> (#[trigger] validate_view(outcomes[j])) is Ok,
        outcomes[k] matches Ok(resp) && resp.credentials matches Some(p) && p.expiration == Some(
            exp,
        ),
        exp < 0,
    ensures
        resolve_view(Ok(base), outcomes) == Err::<CredentialsView, Seq<char>>(
            epoch_error_message(exp as int),
        ),
        requests_view(steps, Ok(base), outcomes, region).len() == k + 1,
{
    lemma_step_failure_aborts(steps, base, outcomes, region, k);
}

/// A step whose remote response omits the access key identifier or the
/// secret key fails the whole resolution with the field-specific unhandled
/// cause; no request is sent past that step.
pub proof fn lemma_missing_key_material_fails(
    steps: Seq<AssumeRoleProvider>,
    base: CredentialsView,
    outcomes: Seq<CallOutcome>,
    region: Option<Seq<char>>,
    k: int,
)
    requires
        outcomes.len() == steps.len(),
        0 <= k < steps.len(),
        forall|j: int| 0 <= j < k ==> (#[trigger] validate_view(outcomes[j])) is Ok,
        outcomes[k] matches Ok(resp) && resp.credentials matches Some(p) && p.expiration matches
            Some(exp) && exp >= 0 && (p.access_key_id is None || p.secret_access_key is None),
    ensures
        outcomes[k] matches Ok(resp) && resp.credentials matches Some(p) && (if p.access_key_id
            is None {
            resolve_view(Ok(base), outcomes) == Err::<CredentialsView, Seq<char>>(
                "access key id missing from result"@,
            )
        } else {
            resolve_view(Ok(base), outcomes) == Err::<CredentialsView, Seq<char>>(
                "secret access token missing"@,
            )
        }),
        requests_view(steps, Ok(base), outcomes, region).len() == k + 1,
{
    lemma_step_failure_aborts(steps, base, outcomes, region, k);
}

} // verus!
