use credential_chain::credentials::Credentials;
use credential_chain::digits::{i64_dec_string, u64_dec_string};
use credential_chain::exec::{
    AssumeRoleProvider, AssumeRoleResponse, CallOutcome, ClientConfiguration, ResponseCredentials,
};

fn step() -> AssumeRoleProvider {
    AssumeRoleProvider {
        role_arn: "arn:role/A".to_string(),
        external_id: None,
        session_name: None,
    }
}

fn payload(
    access_key_id: Option<&str>,
    secret: Option<&str>,
    expiration: Option<i64>,
) -> CallOutcome {
    Ok(AssumeRoleResponse {
        credentials: Some(ResponseCredentials {
            access_key_id: access_key_id.map(|s| s.to_string()),
            secret_access_key: secret.map(|s| s.to_string()),
            session_token: None,
            expiration,
        }),
    })
}

fn failure_message(outcome: &CallOutcome) -> String {
    match step().credentials(outcome) {
        Ok(_) => panic!("expected the outcome to be rejected"),
        Err(e) => e.message().clone(),
    }
}

#[test]
fn transport_failure_is_wrapped_unchanged() {
    let outcome: CallOutcome = Err("connection reset by peer".to_string());
    assert_eq!(failure_message(&outcome), "connection reset by peer");
}

#[test]
fn missing_credentials_payload_is_rejected() {
    let outcome: CallOutcome = Ok(AssumeRoleResponse { credentials: None });
    assert_eq!(
        failure_message(&outcome),
        "assume role provider did not return credentials"
    );
}

#[test]
fn missing_expiration_is_rejected() {
    let outcome = payload(Some("AK"), Some("SK"), None);
    assert_eq!(failure_message(&outcome), "missing expiration");
}

#[test]
fn expiration_before_epoch_is_rejected_naming_the_value() {
    let outcome = payload(Some("AK"), Some("SK"), Some(-5));
    assert_eq!(
        failure_message(&outcome),
        "expiration is before unix epoch: -5"
    );
}

#[test]
fn missing_access_key_id_is_rejected() {
    let outcome = payload(None, Some("SK"), Some(100));
    assert_eq!(failure_message(&outcome), "access key id missing from result");
}

#[test]
fn missing_secret_key_is_rejected() {
    let outcome = payload(Some("AK"), None, Some(100));
    assert_eq!(failure_message(&outcome), "secret access token missing");
}

#[test]
fn valid_payload_becomes_tagged_time_bounded_credentials() {
    let outcome = payload(Some("AK"), Some("SK"), Some(0));
    let creds = step().credentials(&outcome).expect("the payload is complete");
    assert_eq!(creds.access_key_id, "AK");
    assert_eq!(creds.secret_access_key, "SK");
    assert_eq!(creds.session_token, None);
    assert_eq!(creds.expiration, Some(0), "an epoch-instant expiration is allowed");
    assert_eq!(creds.provider_name, "AssumeRoleProvider");
}

#[test]
fn request_carries_explicit_session_fields_and_region() {
    let step = AssumeRoleProvider {
        role_arn: "arn:role/B".to_string(),
        external_id: Some("external-marker".to_string()),
        session_name: Some("my-session".to_string()),
    };
    let identity = Credentials::new(
        "AK".to_string(),
        "SK".to_string(),
        None,
        None,
        "static",
    );
    let config = ClientConfiguration {
        region: Some("us-east-1".to_string()),
    };
    let request = step.request(&identity, &config);
    assert_eq!(request.role_arn, "arn:role/B");
    assert_eq!(request.external_id, Some("external-marker".to_string()));
    assert_eq!(request.session_name, "my-session");
    assert_eq!(request.region, Some("us-east-1".to_string()));
    assert_eq!(request.calling_credentials.access_key_id, "AK");
}

#[test]
fn decimal_rendering_is_exact() {
    assert_eq!(u64_dec_string(0), "0");
    assert_eq!(u64_dec_string(905), "905");
    assert_eq!(u64_dec_string(u64::MAX), "18446744073709551615");
    assert_eq!(i64_dec_string(-12345), "-12345");
    assert_eq!(i64_dec_string(i64::MIN), "-9223372036854775808");
    assert_eq!(i64_dec_string(42), "42");
}
