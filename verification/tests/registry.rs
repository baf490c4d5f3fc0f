use credential_chain::credentials::Credentials;
use credential_chain::exec::ProviderChain;
use credential_chain::named::NamedProviderFactory;
use credential_chain::repr::{BaseProvider, ProfileChain, RoleArn};
use credential_chain::source::CredentialsSource;

fn creds(access_key_id: &str) -> Credentials {
    Credentials::new(
        access_key_id.to_string(),
        "secret".to_string(),
        None,
        None,
        "static",
    )
}

#[test]
fn lookup_finds_a_registered_source() {
    let factory = NamedProviderFactory::new(vec![
        ("first".to_string(), CredentialsSource::Static(creds("AK-first"))),
        ("second".to_string(), CredentialsSource::External(7)),
    ]);
    match factory.provider("first") {
        Some(CredentialsSource::Static(c)) => assert_eq!(c.access_key_id, "AK-first"),
        other => panic!("expected the first entry's static source, got {:?}", other),
    }
    match factory.provider("second") {
        Some(CredentialsSource::External(handle)) => assert_eq!(handle, 7),
        other => panic!("expected the second entry's external source, got {:?}", other),
    }
}

#[test]
fn lookup_misses_an_absent_name() {
    let factory = NamedProviderFactory::new(vec![(
        "present".to_string(),
        CredentialsSource::External(0),
    )]);
    assert!(factory.provider("absent").is_none());
}

#[test]
fn lookup_returns_the_first_entry_under_a_name() {
    let factory = NamedProviderFactory::new(vec![
        ("dup".to_string(), CredentialsSource::External(1)),
        ("dup".to_string(), CredentialsSource::External(2)),
    ]);
    match factory.provider("dup") {
        Some(CredentialsSource::External(handle)) => assert_eq!(handle, 1),
        other => panic!("expected the first registration, got {:?}", other),
    }
}

#[test]
fn built_chain_carries_steps_in_order_with_their_fields() {
    let factory = NamedProviderFactory::new(vec![(
        "default".to_string(),
        CredentialsSource::Static(creds("AK-base")),
    )]);
    let chain = ProviderChain::from_repr(
        ProfileChain {
            base: BaseProvider::NamedSource("default".to_string()),
            chain: vec![
                RoleArn {
                    role_arn: "arn:role/A".to_string(),
                    external_id: Some("ext-a".to_string()),
                    session_name: None,
                },
                RoleArn {
                    role_arn: "arn:role/B".to_string(),
                    external_id: None,
                    session_name: Some("named-session".to_string()),
                },
            ],
        },
        &factory,
    )
    .expect("the registry knows the name");
    match chain.base() {
        CredentialsSource::Static(c) => assert_eq!(c.access_key_id, "AK-base"),
        other => panic!("expected the registered static source, got {:?}", other),
    }
    let steps = chain.chain();
    assert_eq!(steps.len(), 2);
    assert_eq!(steps[0].role_arn, "arn:role/A");
    assert_eq!(steps[0].external_id, Some("ext-a".to_string()));
    assert_eq!(steps[0].session_name, None);
    assert_eq!(steps[1].role_arn, "arn:role/B");
    assert_eq!(steps[1].external_id, None);
    assert_eq!(steps[1].session_name, Some("named-session".to_string()));
}

#[test]
fn external_base_has_no_static_credentials() {
    let source = CredentialsSource::External(3);
    assert!(source.static_credentials().is_none());
    let embedded = CredentialsSource::Static(creds("AK"));
    match embedded.static_credentials() {
        Some(c) => assert_eq!(c.access_key_id, "AK"),
        None => panic!("a static source resolves to its embedded pair"),
    }
}
