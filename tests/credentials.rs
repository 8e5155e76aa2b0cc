use vlottoidx::{select_stored_chains, store_failure, store_outcome, CredentialManager, RpcCredentials, RpcError, SupportedChain};

fn creds(username: &str, password: &str, host: &str, port: u16) -> RpcCredentials {
    RpcCredentials {
        username: username.to_string(),
        password: password.to_string(),
        host: host.to_string(),
        port,
    }
}

#[test]
fn test_validate_credentials() {
    let valid_creds = RpcCredentials {
        username: "testuser".to_string(),
        password: "testpass".to_string(),
        host: "127.0.0.1".to_string(),
        port: 8332,
    };

    assert!(CredentialManager::validate_credentials(&valid_creds).is_ok());

    let invalid_creds = RpcCredentials {
        username: "".to_string(),
        password: "testpass".to_string(),
        host: "127.0.0.1".to_string(),
        port: 8332,
    };

    assert!(CredentialManager::validate_credentials(&invalid_creds).is_err());
}

#[test]
fn test_sanitize_for_logging() {
    let creds = RpcCredentials {
        username: "testuser".to_string(),
        password: "secret123".to_string(),
        host: "127.0.0.1".to_string(),
        port: 8332,
    };

    let sanitized = CredentialManager::sanitize_for_logging(&creds);
    assert!(sanitized.contains("testuser"));
    assert!(sanitized.contains("127.0.0.1"));
    assert!(sanitized.contains("8332"));
    assert!(!sanitized.contains("secret123"));
    assert!(sanitized.contains("[REDACTED]"));
}

#[test]
fn sanitized_text_is_exact() {
    let text = CredentialManager::sanitize_for_logging(&creds("bob", "pw", "10.0.0.2", 65535));
    assert_eq!(
        text,
        "RpcCredentials { username: bob, password: [REDACTED], host: 10.0.0.2, port: 65535 }"
    );
}

fn configuration_text(r: Result<(), RpcError>) -> String {
    match r {
        Err(RpcError::Configuration(m)) => m,
        other => panic!("expected a configuration failure, got {:?}", other),
    }
}

#[test]
fn validation_reports_each_field() {
    assert_eq!(
        configuration_text(CredentialManager::validate_credentials(&creds(" \t", "p", "h", 1))),
        "Username cannot be empty"
    );
    assert_eq!(
        configuration_text(CredentialManager::validate_credentials(&creds("u", "\u{3000}", "h", 1))),
        "Password cannot be empty"
    );
    assert_eq!(
        configuration_text(CredentialManager::validate_credentials(&creds("u", "p", "", 1))),
        "Host cannot be empty"
    );
    assert_eq!(
        configuration_text(CredentialManager::validate_credentials(&creds("u", "p", "h", 0))),
        "Port must be between 1 and 65535"
    );
    assert!(CredentialManager::validate_credentials(&creds("u", "p", "h", 65535)).is_ok());
}

#[test]
fn session_credentials_need_user_password_and_port() {
    let m = CredentialManager::new();
    let chain = SupportedChain::Vrsc;
    assert_eq!(
        configuration_text(m.cache_session_credentials(&chain, &creds("", "p", "h", 1))),
        "Invalid credentials: username and password required"
    );
    assert_eq!(
        configuration_text(m.cache_session_credentials(&chain, &creds("u", "p", "h", 0))),
        "Invalid credentials: valid port required"
    );
    // white space counts as content here, unlike in validation
    assert!(m.cache_session_credentials(&chain, &creds(" ", " ", "", 1)).is_ok());
}

#[test]
fn account_names_follow_chain_keys() {
    let m = CredentialManager::default();
    assert_eq!(m.get_account_name(&SupportedChain::Vrsc), "verusidx-vrsc");
    assert_eq!(m.get_account_name(&SupportedChain::VrscTest), "verusidx-vrsctest");
    assert_eq!(m.get_account_name(&SupportedChain::Chips), "verusidx-chips");
    assert_eq!(SupportedChain::Varrr.to_string(), "varrr");
    assert_eq!(SupportedChain::Vdex.to_string(), "vdex");
}

#[test]
fn stored_chains_keep_the_fixed_order() {
    let picked = select_stored_chains(&vec![true, false, true, false, true]);
    assert_eq!(picked, vec![SupportedChain::Vrsc, SupportedChain::Varrr, SupportedChain::Chips]);
    assert_eq!(select_stored_chains(&vec![]), vec![]);
    assert_eq!(
        select_stored_chains(&vec![false, true, false, false, false, true]),
        vec![SupportedChain::VrscTest]
    );
}

#[test]
fn store_failures_carry_the_step_and_detail() {
    match store_failure("Failed to load credentials", "No matching entry found") {
        RpcError::Configuration(m) => {
            assert_eq!(m, "Failed to load credentials: No matching entry found")
        }
        other => panic!("unexpected {:?}", other),
    }
}

#[test]
fn chain_keys_parse_back() {
    assert_eq!(SupportedChain::from_key("vrsc"), Some(SupportedChain::Vrsc));
    assert_eq!(SupportedChain::from_key("vrsctest"), Some(SupportedChain::VrscTest));
    assert_eq!(SupportedChain::from_key("varrr"), Some(SupportedChain::Varrr));
    assert_eq!(SupportedChain::from_key("vdex"), Some(SupportedChain::Vdex));
    assert_eq!(SupportedChain::from_key("chips"), Some(SupportedChain::Chips));
    assert_eq!(SupportedChain::from_key("VRSC"), None);
    assert_eq!(SupportedChain::from_key(""), None);
}

#[test]
fn store_steps_surface_every_failure() {
    assert_eq!(store_outcome("Failed to store credentials", Ok::<u8, keyring::Error>(7)).unwrap(), 7);
    match store_outcome::<()>("Failed to clear credentials", Err(keyring::Error::NoEntry)) {
        Err(RpcError::Configuration(m)) => {
            assert!(m.starts_with("Failed to clear credentials: "));
            assert!(m.len() > "Failed to clear credentials: ".len());
        }
        other => panic!("unexpected {:?}", other),
    }
}
