use scrivano::keychain::{
    delete_api_key, explain, get_api_key, has_api_key, key_if_read, service_name, store_api_key,
};

const PROVIDER: &str = "test_provider_scrivano_contract";

#[test]
fn keys_are_filed_under_the_application() {
    assert_eq!(service_name(), "scrivano");
}

#[test]
fn store_failure_says_which_step_failed() {
    match store_api_key(PROVIDER, "test-api-key-12345") {
        Ok(()) => {}
        Err(message) => assert!(
            message.starts_with("Failed to create keychain entry: ")
                || message.starts_with("Failed to store API key in keychain: "),
            "{}",
            message
        ),
    }
    let _ = delete_api_key(PROVIDER);
}

#[test]
fn delete_failure_says_which_step_failed() {
    match delete_api_key("test_provider_scrivano_never_stored") {
        Ok(()) => {}
        Err(message) => assert!(
            message.starts_with("Failed to create keychain entry: ")
                || message.starts_with("Failed to delete API key from keychain: "),
            "{}",
            message
        ),
    }
}

#[test]
fn a_key_that_was_never_stored_is_absent() {
    let provider = "test_provider_scrivano_absent";
    let _ = delete_api_key(provider);
    assert_eq!(get_api_key(provider), None);
    assert!(!has_api_key(provider));
}

#[test]
fn a_failure_is_introduced_by_its_step() {
    assert_eq!(
        explain::<()>(Err("locked".to_string()), "Failed to store API key in keychain: "),
        Err("Failed to store API key in keychain: locked".to_string())
    );
    assert_eq!(
        explain::<u8>(Err(String::new()), "Failed to create keychain entry: "),
        Err("Failed to create keychain entry: ".to_string())
    );
}

#[test]
fn a_success_is_left_as_it_is() {
    assert_eq!(explain(Ok(()), "Failed to delete API key from keychain: "), Ok(()));
    assert_eq!(explain(Ok(7u8), "never shown"), Ok(7u8));
}

#[test]
fn a_key_is_had_only_where_it_was_read() {
    assert_eq!(key_if_read(Ok("sk-abc".to_string())), Some("sk-abc".to_string()));
    assert_eq!(key_if_read(Ok(String::new())), Some(String::new()));
    assert_eq!(key_if_read(Err("No matching entry found in secure storage".to_string())), None);
}
