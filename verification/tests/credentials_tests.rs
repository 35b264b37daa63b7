use sidecar_supervisor::credentials::{
    credential_status, credential_username, normalize_mode, validate_key_material,
    KEYCHAIN_SERVICE,
};

#[test]
fn usernames_join_mode_and_field() {
    assert_eq!(credential_username("paper", "api_key"), "paper_api_key");
    assert_eq!(credential_username("live", "secret_key"), "live_secret_key");
    assert_eq!(KEYCHAIN_SERVICE, "com.stocksbot.alpaca");
}

#[test]
fn valid_key_material_is_trimmed() {
    assert_eq!(validate_key_material("  PKABCDEF123  ", "api_key"), Ok("PKABCDEF123".to_string()));
}

#[test]
fn empty_key_material_is_required() {
    assert_eq!(validate_key_material("   ", "api_key"), Err("api_key is required".to_string()));
    assert_eq!(validate_key_material("", "secret_key"), Err("secret_key is required".to_string()));
}

#[test]
fn short_key_material_is_rejected() {
    assert_eq!(
        validate_key_material("abc1234", "api_key"),
        Err("api_key appears too short".to_string())
    );
}

#[test]
fn long_key_material_is_rejected() {
    let long = "k".repeat(513);
    assert_eq!(validate_key_material(&long, "api_key"), Err("api_key is too long".to_string()));
    let at_limit = "k".repeat(512);
    assert_eq!(validate_key_material(&at_limit, "api_key"), Ok(at_limit));
}

#[test]
fn inner_whitespace_is_rejected() {
    assert_eq!(
        validate_key_material("abcd efgh", "secret_key"),
        Err("secret_key cannot contain whitespace".to_string())
    );
}

#[test]
fn modes_normalize_to_paper_or_live() {
    assert_eq!(normalize_mode(" Paper "), Ok("paper".to_string()));
    assert_eq!(normalize_mode("LIVE"), Ok("live".to_string()));
    assert_eq!(normalize_mode("margin"), Err("mode must be paper or live".to_string()));
    assert_eq!(normalize_mode(""), Err("mode must be paper or live".to_string()));
}

#[test]
fn credential_status_needs_both_entries() {
    let st = credential_status(true, true, true, false);
    assert!(st.paper_available);
    assert!(!st.live_available);
    let st = credential_status(false, true, false, false);
    assert!(!st.paper_available);
    assert!(!st.live_available);
}
