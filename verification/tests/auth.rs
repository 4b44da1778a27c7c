use zcode_glm::auth::empty_auth_dot_json;
use zcode_glm::auth::stored_glm_api_key;
use zcode_glm::auth::with_glm_api_key;
use zcode_glm::auth::AuthDotJson;

#[test]
fn saved_glm_key_is_found_by_lookup() {
    let saved = with_glm_api_key(None, "glm-test-key");
    assert_eq!(saved.glm_api_key, Some("glm-test-key".to_string()));
    assert_eq!(stored_glm_api_key(Some(saved)), Some("glm-test-key".to_string()));
}

#[test]
fn glm_login_keeps_existing_credentials() {
    let mut existing = empty_auth_dot_json();
    existing.openai_api_key = Some("sk-openai".to_string());
    existing.auth_mode = Some("apikey".to_string());
    let saved = with_glm_api_key(Some(existing), "glm-test-key");
    assert_eq!(saved.openai_api_key, Some("sk-openai".to_string()));
    assert_eq!(saved.auth_mode, Some("apikey".to_string()));
    assert_eq!(saved.glm_api_key, Some("glm-test-key".to_string()));
    assert_eq!(saved.tokens, None);
}

#[test]
fn lookup_without_login_finds_nothing() {
    assert_eq!(stored_glm_api_key(None), None);
    assert_eq!(stored_glm_api_key(Some(empty_auth_dot_json())), None);
}

#[test]
fn blank_stored_key_is_ignored() {
    let saved = with_glm_api_key(None, "   ");
    assert_eq!(saved.glm_api_key, Some("   ".to_string()));
    assert_eq!(stored_glm_api_key(Some(saved)), None);
    assert_eq!(stored_glm_api_key(Some(with_glm_api_key(None, ""))), None);
}

#[test]
fn stored_key_is_given_back_untrimmed() {
    let saved = with_glm_api_key(None, " glm-key ");
    assert_eq!(stored_glm_api_key(Some(saved)), Some(" glm-key ".to_string()));
}

#[test]
fn second_glm_login_wins() {
    let mut existing = empty_auth_dot_json();
    existing.bedrock_api_key = Some("bedrock".to_string());
    let first = with_glm_api_key(Some(existing), "first-key");
    let second = with_glm_api_key(Some(first), "second-key");
    assert_eq!(second.bedrock_api_key, Some("bedrock".to_string()));
    assert_eq!(stored_glm_api_key(Some(second)), Some("second-key".to_string()));
}

#[test]
fn empty_payload_holds_nothing() {
    let AuthDotJson {
        auth_mode,
        openai_api_key,
        tokens,
        last_refresh,
        agent_identity,
        personal_access_token,
        bedrock_api_key,
        glm_api_key,
    } = empty_auth_dot_json();
    assert!(auth_mode.is_none() && openai_api_key.is_none() && tokens.is_none());
    assert!(last_refresh.is_none() && agent_identity.is_none());
    assert!(personal_access_token.is_none() && bedrock_api_key.is_none() && glm_api_key.is_none());
}
