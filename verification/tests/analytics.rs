use zcode_glm::analytics::analytics_base_url;
use zcode_glm::analytics::analytics_enabled;
use zcode_glm::analytics::analytics_events_client_from_config;

#[test]
fn analytics_are_off_unless_enabled() {
    assert_eq!(analytics_enabled(None), Some(false));
    assert_eq!(analytics_enabled(Some(false)), Some(false));
    assert_eq!(analytics_enabled(Some(true)), Some(true));
}

#[test]
fn analytics_base_url_drops_trailing_slashes() {
    assert_eq!(analytics_base_url("https://chatgpt.com/backend-api/"), "https://chatgpt.com/backend-api");
    assert_eq!(analytics_base_url("https://chatgpt.com/backend-api///"), "https://chatgpt.com/backend-api");
    assert_eq!(analytics_base_url("https://example.com"), "https://example.com");
    assert_eq!(analytics_base_url("///"), "");
    assert_eq!(analytics_base_url(""), "");
}

#[test]
fn analytics_client_settings_from_config() {
    let settings = analytics_events_client_from_config("https://chatgpt.com/backend-api/", None);
    assert_eq!(settings.base_url, "https://chatgpt.com/backend-api");
    assert_eq!(settings.enabled, Some(false));

    let settings = analytics_events_client_from_config("https://a.example/x", Some(true));
    assert_eq!(settings.base_url, "https://a.example/x");
    assert_eq!(settings.enabled, Some(true));
}
