use ghx::json::config_json;
use ghx::types::Config;
use ghx::types::OwnerType;
use ghx::types::Theme;

#[test]
fn config_document_matches_startup_values() {
    // owner=octocat, owner_type=user, theme=dark, as the front end
    // bootstraps from /api/config.
    let c = Config {
        owner: Some("octocat".to_string()),
        owner_type: OwnerType::User,
        theme: Theme::Dark,
    };
    assert_eq!(
        config_json(&c),
        "{\"owner\":\"octocat\",\"owner_type\":\"user\",\"theme\":\"dark\"}"
    );
}

#[test]
fn absent_owner_serializes_as_null() {
    let c = Config { owner: None, owner_type: OwnerType::Org, theme: Theme::Light };
    assert_eq!(
        config_json(&c),
        "{\"owner\":null,\"owner_type\":\"org\",\"theme\":\"light\"}"
    );
}

#[test]
fn owner_text_is_escaped() {
    let c = Config {
        owner: Some("a\"b\\c\nd".to_string()),
        owner_type: OwnerType::User,
        theme: Theme::Light,
    };
    assert_eq!(
        config_json(&c),
        "{\"owner\":\"a\\\"b\\\\c\\nd\",\"owner_type\":\"user\",\"theme\":\"light\"}"
    );
}

#[test]
fn control_characters_get_unicode_escapes() {
    let c = Config {
        owner: Some("a\u{1}b\u{1f}".to_string()),
        owner_type: OwnerType::User,
        theme: Theme::Dark,
    };
    assert_eq!(
        config_json(&c),
        "{\"owner\":\"a\\u0001b\\u001f\",\"owner_type\":\"user\",\"theme\":\"dark\"}"
    );
}

#[test]
fn empty_owner_is_an_empty_json_string() {
    let c = Config {
        owner: Some(String::new()),
        owner_type: OwnerType::Org,
        theme: Theme::Dark,
    };
    assert_eq!(
        config_json(&c),
        "{\"owner\":\"\",\"owner_type\":\"org\",\"theme\":\"dark\"}"
    );
}
