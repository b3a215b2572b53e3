use datadog_mcp::settings::{
    configuration_descriptor, default_settings_schema, default_settings_text,
    installation_instructions_text,
};
use datadog_mcp::text::{lower_ascii, str_eq, upper_ascii};

#[test]
fn default_settings_without_a_site_keep_the_placeholder() {
    let text = default_settings_text(None);
    assert_eq!(
        text,
        "{\n  // The Datadog site to connect to, for example US3, EU1 or AP1.\n  \"site\": \"US1\"\n}\n"
    );
}

#[test]
fn default_settings_substitute_the_configured_site() {
    let text = default_settings_text(Some("EU1"));
    assert!(text.contains("\"EU1\""));
    assert!(!text.contains("\"US1\""));
    assert_eq!(
        text,
        "{\n  // The Datadog site to connect to, for example US3, EU1 or AP1.\n  \"site\": \"EU1\"\n}\n"
    );
}

#[test]
fn settings_schema_describes_the_site_field() {
    let schema = default_settings_schema();
    assert_eq!(
        schema,
        "{\"type\":\"object\",\"properties\":{\"site\":{\"type\":[\"string\",\"null\"]}}}"
    );
}

#[test]
fn descriptor_carries_instructions_settings_and_schema() {
    let descriptor = configuration_descriptor(Some("AP1"), default_settings_schema());
    assert_eq!(
        descriptor.installation_instructions,
        installation_instructions_text()
    );
    assert!(descriptor.installation_instructions.contains("mcp-remote"));
    assert_eq!(descriptor.default_settings, default_settings_text(Some("AP1")));
    assert_eq!(descriptor.settings_schema, default_settings_schema());
}

#[test]
fn ascii_case_folding_changes_only_ascii_letters() {
    assert_eq!(upper_ascii("us3 code-9"), "US3 CODE-9");
    assert_eq!(lower_ascii("US3 Code-9"), "us3 code-9");
    assert_eq!(upper_ascii(""), "");
}

#[test]
fn string_equality_compares_characters() {
    assert!(str_eq("abc", "abc"));
    assert!(!str_eq("abc", "abd"));
    assert!(!str_eq("abc", "abcd"));
    assert!(!str_eq("", "a"));
}
