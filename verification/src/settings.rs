//! The configuration descriptor surfaced to the editor's settings UI:
//! installation instructions, a default-settings document with the user's
//! site value substituted for the placeholder, and a JSON-schema string
//! describing the single-field configuration shape.

use vstd::prelude::*;
use crate::site::site_view;

verus! {

/// A configuration descriptor for the editor's settings UI.
pub struct ConfigurationDescriptor {
    pub installation_instructions: String,
    pub default_settings: String,
    pub settings_schema: String,
}

/// The default-settings document up to (excluding) the quoted site value.
pub open spec fn settings_template_prefix() -> Seq<char> {
    "{\n  // The Datadog site to connect to, for example US3, EU1 or AP1.\n  \"site\": "@
}

/// The default-settings document after (excluding) the quoted site value.
pub open spec fn settings_template_suffix() -> Seq<char> {
    "\n}\n"@
}

/// The given text wrapped in double quotes.
pub open spec fn quoted(s: Seq<char>) -> Seq<char> {
    seq!['"'] + s + seq!['"']
}

/// The bundled default-settings document, whose placeholder site value is
/// the default site `US1`.
pub open spec fn spec_settings_template() -> Seq<char> {
    settings_template_prefix() + quoted("US1"@) + settings_template_suffix()
}

/// The default-settings text shown to the user: the bundled template, with
/// the quoted placeholder replaced by the user's quoted site value when one
/// is configured.
pub open spec fn spec_default_settings(site: Option<Seq<char>>) -> Seq<char> {
    match site {
        None => spec_settings_template(),
        Some(s) => settings_template_prefix() + quoted(s) + settings_template_suffix(),
    }
}

fn quoted_exec(s: &str) -> (r: String)
    ensures
        r@ == quoted(s@),
{
    let mut r = String::from_str("\"");
    proof {
        reveal_strlit("\"");
        assert(r@ =~= seq!['"']);
    }
    r.append(s);
    r.append("\"");
    proof {
        assert(r@ =~= quoted(s@));
    }
    r
}

fn substituted_settings(site: &str) -> (r: String)
    ensures
        r@ == settings_template_prefix() + quoted(site@) + settings_template_suffix(),
{
    let mut r = String::from_str(
        "{\n  // The Datadog site to connect to, for example US3, EU1 or AP1.\n  \"site\": ",
    );
    let q = quoted_exec(site);
    r.append(q.as_str());
    r.append("\n}\n");
    r
}

/// The default-settings text for an optionally configured site: the bundled
/// template when no site is configured, and the template with the user's
/// quoted site value substituted for the quoted placeholder otherwise.
pub fn default_settings_text(site: Option<&str>) -> (r: String)
    ensures
        r@ == spec_default_settings(site_view(site)),
{
    match site {
        None => substituted_settings("US1"),
        Some(s) => substituted_settings(s),
    }
}

/// A JSON-schema string describing the configuration shape: one object with
/// a single optional string field named `site`.
pub fn default_settings_schema() -> (s: String)
    ensures
        s@ == "{\"type\":\"object\",\"properties\":{\"site\":{\"type\":[\"string\",\"null\"]}}}"@,
{
    String::from_str("{\"type\":\"object\",\"properties\":{\"site\":{\"type\":[\"string\",\"null\"]}}}")
}

/// The bundled installation-instructions document.
pub fn installation_instructions_text() -> (s: String)
    ensures
        s@ == spec_installation_instructions(),
{
    String::from_str(
        "# Datadog MCP server\n\nThis context server connects the editor to Datadog's hosted MCP endpoint\nthrough the `mcp-remote` proxy, which is installed automatically from npm.\n\nRequirements:\n\n- Node.js available to the editor.\n- A Datadog account; sign in through the browser window the proxy opens.\n\nSet the optional `site` setting to your Datadog region code\n(US1, US3, US5, EU1, AP1 or AP2). It defaults to US1.\n",
    )
}

/// The bundled installation-instructions document, as a value.
pub open spec fn spec_installation_instructions() -> Seq<char> {
    "# Datadog MCP server\n\nThis context server connects the editor to Datadog's hosted MCP endpoint\nthrough the `mcp-remote` proxy, which is installed automatically from npm.\n\nRequirements:\n\n- Node.js available to the editor.\n- A Datadog account; sign in through the browser window the proxy opens.\n\nSet the optional `site` setting to your Datadog region code\n(US1, US3, US5, EU1, AP1 or AP2). It defaults to US1.\n"@
}

/// Assemble the configuration descriptor from the optionally configured
/// site and the JSON-schema text the caller chose to surface.
pub fn configuration_descriptor(site: Option<&str>, settings_schema: String) -> (d:
    ConfigurationDescriptor)
    ensures
        d.installation_instructions@ == spec_installation_instructions(),
        d.default_settings@ == spec_default_settings(site_view(site)),
        d.settings_schema == settings_schema,
{
    ConfigurationDescriptor {
        installation_instructions: installation_instructions_text(),
        default_settings: default_settings_text(site),
        settings_schema,
    }
}

/// An ASCII letter or digit.
pub open spec fn is_alphanumeric_ascii(c: char) -> bool {
    ('0' <= c && c <= '9') || ('a' <= c && c <= 'z') || ('A' <= c && c <= 'Z')
}

/// A well-formed quoted JSON token: enclosed in double quotes, with no
/// quote or backslash inside.
pub open spec fn is_quoted_token(s: Seq<char>) -> bool {
    &&& s.len() >= 2
    &&& s[0] == '"'
    &&& s[s.len() - 1] == '"'
    &&& forall|i: int| 1 <= i < s.len() - 1 ==> s[i] != '"' && s[i] != '\\'
}

/// Substituting an alphanumeric site value keeps the default-settings text
/// in the shape template-prefix, one well-formed quoted token, template-
/// suffix — the substituted document stays syntactically valid JSONC.
pub proof fn lemma_alphanumeric_site_keeps_shape(site: Seq<char>)
    requires
        forall|i: int| 0 <= i < site.len() ==> is_alphanumeric_ascii(site[i]),
    ensures
        spec_default_settings(Some(site)) == settings_template_prefix() + quoted(site)
            + settings_template_suffix(),
        is_quoted_token(quoted(site)),
{
    let q = quoted(site);
    assert(q[0] == '"');
    assert(q[q.len() - 1] == '"');
    assert forall|i: int| 1 <= i < q.len() - 1 implies q[i] != '"' && q[i] != '\\' by {
        assert(q[i] == site[i - 1]);
        assert(is_alphanumeric_ascii(site[i - 1]));
    }
}

} // verus!
