use datadog_mcp::site::resolve_mcp_url;

#[test]
fn recognized_sites_resolve_to_fixed_urls() {
    assert_eq!(
        resolve_mcp_url(Some("US1")),
        "https://mcp.datadoghq.com/api/unstable/mcp-server/mcp"
    );
    assert_eq!(
        resolve_mcp_url(Some("US3")),
        "https://mcp.us3.datadoghq.com/api/unstable/mcp-server/mcp"
    );
    assert_eq!(
        resolve_mcp_url(Some("US5")),
        "https://mcp.us5.datadoghq.com/api/unstable/mcp-server/mcp"
    );
    assert_eq!(
        resolve_mcp_url(Some("EU1")),
        "https://mcp.datadoghq.eu/api/unstable/mcp-server/mcp"
    );
    assert_eq!(
        resolve_mcp_url(Some("AP1")),
        "https://mcp.ap1.datadoghq.com/api/unstable/mcp-server/mcp"
    );
    assert_eq!(
        resolve_mcp_url(Some("AP2")),
        "https://mcp.ap2.datadoghq.com/api/unstable/mcp-server/mcp"
    );
}

#[test]
fn recognized_sites_are_case_insensitive() {
    assert_eq!(
        resolve_mcp_url(Some("us1")),
        "https://mcp.datadoghq.com/api/unstable/mcp-server/mcp"
    );
    assert_eq!(
        resolve_mcp_url(Some("Us3")),
        "https://mcp.us3.datadoghq.com/api/unstable/mcp-server/mcp"
    );
    assert_eq!(
        resolve_mcp_url(Some("uS5")),
        "https://mcp.us5.datadoghq.com/api/unstable/mcp-server/mcp"
    );
    assert_eq!(
        resolve_mcp_url(Some("eu1")),
        "https://mcp.datadoghq.eu/api/unstable/mcp-server/mcp"
    );
    assert_eq!(
        resolve_mcp_url(Some("ap1")),
        "https://mcp.ap1.datadoghq.com/api/unstable/mcp-server/mcp"
    );
    assert_eq!(
        resolve_mcp_url(Some("aP2")),
        "https://mcp.ap2.datadoghq.com/api/unstable/mcp-server/mcp"
    );
}

#[test]
fn absent_and_empty_site_default_to_us1() {
    let us1 = resolve_mcp_url(Some("US1"));
    assert_eq!(resolve_mcp_url(None), us1);
    assert_eq!(resolve_mcp_url(Some("")), us1);
}

#[test]
fn unrecognized_site_uses_fallback_pattern() {
    assert_eq!(
        resolve_mcp_url(Some("xx")),
        "https://mcp.xx.datadoghq.com/api/unstable/mcp-server/mcp"
    );
}

#[test]
fn fallback_interpolates_the_lowercased_code() {
    assert_eq!(
        resolve_mcp_url(Some("Staging7")),
        "https://mcp.staging7.datadoghq.com/api/unstable/mcp-server/mcp"
    );
}

#[test]
fn resolver_is_total_and_never_empty() {
    for input in [None, Some(""), Some(" "), Some("e u-1!"), Some("US1US1"), Some("..")] {
        let url = resolve_mcp_url(input);
        assert!(!url.is_empty());
        assert!(url.starts_with("https://mcp."));
    }
}
