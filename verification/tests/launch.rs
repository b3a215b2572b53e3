use datadog_mcp::launch::{build_launch_command, needs_install, package_entry_script, package_name};

#[test]
fn install_is_needed_when_nothing_is_installed() {
    assert!(needs_install(None, "2.0.0"));
}

#[test]
fn install_is_needed_when_versions_differ() {
    assert!(needs_install(Some("1.9.4"), "2.0.0"));
}

#[test]
fn install_is_not_needed_when_latest_is_installed() {
    assert!(!needs_install(Some("2.0.0"), "2.0.0"));
}

#[test]
fn launch_command_has_exactly_two_positional_arguments() {
    let cmd = build_launch_command(
        "/usr/bin/node".to_string(),
        "/work/node_modules/mcp-remote/dist/proxy.js".to_string(),
        "https://mcp.datadoghq.com/api/unstable/mcp-server/mcp".to_string(),
    );
    assert_eq!(cmd.command, "/usr/bin/node");
    assert_eq!(cmd.args.len(), 2);
    assert_eq!(cmd.args[0], "/work/node_modules/mcp-remote/dist/proxy.js");
    assert_eq!(
        cmd.args[1],
        "https://mcp.datadoghq.com/api/unstable/mcp-server/mcp"
    );
    assert!(cmd.env.is_empty());
}

#[test]
fn package_constants_name_the_proxy() {
    assert_eq!(package_name(), "mcp-remote");
    assert_eq!(package_entry_script(), "node_modules/mcp-remote/dist/proxy.js");
}
