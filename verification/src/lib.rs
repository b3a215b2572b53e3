//! Datadog MCP context-server extension logic.
//!
//! This library holds the decision logic of a small editor extension that
//! launches an npm-distributed proxy bridging the editor's context-server
//! protocol to Datadog's hosted MCP endpoint: resolving the regional site
//! code to an endpoint URL, deciding whether the proxy package must be
//! (re)installed, building the launch command, and producing the
//! configuration descriptor shown in the editor's settings UI.

pub mod launch;
pub mod settings;
pub mod site;
pub mod text;
