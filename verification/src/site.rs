//! Regional site code to MCP endpoint URL resolution.
//!
//! A user-chosen site code (for example `US1` or `EU1`) selects one of
//! Datadog's regional deployments. Recognized codes map to fixed, hand-listed
//! URLs; any other code falls back to a templated hostname with the
//! lowercased code interpolated. Resolution is total: every input, including
//! an absent or empty one, yields exactly one non-empty URL.

use vstd::prelude::*;
use crate::text::{lower, lower_ascii, str_eq, upper, upper_ascii};

verus! {

/// The view of an optional borrowed site string.
pub open spec fn site_view(site: Option<&str>) -> Option<Seq<char>> {
    match site {
        Some(s) => Some(s@),
        None => None,
    }
}

/// The effective lookup key: the ASCII-uppercased site code, with an absent
/// or empty code defaulting to `US1`.
pub open spec fn effective_site_key(site: Option<Seq<char>>) -> Seq<char> {
    match site {
        None => "US1"@,
        Some(s) => if s.len() == 0 {
            "US1"@
        } else {
            upper(s)
        },
    }
}

/// The URL for an already-normalized (uppercase) site key: a fixed table for
/// the six recognized codes, and a templated hostname with the lowercased
/// code for every other key.
pub open spec fn spec_site_url(key: Seq<char>) -> Seq<char> {
    if key == "US1"@ {
        "https://mcp.datadoghq.com/api/unstable/mcp-server/mcp"@
    } else if key == "US3"@ {
        "https://mcp.us3.datadoghq.com/api/unstable/mcp-server/mcp"@
    } else if key == "US5"@ {
        "https://mcp.us5.datadoghq.com/api/unstable/mcp-server/mcp"@
    } else if key == "EU1"@ {
        "https://mcp.datadoghq.eu/api/unstable/mcp-server/mcp"@
    } else if key == "AP1"@ {
        "https://mcp.ap1.datadoghq.com/api/unstable/mcp-server/mcp"@
    } else if key == "AP2"@ {
        "https://mcp.ap2.datadoghq.com/api/unstable/mcp-server/mcp"@
    } else {
        "https://mcp."@ + lower(key) + ".datadoghq.com/api/unstable/mcp-server/mcp"@
    }
}

/// The URL an optional site configuration resolves to.
pub open spec fn spec_mcp_url(site: Option<Seq<char>>) -> Seq<char> {
    spec_site_url(effective_site_key(site))
}

fn site_url_for_key(key: &str) -> (url: String)
    ensures
        url@ == spec_site_url(key@),
{
    if str_eq(key, "US1") {
        String::from_str("https://mcp.datadoghq.com/api/unstable/mcp-server/mcp")
    } else if str_eq(key, "US3") {
        String::from_str("https://mcp.us3.datadoghq.com/api/unstable/mcp-server/mcp")
    } else if str_eq(key, "US5") {
        String::from_str("https://mcp.us5.datadoghq.com/api/unstable/mcp-server/mcp")
    } else if str_eq(key, "EU1") {
        String::from_str("https://mcp.datadoghq.eu/api/unstable/mcp-server/mcp")
    } else if str_eq(key, "AP1") {
        String::from_str("https://mcp.ap1.datadoghq.com/api/unstable/mcp-server/mcp")
    } else if str_eq(key, "AP2") {
        String::from_str("https://mcp.ap2.datadoghq.com/api/unstable/mcp-server/mcp")
    } else {
        let mut url = String::from_str("https://mcp.");
        let low = lower_ascii(key);
        url.append(low.as_str());
        url.append(".datadoghq.com/api/unstable/mcp-server/mcp");
        url
    }
}

/// Resolve an optional site configuration to the MCP endpoint URL.
///
/// Total and infallible: recognized codes (in any letter case) map to their
/// fixed URLs, an absent or empty code is treated as `US1`, and any other
/// code is interpolated, lowercased, into the generic hostname template.
pub fn resolve_mcp_url(site: Option<&str>) -> (url: String)
    ensures
        url@ == spec_mcp_url(site_view(site)),
        url@.len() > 0,
{
    proof {
        lemma_resolver_total(site_view(site));
    }
    match site {
        None => site_url_for_key("US1"),
        Some(s) => {
            if s.unicode_len() == 0 {
                site_url_for_key("US1")
            } else {
                let key = upper_ascii(s);
                site_url_for_key(key.as_str())
            }
        },
    }
}

/// Every recognized site code, in any letter case, resolves to its fixed,
/// hand-listed URL.
pub proof fn lemma_known_sites_fixed_urls(s: Seq<char>)
    ensures
        upper(s) == "US1"@ ==> spec_mcp_url(Some(s)) == "https://mcp.datadoghq.com/api/unstable/mcp-server/mcp"@,
        upper(s) == "US3"@ ==> spec_mcp_url(Some(s)) == "https://mcp.us3.datadoghq.com/api/unstable/mcp-server/mcp"@,
        upper(s) == "US5"@ ==> spec_mcp_url(Some(s)) == "https://mcp.us5.datadoghq.com/api/unstable/mcp-server/mcp"@,
        upper(s) == "EU1"@ ==> spec_mcp_url(Some(s)) == "https://mcp.datadoghq.eu/api/unstable/mcp-server/mcp"@,
        upper(s) == "AP1"@ ==> spec_mcp_url(Some(s)) == "https://mcp.ap1.datadoghq.com/api/unstable/mcp-server/mcp"@,
        upper(s) == "AP2"@ ==> spec_mcp_url(Some(s)) == "https://mcp.ap2.datadoghq.com/api/unstable/mcp-server/mcp"@,
{
    reveal_strlit("US1");
    reveal_strlit("US3");
    reveal_strlit("US5");
    reveal_strlit("EU1");
    reveal_strlit("AP1");
    reveal_strlit("AP2");
    assert(upper(s).len() == s.len());
    assert(("US3"@)[2] != ("US1"@)[2]);
    assert(("US5"@)[2] != ("US1"@)[2]);
    assert(("US5"@)[2] != ("US3"@)[2]);
    assert(("EU1"@)[0] != ("US1"@)[0]);
    assert(("EU1"@)[0] != ("US3"@)[0]);
    assert(("EU1"@)[0] != ("US5"@)[0]);
    assert(("AP1"@)[0] != ("US1"@)[0]);
    assert(("AP1"@)[0] != ("US3"@)[0]);
    assert(("AP1"@)[0] != ("US5"@)[0]);
    assert(("AP1"@)[0] != ("EU1"@)[0]);
    assert(("AP2"@)[0] != ("US1"@)[0]);
    assert(("AP2"@)[0] != ("US3"@)[0]);
    assert(("AP2"@)[0] != ("US5"@)[0]);
    assert(("AP2"@)[0] != ("EU1"@)[0]);
    assert(("AP2"@)[2] != ("AP1"@)[2]);
}

/// An absent site and an empty site both resolve exactly as the default
/// site `US1` does.
pub proof fn lemma_absent_or_empty_defaults(s: Seq<char>)
    requires
        s.len() == 0,
    ensures
        spec_mcp_url(None) == spec_mcp_url(Some("US1"@)),
        spec_mcp_url(Some(s)) == spec_mcp_url(None),
{
    reveal_strlit("US1");
    assert(upper("US1"@) =~= "US1"@);
}

/// An unrecognized site code resolves to the generic fallback pattern, with
/// the ASCII-lowercased code interpolated into the hostname.
pub proof fn lemma_fallback_pattern(s: Seq<char>)
    requires
        s.len() > 0,
        upper(s) != "US1"@,
        upper(s) != "US3"@,
        upper(s) != "US5"@,
        upper(s) != "EU1"@,
        upper(s) != "AP1"@,
        upper(s) != "AP2"@,
    ensures
        spec_mcp_url(Some(s)) == "https://mcp."@ + lower(s)
            + ".datadoghq.com/api/unstable/mcp-server/mcp"@,
{
    crate::text::lemma_lower_of_upper(s);
}

/// Resolution is total: every input, absent or not, yields a non-empty URL.
pub proof fn lemma_resolver_total(site: Option<Seq<char>>)
    ensures
        spec_mcp_url(site).len() > 0,
{
    reveal_strlit("US1");
    reveal_strlit("https://mcp.datadoghq.com/api/unstable/mcp-server/mcp");
    reveal_strlit("https://mcp.us3.datadoghq.com/api/unstable/mcp-server/mcp");
    reveal_strlit("https://mcp.us5.datadoghq.com/api/unstable/mcp-server/mcp");
    reveal_strlit("https://mcp.datadoghq.eu/api/unstable/mcp-server/mcp");
    reveal_strlit("https://mcp.ap1.datadoghq.com/api/unstable/mcp-server/mcp");
    reveal_strlit("https://mcp.ap2.datadoghq.com/api/unstable/mcp-server/mcp");
    reveal_strlit("https://mcp.");
}

} // verus!
