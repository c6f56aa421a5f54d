//! Mapping from a symbolic endpoint identifier to the API host name.

use vstd::prelude::*;

verus! {

/// The host that every endpoint outside the known table falls back to.
pub const DEFAULT_HOST: &'static str = "api.ovh.com";

/// The host name an endpoint identifier stands for: an exact match against
/// the fixed table of known endpoints, or the generic host for any other text.
pub open spec fn endpoint_host(endpoint: Seq<char>) -> Seq<char> {
    if endpoint == "ovh-ca"@ {
        "ca.api.ovh.com"@
    } else if endpoint == "ovh-eu"@ {
        "eu.api.ovh.com"@
    } else if endpoint == "ovh-us"@ {
        "us.api.ovh.com"@
    } else if endpoint == "soyoustart-ca"@ {
        "ca.api.soyoustart.com"@
    } else if endpoint == "soyoustart-eu"@ {
        "eu.api.soyoustart.com"@
    } else if endpoint == "kimsufi-ca"@ {
        "ca.api.kimsufi.com"@
    } else if endpoint == "kimsufi-eu"@ {
        "eu.api.kimsufi.com"@
    } else {
        "api.ovh.com"@
    }
}

/// Whether an endpoint identifier is one of the known table entries.
pub open spec fn is_known_endpoint(endpoint: Seq<char>) -> bool {
    endpoint == "ovh-ca"@ || endpoint == "ovh-eu"@ || endpoint == "ovh-us"@
        || endpoint == "soyoustart-ca"@ || endpoint == "soyoustart-eu"@
        || endpoint == "kimsufi-ca"@ || endpoint == "kimsufi-eu"@
}

/// Resolves an endpoint identifier to its API host; unknown identifiers give
/// the generic host.
pub fn endpoint2host(endpoint: &str) -> (host: String)
    ensures
        host@ == endpoint_host(endpoint@),
        !is_known_endpoint(endpoint@) ==> host@ == DEFAULT_HOST@,
{
    let e = endpoint.to_owned();
    if e == "ovh-ca".to_owned() {
        "ca.api.ovh.com".to_owned()
    } else if e == "ovh-eu".to_owned() {
        "eu.api.ovh.com".to_owned()
    } else if e == "ovh-us".to_owned() {
        "us.api.ovh.com".to_owned()
    } else if e == "soyoustart-ca".to_owned() {
        "ca.api.soyoustart.com".to_owned()
    } else if e == "soyoustart-eu".to_owned() {
        "eu.api.soyoustart.com".to_owned()
    } else if e == "kimsufi-ca".to_owned() {
        "ca.api.kimsufi.com".to_owned()
    } else if e == "kimsufi-eu".to_owned() {
        "eu.api.kimsufi.com".to_owned()
    } else {
        DEFAULT_HOST.to_owned()
    }
}

/// Every endpoint identifier, known or not, resolves to a non-empty host.
pub proof fn lemma_host_never_empty(endpoint: Seq<char>)
    ensures
        endpoint_host(endpoint).len() > 0,
{
    reveal_strlit("ca.api.ovh.com");
    reveal_strlit("eu.api.ovh.com");
    reveal_strlit("us.api.ovh.com");
    reveal_strlit("ca.api.soyoustart.com");
    reveal_strlit("eu.api.soyoustart.com");
    reveal_strlit("ca.api.kimsufi.com");
    reveal_strlit("eu.api.kimsufi.com");
    reveal_strlit("api.ovh.com");
}

/// Resolution follows the table: each known endpoint gives its own host, and
/// any other identifier gives the generic host.
pub proof fn lemma_endpoint_table()
    ensures
        endpoint_host("ovh-ca"@) == "ca.api.ovh.com"@,
        endpoint_host("ovh-eu"@) == "eu.api.ovh.com"@,
        endpoint_host("ovh-us"@) == "us.api.ovh.com"@,
        endpoint_host("soyoustart-ca"@) == "ca.api.soyoustart.com"@,
        endpoint_host("soyoustart-eu"@) == "eu.api.soyoustart.com"@,
        endpoint_host("kimsufi-ca"@) == "ca.api.kimsufi.com"@,
        endpoint_host("kimsufi-eu"@) == "eu.api.kimsufi.com"@,
        forall|e: Seq<char>| !is_known_endpoint(e) ==> #[trigger] endpoint_host(e) == DEFAULT_HOST@,
{
    reveal_strlit("ovh-ca");
    reveal_strlit("ovh-eu");
    reveal_strlit("ovh-us");
    reveal_strlit("soyoustart-ca");
    reveal_strlit("soyoustart-eu");
    reveal_strlit("kimsufi-ca");
    reveal_strlit("kimsufi-eu");
    // The OVH identifiers differ in their region letter.
    assert("ovh-ca"@[4] != "ovh-eu"@[4]);
    assert("ovh-ca"@[4] != "ovh-us"@[4]);
    assert("ovh-eu"@[4] != "ovh-us"@[4]);
    // The brands differ in their first letter.
    assert("ovh-ca"@[0] != "soyoustart-ca"@[0]);
    assert("ovh-ca"@[0] != "soyoustart-eu"@[0]);
    assert("ovh-ca"@[0] != "kimsufi-ca"@[0]);
    assert("ovh-ca"@[0] != "kimsufi-eu"@[0]);
    assert("ovh-eu"@[0] != "soyoustart-ca"@[0]);
    assert("ovh-eu"@[0] != "soyoustart-eu"@[0]);
    assert("ovh-eu"@[0] != "kimsufi-ca"@[0]);
    assert("ovh-eu"@[0] != "kimsufi-eu"@[0]);
    assert("ovh-us"@[0] != "soyoustart-ca"@[0]);
    assert("ovh-us"@[0] != "soyoustart-eu"@[0]);
    assert("ovh-us"@[0] != "kimsufi-ca"@[0]);
    assert("ovh-us"@[0] != "kimsufi-eu"@[0]);
    assert("soyoustart-ca"@[0] != "kimsufi-ca"@[0]);
    assert("soyoustart-ca"@[0] != "kimsufi-eu"@[0]);
    assert("soyoustart-eu"@[0] != "kimsufi-ca"@[0]);
    assert("soyoustart-eu"@[0] != "kimsufi-eu"@[0]);
    // Within a brand, the region letter.
    assert("soyoustart-ca"@[11] != "soyoustart-eu"@[11]);
    assert("kimsufi-ca"@[8] != "kimsufi-eu"@[8]);
}

} // verus!
