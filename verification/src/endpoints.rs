//! The fixed registry of endpoint identifiers and their base API URLs.

use vstd::prelude::*;

verus! {

/// The base URL registered for an endpoint identifier, if the identifier
/// is one of the fixed set.
pub open spec fn endpoint_url_spec(id: Seq<char>) -> Option<Seq<char>> {
    if id == "ovh-eu"@ {
        Some("https://eu.api.ovh.com/1.0"@)
    } else if id == "ovh-us"@ {
        Some("https://api.us.ovhcloud.com/1.0"@)
    } else if id == "ovh-ca"@ {
        Some("https://ca.api.ovh.com/1.0"@)
    } else if id == "kimsufi-eu"@ {
        Some("https://eu.api.kimsufi.com/1.0"@)
    } else if id == "kimsufi-ca"@ {
        Some("https://ca.api.kimsufi.com/1.0"@)
    } else if id == "soyoustart-eu"@ {
        Some("https://eu.api.soyoustart.com/1.0"@)
    } else if id == "soyoustart-ca"@ {
        Some("https://ca.api.soyoustart.com/1.0"@)
    } else {
        None
    }
}

/// Relies on str's PartialEq: two string slices are equal exactly when
/// their character sequences are equal.
#[verifier::external_body]
pub(crate) fn str_eq(a: &str, b: &str) -> (r: bool)
    ensures
        r <==> a@ == b@,
{
    a == b
}

/// Looks an endpoint identifier up in the fixed registry.
pub fn endpoint_url(id: &str) -> (r: Option<&'static str>)
    ensures
        match r {
            Some(u) => endpoint_url_spec(id@) == Some(u@),
            None => endpoint_url_spec(id@) is None,
        },
{
    if str_eq(id, "ovh-eu") {
        Some("https://eu.api.ovh.com/1.0")
    } else if str_eq(id, "ovh-us") {
        Some("https://api.us.ovhcloud.com/1.0")
    } else if str_eq(id, "ovh-ca") {
        Some("https://ca.api.ovh.com/1.0")
    } else if str_eq(id, "kimsufi-eu") {
        Some("https://eu.api.kimsufi.com/1.0")
    } else if str_eq(id, "kimsufi-ca") {
        Some("https://ca.api.kimsufi.com/1.0")
    } else if str_eq(id, "soyoustart-eu") {
        Some("https://eu.api.soyoustart.com/1.0")
    } else if str_eq(id, "soyoustart-ca") {
        Some("https://ca.api.soyoustart.com/1.0")
    } else {
        None
    }
}

} // verus!
