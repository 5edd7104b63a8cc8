use ovh::client::OvhClient;
use ovh::endpoints::endpoint_url;

#[test]
fn every_registered_endpoint_yields_a_client() {
    let ids = [
        "ovh-eu",
        "ovh-us",
        "ovh-ca",
        "kimsufi-eu",
        "kimsufi-ca",
        "soyoustart-eu",
        "soyoustart-ca",
    ];
    for id in ids.iter() {
        assert!(OvhClient::new(id, "ak", "as", "ck").is_some());
    }
}

#[test]
fn unknown_endpoint_yields_no_client() {
    assert!(OvhClient::new("wrong-endpoint", "ak", "as", "ck").is_none());
    assert!(OvhClient::new("", "ak", "as", "ck").is_none());
    assert!(OvhClient::new("OVH-EU", "ak", "as", "ck").is_none());
}

#[test]
fn registry_maps_identifiers_to_base_urls() {
    assert_eq!(endpoint_url("ovh-eu"), Some("https://eu.api.ovh.com/1.0"));
    assert_eq!(endpoint_url("ovh-us"), Some("https://api.us.ovhcloud.com/1.0"));
    assert_eq!(endpoint_url("ovh-ca"), Some("https://ca.api.ovh.com/1.0"));
    assert_eq!(endpoint_url("kimsufi-eu"), Some("https://eu.api.kimsufi.com/1.0"));
    assert_eq!(endpoint_url("kimsufi-ca"), Some("https://ca.api.kimsufi.com/1.0"));
    assert_eq!(endpoint_url("soyoustart-eu"), Some("https://eu.api.soyoustart.com/1.0"));
    assert_eq!(endpoint_url("soyoustart-ca"), Some("https://ca.api.soyoustart.com/1.0"));
    assert_eq!(endpoint_url("unknown"), None);
}

#[test]
fn client_url_appends_path_to_base() {
    let c = OvhClient::new("ovh-eu", "ak", "as", "ck").unwrap();
    assert_eq!(c.url("/auth/time"), "https://eu.api.ovh.com/1.0/auth/time");
    assert_eq!(c.url(""), "https://eu.api.ovh.com/1.0");
}
