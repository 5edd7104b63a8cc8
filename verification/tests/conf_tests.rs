use ovh::client::{Error, OvhClient};

const WELL_FORMED: &str = "[default]\nendpoint=ovh-eu\n\n[ovh-eu]\napplication_key=ak\napplication_secret=as\nconsumer_key=ck\n";

fn config_message(r: Result<OvhClient, Error>) -> String {
    match r {
        Ok(_) => panic!("expected a configuration error"),
        Err(e) => {
            assert!(matches!(e, Error::ConfigError(_)));
            e.message()
        },
    }
}

#[test]
fn well_formed_conf_yields_client() {
    assert!(OvhClient::from_conf_content(WELL_FORMED).is_ok());
}

#[test]
fn conf_client_equivalent_to_direct_construction() {
    let c = OvhClient::from_conf_content(WELL_FORMED).unwrap();
    let d = OvhClient::new("ovh-eu", "ak", "as", "ck").unwrap();
    assert_eq!(c.url("/x"), d.url("/x"));
    assert_eq!(
        c.signature("https://u", "1000", "GET", ""),
        d.signature("https://u", "1000", "GET", "")
    );
    let hc = c.default_headers();
    let hd = d.default_headers();
    assert_eq!(hc[0].value, hd[0].value);
}

#[test]
fn conf_missing_endpoint_key() {
    let content = "[default]\nother=1\n\n[ovh-eu]\napplication_key=ak\napplication_secret=as\nconsumer_key=ck\n";
    assert_eq!(config_message(OvhClient::from_conf_content(content)), "missing key `endpoint`");
}

#[test]
fn conf_missing_application_key() {
    let content = "[default]\nendpoint=ovh-eu\n\n[ovh-eu]\napplication_secret=as\nconsumer_key=ck\n";
    assert_eq!(
        config_message(OvhClient::from_conf_content(content)),
        "missing key `application_key`"
    );
}

#[test]
fn conf_missing_application_secret() {
    let content = "[default]\nendpoint=ovh-eu\n\n[ovh-eu]\napplication_key=ak\nconsumer_key=ck\n";
    assert_eq!(
        config_message(OvhClient::from_conf_content(content)),
        "missing key `application_secret`"
    );
}

#[test]
fn conf_missing_consumer_key() {
    let content = "[default]\nendpoint=ovh-eu\n\n[ovh-eu]\napplication_key=ak\napplication_secret=as\n";
    assert_eq!(config_message(OvhClient::from_conf_content(content)), "missing key `consumer_key`");
}

#[test]
fn conf_missing_endpoint_section() {
    let content = "[default]\nendpoint=ovh-eu\n";
    assert_eq!(
        config_message(OvhClient::from_conf_content(content)),
        "missing key `application_key`"
    );
}

#[test]
fn conf_unknown_endpoint_identifier() {
    let content = "[default]\nendpoint=nowhere\n\n[nowhere]\napplication_key=ak\napplication_secret=as\nconsumer_key=ck\n";
    assert_eq!(config_message(OvhClient::from_conf_content(content)), "failed to create client");
}

#[test]
fn conf_unparsable_text_is_a_config_error() {
    let content = "[default\nendpoint=ovh-eu\n";
    let r = OvhClient::from_conf_content(content);
    match r {
        Ok(_) => panic!("expected a configuration error"),
        Err(e) => assert!(matches!(e, Error::ConfigError(_))),
    }
}

#[test]
fn conf_section_names_fold_case() {
    // the parser is case-insensitive: section and key names fold to lower case
    let content = "[DEFAULT]\nENDPOINT=ovh-eu\n\n[ovh-eu]\nApplication_Key=ak\napplication_secret=as\nconsumer_key=ck\n";
    assert!(OvhClient::from_conf_content(content).is_ok());
}
