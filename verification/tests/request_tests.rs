use ovh::client::{Error, OvhClient};

fn client() -> OvhClient {
    OvhClient::new("ovh-eu", "ak", "s3cr3t", "ck").unwrap()
}

#[test]
fn noauth_request_has_no_auth_headers() {
    let c = client();
    let p = c.prepare_noauth("/auth/time");
    assert_eq!(p.url, "https://eu.api.ovh.com/1.0/auth/time");
    assert_eq!(p.body, "");
    assert_eq!(p.headers.len(), 1);
    assert_eq!(p.headers[0].name, "X-Ovh-Application");
    assert_eq!(p.headers[0].value, "ak");
    assert!(!p.headers[0].sensitive);
    for h in p.headers.iter() {
        assert_ne!(h.name, "X-Ovh-Consumer");
        assert_ne!(h.name, "X-Ovh-Timestamp");
        assert_ne!(h.name, "X-Ovh-Signature");
    }
}

#[test]
fn auth_headers_all_present_with_nonempty_values() {
    let c = client();
    let h = c.gen_headers("https://eu.api.ovh.com/1.0/x", "GET", "", 1000, 0).unwrap();
    assert_eq!(h.len(), 4);
    assert_eq!(h[0].name, "X-Ovh-Application");
    assert_eq!(h[1].name, "X-Ovh-Consumer");
    assert_eq!(h[2].name, "X-Ovh-Timestamp");
    assert_eq!(h[3].name, "X-Ovh-Signature");
    for hd in h.iter() {
        assert!(!hd.value.is_empty());
    }
    assert!(!h[0].sensitive);
    assert!(h[1].sensitive);
    assert!(h[2].sensitive);
    assert!(h[3].sensitive);
    assert_eq!(h[0].value, "ak");
    assert_eq!(h[1].value, "ck");
    assert_eq!(h[2].value, "1000");
    assert_eq!(h[3].value, c.signature("https://eu.api.ovh.com/1.0/x", "1000", "GET", ""));
}

#[test]
fn timestamp_applies_server_delta() {
    let c = client();
    let h = c.gen_headers("u", "GET", "", 1000, -300).unwrap();
    assert_eq!(h[2].value, "700");
    let h = c.gen_headers("u", "GET", "", 1000, 300).unwrap();
    assert_eq!(h[2].value, "1300");
}

#[test]
fn timestamp_out_of_range_is_an_error() {
    let c = client();
    let r = c.gen_headers("u", "GET", "", u64::MAX, 0);
    match r {
        Ok(_) => panic!("expected a range error"),
        Err(e) => {
            assert!(matches!(e, Error::Error(_)));
            assert_eq!(e.message(), "timestamp out of range");
        },
    }
    assert!(c.gen_headers("u", "GET", "", i64::MAX as u64, 1).is_err());
    assert!(c.gen_headers("u", "GET", "", i64::MAX as u64, 0).is_ok());
}

#[test]
fn signed_get_carries_empty_body() {
    let c = client();
    let p = c.prepare_signed("GET", "/me", None, 1000, 0).unwrap();
    assert_eq!(p.url, "https://eu.api.ovh.com/1.0/me");
    assert_eq!(p.body, "");
    assert_eq!(p.headers.len(), 4);
    assert_eq!(p.headers[3].value, c.signature(&p.url, "1000", "GET", ""));
}

#[test]
fn post_body_signed_exactly_as_transmitted() {
    let c = client();
    let body = "{\"a\":1}";
    let p = c.prepare_signed("POST", "/x", Some(body), 1000, 0).unwrap();
    assert_eq!(p.body, body);
    assert_eq!(p.headers.len(), 5);
    assert_eq!(p.headers[4].name, "Content-type");
    assert_eq!(p.headers[4].value, "application/json");
    assert!(!p.headers[4].sensitive);
    assert_eq!(p.headers[3].value, c.signature(&p.url, "1000", "POST", &p.body));
}

#[test]
fn different_serializations_of_same_data_sign_differently() {
    let c = client();
    // the same logical object, serialized with and without a space
    let p1 = c.prepare_signed("POST", "/x", Some("{\"a\":1}"), 1000, 0).unwrap();
    let p2 = c.prepare_signed("POST", "/x", Some("{\"a\": 1}"), 1000, 0).unwrap();
    assert_ne!(p1.headers[3].value, p2.headers[3].value);
    // byte-identical serializations reproduce the signature
    let p3 = c.prepare_signed("POST", "/x", Some("{\"a\":1}"), 1000, 0).unwrap();
    assert_eq!(p1.headers[3].value, p3.headers[3].value);
}

#[test]
fn serializing_once_and_reusing_preserves_the_signature() {
    let c = client();
    let v: serde_json::Value = serde_json::from_str("{\"b\":2,\"a\":1}").unwrap();
    let s1 = serde_json::to_string(&v).unwrap();
    let s2 = serde_json::to_string(&v).unwrap();
    // this serializer is stable, so reusing either string signs identically
    assert_eq!(s1, s2);
    let p1 = c.prepare_signed("PUT", "/x", Some(&s1), 1000, 0).unwrap();
    let p2 = c.prepare_signed("PUT", "/x", Some(&s2), 1000, 0).unwrap();
    assert_eq!(p1.headers[3].value, p2.headers[3].value);
    assert_eq!(p1.body, s1);
}

#[test]
fn sensitive_values_are_redacted_in_trace_text() {
    let c = client();
    let h = c.gen_headers("u", "GET", "", 1000, 0).unwrap();
    assert_eq!(h[0].trace_text(), "X-Ovh-Application: ak");
    assert_eq!(h[1].trace_text(), "X-Ovh-Consumer: <redacted>");
    assert_eq!(h[2].trace_text(), "X-Ovh-Timestamp: <redacted>");
    assert_eq!(h[3].trace_text(), "X-Ovh-Signature: <redacted>");
    assert!(!h[1].trace_text().contains("ck"));
}

#[test]
fn time_delta_from_server_body() {
    assert_eq!(OvhClient::time_delta_from(1000, "1500").unwrap(), -500);
    assert_eq!(OvhClient::time_delta_from(2000, "1500").unwrap(), 500);
    assert_eq!(OvhClient::time_delta_from(1000, "1000").unwrap(), 0);
    assert_eq!(OvhClient::time_delta_from(1000, "+985").unwrap(), 15);
}

#[test]
fn time_delta_rejects_bad_server_body() {
    let r = OvhClient::time_delta_from(1000, "not a number");
    match r {
        Ok(_) => panic!("expected an error"),
        Err(e) => {
            assert!(matches!(e, Error::Error(_)));
            assert_eq!(e.message(), "invalid server time");
        },
    }
    assert!(OvhClient::time_delta_from(1000, "").is_err());
    assert!(OvhClient::time_delta_from(1000, "99999999999999999999999999").is_err());
}

#[test]
fn time_delta_out_of_range() {
    let r = OvhClient::time_delta_from(u64::MAX, "0");
    match r {
        Ok(_) => panic!("expected an error"),
        Err(e) => assert_eq!(e.message(), "time delta out of range"),
    }
    let r = OvhClient::time_delta_from(0, "18446744073709551615");
    assert!(r.is_err());
}

#[test]
fn signed_timestamp_bounds() {
    assert_eq!(OvhClient::signed_timestamp(5, -10).unwrap(), -5);
    assert_eq!(OvhClient::signed_timestamp(0, i64::MIN).unwrap(), i64::MIN);
    assert!(OvhClient::signed_timestamp(i64::MAX as u64, 1).is_err());
    assert!(OvhClient::signed_timestamp(u64::MAX, -1).is_err());
}
