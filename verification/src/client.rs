//! The signing client: credentials, endpoint resolution, and the
//! per-request header and signature computation.

use vstd::prelude::*;
use vstd::string::StringExecFns;
use crate::endpoints::{endpoint_url, endpoint_url_spec};
use crate::headers::{Header, push_sensitive_header};
use crate::numstr::{dec_str_int, i64_dec_string, lemma_dec_str_int_len, parse_u64, parse_u64_spec};
use crate::signing::{
    lemma_signature_nonempty, sha1_hexdigest, sig_prefix, signable, signature_spec,
};

verus! {

/// A failure surfaced to the caller.
#[derive(Debug)]
pub enum Error {
    /// The configuration could not be read, a required key was missing,
    /// or the endpoint identifier was not in the registry.
    ConfigError(String),
    /// A transport-level failure: a network error, a server time body
    /// that is not an integer, or a timestamp out of range.
    Error(String),
}

impl Error {
    /// The text carried by the failure.
    pub fn message(&self) -> (r: String)
        ensures
            match self {
                Error::ConfigError(m) => r@ == m@,
                Error::Error(m) => r@ == m@,
            },
    {
        match self {
            Error::ConfigError(m) => m.clone(),
            Error::Error(m) => m.clone(),
        }
    }
}

/// Relies on std's SystemTime: the local clock's seconds since the Unix
/// epoch (zero if the clock reads earlier than the epoch).
#[verifier::external_body]
fn system_clock_unix_secs() -> u64 {
    std::time::SystemTime::now()
        .duration_since(std::time::UNIX_EPOCH)
        .map(|d| d.as_secs())
        .unwrap_or(0)
}

/// The local clock reading, in seconds since the Unix epoch. Nothing
/// can be promised of a clock's value; callers state what holds of the
/// request for whatever reading comes back.
pub fn now() -> u64 {
    system_clock_unix_secs()
}

/// Whether a local clock reading plus a delta fits the signed width the
/// timestamp header uses.
pub open spec fn timestamp_in_range(local_time: u64, time_delta: i64) -> bool {
    &&& local_time <= i64::MAX
    &&& local_time + time_delta <= i64::MAX
}

/// The local clock reading minus the server's, when the signed
/// difference fits the width, and nothing otherwise.
pub open spec fn time_delta_spec(local_time: u64, server_time: u64) -> Option<i64> {
    let d = local_time - server_time;
    if i64::MIN <= d && d <= i64::MAX {
        Some(d as i64)
    } else {
        None
    }
}

/// A client for one endpoint, holding the application credentials.
pub struct OvhClient {
    endpoint: &'static str,
    application_key: String,
    application_secret: String,
    consumer_key: String,
}

/// A request ready to hand to a transport: the full URL, the headers,
/// and the exact body bytes the signature was computed over.
pub struct PreparedRequest {
    pub url: String,
    pub headers: Vec<Header>,
    pub body: String,
}

/// Whether the first four headers are exactly the authenticated set:
/// application key in clear, then consumer key, timestamp and
/// signature, the last three marked sensitive.
pub open spec fn auth_headers_match(
    c: OvhClient,
    h: Seq<Header>,
    method: Seq<char>,
    url: Seq<char>,
    body: Seq<char>,
    ts: int,
) -> bool {
    &&& h.len() >= 4
    &&& h[0].name@ == "X-Ovh-Application"@
    &&& h[0].value@ == c.application_key_view()
    &&& !h[0].sensitive
    &&& h[1].name@ == "X-Ovh-Consumer"@
    &&& h[1].value@ == c.consumer_key_view()
    &&& h[1].sensitive
    &&& h[2].name@ == "X-Ovh-Timestamp"@
    &&& h[2].value@ == dec_str_int(ts)
    &&& h[2].sensitive
    &&& h[3].name@ == "X-Ovh-Signature"@
    &&& h[3].value@ == signature_spec(
        c.application_secret_view(),
        c.consumer_key_view(),
        method,
        url,
        body,
        dec_str_int(ts),
    )
    &&& h[3].sensitive
}

impl OvhClient {
    /// The resolved base URL.
    pub closed spec fn endpoint_view(&self) -> Seq<char> {
        self.endpoint@
    }

    /// The application key, sent in clear on every request.
    pub closed spec fn application_key_view(&self) -> Seq<char> {
        self.application_key@
    }

    /// The application secret: signing material, never sent.
    pub closed spec fn application_secret_view(&self) -> Seq<char> {
        self.application_secret@
    }

    /// The consumer key: signing material, also sent as a header.
    pub closed spec fn consumer_key_view(&self) -> Seq<char> {
        self.consumer_key@
    }

    /// Creates a client from an endpoint identifier and the three
    /// credential strings; yields nothing when the identifier is not in
    /// the fixed registry.
    pub fn new(
        endpoint: &str,
        application_key: &str,
        application_secret: &str,
        consumer_key: &str,
    ) -> (r: Option<OvhClient>)
        ensures
            r is Some <==> endpoint_url_spec(endpoint@) is Some,
            r is Some ==> {
                &&& r->0.endpoint_view() == endpoint_url_spec(endpoint@)->0
                &&& r->0.application_key_view() == application_key@
                &&& r->0.application_secret_view() == application_secret@
                &&& r->0.consumer_key_view() == consumer_key@
            },
    {
        let resolved = endpoint_url(endpoint);
        match resolved {
            Some(base) => Some(OvhClient {
                endpoint: base,
                application_key: String::from_str(application_key),
                application_secret: String::from_str(application_secret),
                consumer_key: String::from_str(consumer_key),
            }),
            None => None,
        }
    }

    /// The full URL for a path: the base URL with the path appended.
    pub fn url(&self, path: &str) -> (r: String)
        ensures
            r@ == self.endpoint_view() + path@,
    {
        let mut r = String::from_str(self.endpoint);
        r.append(path);
        r
    }

    /// The signature for one request: the `$1$` marker, then the SHA-1
    /// hex digest of secret, consumer key, method, URL, body and
    /// timestamp joined by `+`.
    pub fn signature(&self, url: &str, timestamp: &str, method: &str, body: &str) -> (r: String)
        ensures
            r@ == signature_spec(
                self.application_secret_view(),
                self.consumer_key_view(),
                method@,
                url@,
                body@,
                timestamp@,
            ),
    {
        let mut joined = self.application_secret.clone();
        joined.append("+");
        joined.append(self.consumer_key.as_str());
        joined.append("+");
        joined.append(method);
        joined.append("+");
        joined.append(url);
        joined.append("+");
        joined.append(body);
        joined.append("+");
        joined.append(timestamp);
        proof {
            reveal_strlit("+");
            assert("+"@ =~= seq!['+']);
            assert(joined@ =~= signable(
                self.application_secret_view(),
                self.consumer_key_view(),
                method@,
                url@,
                body@,
                timestamp@,
            ));
        }
        let digest = sha1_hexdigest(joined.as_str());
        let mut r = String::from_str("$1$");
        r.append(digest.as_str());
        proof {
            reveal_strlit("$1$");
            assert("$1$"@ =~= sig_prefix());
            assert(r@ =~= signature_spec(
                self.application_secret_view(),
                self.consumer_key_view(),
                method@,
                url@,
                body@,
                timestamp@,
            ));
        }
        r
    }

    /// The headers every request carries: the application key alone,
    /// in clear.
    pub fn default_headers(&self) -> (h: Vec<Header>)
        ensures
            h@.len() == 1,
            h@[0].name@ == "X-Ovh-Application"@,
            h@[0].value@ == self.application_key_view(),
            !h@[0].sensitive,
    {
        let mut h: Vec<Header> = Vec::new();
        h.push(
            Header {
                name: String::from_str("X-Ovh-Application"),
                value: self.application_key.clone(),
                sensitive: false,
            },
        );
        h
    }

    /// The timestamp to sign with: the local clock reading plus the
    /// server delta, or a range error when that leaves the width.
    pub fn signed_timestamp(local_time: u64, time_delta: i64) -> (r: Result<i64, Error>)
        ensures
            match r {
                Ok(ts) => timestamp_in_range(local_time, time_delta) && ts == local_time
                    + time_delta,
                Err(e) => !timestamp_in_range(local_time, time_delta) && (e matches Error::Error(m)
                    && m@ == "timestamp out of range"@),
            },
    {
        if local_time > i64::MAX as u64 {
            return Err(Error::Error(String::from_str("timestamp out of range")));
        }
        let base: i64 = local_time as i64;
        match base.checked_add(time_delta) {
            Some(ts) => Ok(ts),
            None => Err(Error::Error(String::from_str("timestamp out of range"))),
        }
    }

    /// The server time delta from a server time response body: the body
    /// parsed as seconds, subtracted from the local clock reading.
    pub fn time_delta_from(local_time: u64, server_body: &str) -> (r: Result<i64, Error>)
        ensures
            match r {
                Ok(d) => parse_u64_spec(server_body@) matches Some(st) && time_delta_spec(
                    local_time,
                    st,
                ) == Some(d),
                Err(e) => {
                    ||| (parse_u64_spec(server_body@) is None && (e matches Error::Error(m)
                        && m@ == "invalid server time"@))
                    ||| (parse_u64_spec(server_body@) matches Some(st) && (time_delta_spec(
                        local_time,
                        st,
                    ) is None && (e matches Error::Error(m) && m@ == "time delta out of range"@)))
                },
            },
    {
        let st = match parse_u64(server_body) {
            Some(v) => v,
            None => {
                return Err(Error::Error(String::from_str("invalid server time")));
            },
        };
        if local_time >= st {
            let diff = local_time - st;
            if diff <= i64::MAX as u64 {
                Ok(diff as i64)
            } else {
                Err(Error::Error(String::from_str("time delta out of range")))
            }
        } else {
            let diff = st - local_time;
            if diff <= 9223372036854775808u64 {
                Ok((0i128 - (diff as i128)) as i64)
            } else {
                Err(Error::Error(String::from_str("time delta out of range")))
            }
        }
    }

    /// The full authenticated header set for one request: application
    /// key, consumer key, timestamp, and the signature over exactly the
    /// given method, URL and body.
    pub fn gen_headers(
        &self,
        url: &str,
        method: &str,
        body: &str,
        local_time: u64,
        time_delta: i64,
    ) -> (r: Result<Vec<Header>, Error>)
        ensures
            match r {
                Ok(h) => {
                    &&& timestamp_in_range(local_time, time_delta)
                    &&& h@.len() == 4
                    &&& auth_headers_match(
                        *self,
                        h@,
                        method@,
                        url@,
                        body@,
                        local_time + time_delta,
                    )
                },
                Err(e) => !timestamp_in_range(local_time, time_delta) && (e matches Error::Error(m)
                    && m@ == "timestamp out of range"@),
            },
    {
        let ts = match Self::signed_timestamp(local_time, time_delta) {
            Ok(ts) => ts,
            Err(e) => {
                return Err(e);
            },
        };
        let mut h = self.default_headers();
        let ts_str = i64_dec_string(ts);
        let sig = self.signature(url, ts_str.as_str(), method, body);
        push_sensitive_header(&mut h, "X-Ovh-Consumer", self.consumer_key.clone());
        push_sensitive_header(&mut h, "X-Ovh-Timestamp", ts_str);
        push_sensitive_header(&mut h, "X-Ovh-Signature", sig);
        Ok(h)
    }

    /// A signed request, ready to transmit: the body carried is the
    /// very string the signature was computed over, and a bodied
    /// request additionally declares the JSON content type.
    pub fn prepare_signed(
        &self,
        method: &str,
        path: &str,
        body: Option<&str>,
        local_time: u64,
        time_delta: i64,
    ) -> (r: Result<PreparedRequest, Error>)
        ensures
            match r {
                Ok(p) => {
                    &&& timestamp_in_range(local_time, time_delta)
                    &&& p.url@ == self.endpoint_view() + path@
                    &&& p.body@ == (if body is Some {
                        body->0@
                    } else {
                        Seq::<char>::empty()
                    })
                    &&& auth_headers_match(
                        *self,
                        p.headers@,
                        method@,
                        p.url@,
                        p.body@,
                        local_time + time_delta,
                    )
                    &&& (body is Some ==> {
                        &&& p.headers@.len() == 5
                        &&& p.headers@[4].name@ == "Content-type"@
                        &&& p.headers@[4].value@ == "application/json"@
                        &&& !p.headers@[4].sensitive
                    })
                    &&& (body is None ==> p.headers@.len() == 4)
                },
                Err(e) => !timestamp_in_range(local_time, time_delta) && (e matches Error::Error(m)
                    && m@ == "timestamp out of range"@),
            },
    {
        let url = self.url(path);
        let body_str: &str = match body {
            Some(b) => b,
            None => "",
        };
        proof {
            reveal_strlit("");
            assert(""@ =~= Seq::<char>::empty());
        }
        let mut h = match self.gen_headers(url.as_str(), method, body_str, local_time, time_delta) {
            Ok(h) => h,
            Err(e) => {
                return Err(e);
            },
        };
        if body.is_some() {
            h.push(
                Header {
                    name: String::from_str("Content-type"),
                    value: String::from_str("application/json"),
                    sensitive: false,
                },
            );
        }
        Ok(PreparedRequest { url, headers: h, body: String::from_str(body_str) })
    }

    /// An unauthenticated request: the application key header alone,
    /// no body, nothing signature-related.
    pub fn prepare_noauth(&self, path: &str) -> (r: PreparedRequest)
        ensures
            r.url@ == self.endpoint_view() + path@,
            r.body@.len() == 0,
            r.headers@.len() == 1,
            r.headers@[0].name@ == "X-Ovh-Application"@,
            r.headers@[0].value@ == self.application_key_view(),
            !r.headers@[0].sensitive,
    {
        PreparedRequest { url: self.url(path), headers: self.default_headers(), body: String::new() }
    }
}

/// Signature computation is deterministic: two clients holding the
/// same secret and consumer key sign any request identically, however
/// they were constructed.
pub proof fn lemma_signature_deterministic(
    c1: OvhClient,
    c2: OvhClient,
    method: Seq<char>,
    url: Seq<char>,
    body: Seq<char>,
    timestamp: Seq<char>,
)
    requires
        c1.application_secret_view() == c2.application_secret_view(),
        c1.consumer_key_view() == c2.consumer_key_view(),
    ensures
        signature_spec(
            c1.application_secret_view(),
            c1.consumer_key_view(),
            method,
            url,
            body,
            timestamp,
        ) == signature_spec(
            c2.application_secret_view(),
            c2.consumer_key_view(),
            method,
            url,
            body,
            timestamp,
        ),
{
}

/// The signature binds the transmitted body: two requests that agree
/// on everything but the body hash different inputs whenever the
/// bodies differ by as much as one byte, so substituting one
/// serialization for another can reproduce the signature only if the
/// two are identical.
pub proof fn lemma_signature_binds_body(
    c: OvhClient,
    h1: Seq<Header>,
    h2: Seq<Header>,
    method: Seq<char>,
    url: Seq<char>,
    body1: Seq<char>,
    body2: Seq<char>,
    ts: int,
)
    requires
        auth_headers_match(c, h1, method, url, body1, ts),
        auth_headers_match(c, h2, method, url, body2, ts),
        body1 != body2,
    ensures
        signable(
            c.application_secret_view(),
            c.consumer_key_view(),
            method,
            url,
            body1,
            dec_str_int(ts),
        ) != signable(
            c.application_secret_view(),
            c.consumer_key_view(),
            method,
            url,
            body2,
            dec_str_int(ts),
        ),
{
    crate::signing::lemma_signable_field_binding(
        c.application_secret_view(),
        c.application_secret_view(),
        c.consumer_key_view(),
        c.consumer_key_view(),
        method,
        method,
        url,
        url,
        body1,
        body2,
        dec_str_int(ts),
        dec_str_int(ts),
    );
}

/// An unauthenticated header set carries none of the three
/// signature-related headers.
pub proof fn lemma_noauth_headers_without_auth(h: Seq<Header>)
    requires
        h.len() == 1,
        h[0].name@ == "X-Ovh-Application"@,
    ensures
        forall|i: int|
            0 <= i < h.len() ==> h[i].name@ != "X-Ovh-Consumer"@ && h[i].name@
                != "X-Ovh-Timestamp"@ && h[i].name@ != "X-Ovh-Signature"@,
{
    reveal_strlit("X-Ovh-Application");
    reveal_strlit("X-Ovh-Consumer");
    reveal_strlit("X-Ovh-Timestamp");
    reveal_strlit("X-Ovh-Signature");
    assert forall|i: int|
        0 <= i < h.len() implies h[i].name@ != "X-Ovh-Consumer"@ && h[i].name@
        != "X-Ovh-Timestamp"@ && h[i].name@ != "X-Ovh-Signature"@ by {
        assert(h[i].name@ == "X-Ovh-Application"@);
        assert("X-Ovh-Application"@.len() == 17);
        assert("X-Ovh-Consumer"@.len() == 14);
        assert("X-Ovh-Timestamp"@.len() == 15);
        assert("X-Ovh-Signature"@.len() == 15);
    }
}

/// An authenticated header set carries all four headers, each with a
/// non-empty value, whenever the two credentials sent are non-empty.
pub proof fn lemma_auth_headers_nonempty(
    c: OvhClient,
    h: Seq<Header>,
    method: Seq<char>,
    url: Seq<char>,
    body: Seq<char>,
    ts: int,
)
    requires
        auth_headers_match(c, h, method, url, body, ts),
        c.application_key_view().len() > 0,
        c.consumer_key_view().len() > 0,
    ensures
        h[0].value@.len() > 0,
        h[1].value@.len() > 0,
        h[2].value@.len() > 0,
        h[3].value@.len() > 0,
{
    lemma_dec_str_int_len(ts);
    lemma_signature_nonempty(
        c.application_secret_view(),
        c.consumer_key_view(),
        method,
        url,
        body,
        dec_str_int(ts),
    );
}

} // verus!
