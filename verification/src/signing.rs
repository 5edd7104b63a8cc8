//! The request signature: the hash input that binds the credentials,
//! method, URL, body and timestamp, and the signature string built
//! from its SHA-1 digest.

use vstd::prelude::*;

verus! {

/// The 40-character lowercase hex digest that SHA-1 assigns to the
/// UTF-8 bytes of a string.
pub uninterp spec fn sha1_hex(s: Seq<char>) -> Seq<char>;

/// The field joiner the protocol fixes.
pub open spec fn plus() -> Seq<char> {
    seq!['+']
}

/// The string the signature hashes: the six fields in protocol order,
/// joined by `+`.
pub open spec fn signable(
    secret: Seq<char>,
    consumer_key: Seq<char>,
    method: Seq<char>,
    url: Seq<char>,
    body: Seq<char>,
    timestamp: Seq<char>,
) -> Seq<char> {
    secret + plus() + consumer_key + plus() + method + plus() + url + plus() + body + plus()
        + timestamp
}

/// The signature prefix the protocol fixes.
pub open spec fn sig_prefix() -> Seq<char> {
    seq!['$', '1', '$']
}

/// The signature string for the six fields.
pub open spec fn signature_spec(
    secret: Seq<char>,
    consumer_key: Seq<char>,
    method: Seq<char>,
    url: Seq<char>,
    body: Seq<char>,
    timestamp: Seq<char>,
) -> Seq<char> {
    sig_prefix() + sha1_hex(signable(secret, consumer_key, method, url, body, timestamp))
}

/// Relies on sha1's `Sha1::from` and `Digest`: the digest is a function
/// of the input bytes alone, written as exactly forty hex characters.
#[verifier::external_body]
pub(crate) fn sha1_hexdigest(s: &str) -> (r: String)
    ensures
        r@ == sha1_hex(s@),
        r@.len() == 40,
{
    sha1::Sha1::from(s).digest().to_string()
}

/// A signature string always starts with the three-character prefix,
/// so it is never empty.
pub proof fn lemma_signature_nonempty(
    secret: Seq<char>,
    consumer_key: Seq<char>,
    method: Seq<char>,
    url: Seq<char>,
    body: Seq<char>,
    timestamp: Seq<char>,
)
    ensures
        signature_spec(secret, consumer_key, method, url, body, timestamp).len() >= 3,
{
}

/// Replacing a middle piece of a concatenation, with the surrounding
/// pieces fixed, changes the whole unless the piece is unchanged.
proof fn lemma_concat_middle_cancel(p: Seq<char>, a: Seq<char>, b: Seq<char>, s: Seq<char>)
    requires
        p + a + s == p + b + s,
    ensures
        a == b,
{
    assert((p + a + s).len() == p.len() + a.len() + s.len());
    assert((p + b + s).len() == p.len() + b.len() + s.len());
    assert(a.len() == b.len());
    assert forall|i: int| 0 <= i < a.len() implies a[i] == b[i] by {
        assert((p + a + s)[p.len() + i] == a[i]);
        assert((p + b + s)[p.len() + i] == b[i]);
    }
    assert(a =~= b);
}

/// Changing exactly one field of the signed string, with the other five
/// fixed, always changes the hash input: equal hash inputs force the
/// varied field to be equal, for each of the six field positions.
#[verifier::rlimit(100)]
pub proof fn lemma_signable_field_binding(
    secret1: Seq<char>,
    secret2: Seq<char>,
    consumer_key1: Seq<char>,
    consumer_key2: Seq<char>,
    method1: Seq<char>,
    method2: Seq<char>,
    url1: Seq<char>,
    url2: Seq<char>,
    body1: Seq<char>,
    body2: Seq<char>,
    timestamp1: Seq<char>,
    timestamp2: Seq<char>,
)
    ensures
        signable(secret1, consumer_key1, method1, url1, body1, timestamp1) == signable(
            secret2,
            consumer_key1,
            method1,
            url1,
            body1,
            timestamp1,
        ) ==> secret1 == secret2,
        signable(secret1, consumer_key1, method1, url1, body1, timestamp1) == signable(
            secret1,
            consumer_key2,
            method1,
            url1,
            body1,
            timestamp1,
        ) ==> consumer_key1 == consumer_key2,
        signable(secret1, consumer_key1, method1, url1, body1, timestamp1) == signable(
            secret1,
            consumer_key1,
            method2,
            url1,
            body1,
            timestamp1,
        ) ==> method1 == method2,
        signable(secret1, consumer_key1, method1, url1, body1, timestamp1) == signable(
            secret1,
            consumer_key1,
            method1,
            url2,
            body1,
            timestamp1,
        ) ==> url1 == url2,
        signable(secret1, consumer_key1, method1, url1, body1, timestamp1) == signable(
            secret1,
            consumer_key1,
            method1,
            url1,
            body2,
            timestamp1,
        ) ==> body1 == body2,
        signable(secret1, consumer_key1, method1, url1, body1, timestamp1) == signable(
            secret1,
            consumer_key1,
            method1,
            url1,
            body1,
            timestamp2,
        ) ==> timestamp1 == timestamp2,
{
    let c = consumer_key1;
    let m = method1;
    let u = url1;
    let b = body1;
    let t = timestamp1;
    if signable(secret1, c, m, u, b, t) == signable(secret2, c, m, u, b, t) {
        let suf = plus() + c + plus() + m + plus() + u + plus() + b + plus() + t;
        assert(Seq::<char>::empty() + secret1 + suf =~= signable(secret1, c, m, u, b, t));
        assert(Seq::<char>::empty() + secret2 + suf =~= signable(secret2, c, m, u, b, t));
        lemma_concat_middle_cancel(Seq::<char>::empty(), secret1, secret2, suf);
    }
    if signable(secret1, consumer_key1, m, u, b, t) == signable(secret1, consumer_key2, m, u, b, t) {
        let pre = secret1 + plus();
        let suf = plus() + m + plus() + u + plus() + b + plus() + t;
        assert(pre + consumer_key1 + suf =~= signable(secret1, consumer_key1, m, u, b, t));
        assert(pre + consumer_key2 + suf =~= signable(secret1, consumer_key2, m, u, b, t));
        lemma_concat_middle_cancel(pre, consumer_key1, consumer_key2, suf);
    }
    if signable(secret1, c, method1, u, b, t) == signable(secret1, c, method2, u, b, t) {
        let pre = secret1 + plus() + c + plus();
        let suf = plus() + u + plus() + b + plus() + t;
        assert(pre + method1 + suf =~= signable(secret1, c, method1, u, b, t));
        assert(pre + method2 + suf =~= signable(secret1, c, method2, u, b, t));
        lemma_concat_middle_cancel(pre, method1, method2, suf);
    }
    if signable(secret1, c, m, url1, b, t) == signable(secret1, c, m, url2, b, t) {
        let pre = secret1 + plus() + c + plus() + m + plus();
        let suf = plus() + b + plus() + t;
        assert(pre + url1 + suf =~= signable(secret1, c, m, url1, b, t));
        assert(pre + url2 + suf =~= signable(secret1, c, m, url2, b, t));
        lemma_concat_middle_cancel(pre, url1, url2, suf);
    }
    if signable(secret1, c, m, u, body1, t) == signable(secret1, c, m, u, body2, t) {
        let pre = secret1 + plus() + c + plus() + m + plus() + u + plus();
        let suf = plus() + t;
        assert(pre + body1 + suf =~= signable(secret1, c, m, u, body1, t));
        assert(pre + body2 + suf =~= signable(secret1, c, m, u, body2, t));
        lemma_concat_middle_cancel(pre, body1, body2, suf);
    }
    if signable(secret1, c, m, u, b, timestamp1) == signable(secret1, c, m, u, b, timestamp2) {
        let pre = secret1 + plus() + c + plus() + m + plus() + u + plus() + b + plus();
        let suf = Seq::<char>::empty();
        assert(pre + timestamp1 + suf =~= signable(secret1, c, m, u, b, timestamp1));
        assert(pre + timestamp2 + suf =~= signable(secret1, c, m, u, b, timestamp2));
        lemma_concat_middle_cancel(pre, timestamp1, timestamp2, suf);
    }
}

} // verus!
