//! Configuration-file construction: an INI document holds a `default`
//! section naming the endpoint, and a section of that name holding the
//! three credentials.

use vstd::prelude::*;
use vstd::string::StringExecFns;
use crate::client::{Error, OvhClient};
use crate::endpoints::endpoint_url_spec;
use configparser::ini::Ini;

verus! {

#[verifier::external_type_specification]
#[verifier::external_body]
pub struct ExIni(Ini);

/// An INI document: section name to key to optional value, with the
/// names folded as the parser stores them.
pub type IniDoc = Map<Seq<char>, Map<Seq<char>, Option<Seq<char>>>>;

/// The document a parser value currently holds.
pub uninterp spec fn ini_model(ini: Ini) -> IniDoc;

/// Whether a parser value was made with the default settings
/// (case-insensitive names, `default` section, `=` and `:` delimiters).
pub uninterp spec fn ini_is_default(ini: Ini) -> bool;

/// The document that parsing a text under the default settings yields,
/// or nothing when the text is rejected.
pub uninterp spec fn ini_doc_of(s: Seq<char>) -> Option<IniDoc>;

/// What `str::to_lowercase` returns for a string's characters.
pub uninterp spec fn ini_lower(s: Seq<char>) -> Seq<char>;

/// Whether a character is ASCII and not an uppercase letter.
pub open spec fn ascii_not_upper(c: char) -> bool {
    (c as u32) < 128 && !(65 <= c as u32 && c as u32 <= 90)
}

/// Whether no character is an ASCII uppercase letter and all are ASCII,
/// the condition under which the parser keeps a name unchanged.
pub open spec fn no_ascii_upper(s: Seq<char>) -> bool {
    forall|i: int| 0 <= i < s.len() ==> ascii_not_upper(#[trigger] s[i])
}

/// How the parser folds a section or key name before storing or
/// looking it up: kept as is when it has no ASCII uppercase letter,
/// lowercased otherwise.
pub open spec fn ini_key_fold(s: Seq<char>) -> Seq<char> {
    if no_ascii_upper(s) {
        s
    } else {
        ini_lower(s)
    }
}

/// The value a document holds for a section and key, after folding
/// both names: nothing when the section or key is absent, or when the
/// key stands alone with no value.
pub open spec fn ini_lookup(doc: IniDoc, section: Seq<char>, key: Seq<char>) -> Option<Seq<char>> {
    let s = ini_key_fold(section);
    let k = ini_key_fold(key);
    if doc.contains_key(s) && doc[s].contains_key(k) {
        doc[s][k]
    } else {
        None
    }
}

/// Relies on configparser's Ini::new and Ini::read: a parser made with
/// the default settings, holding the document parsed from the text; the
/// parse result is a function of the text alone.
#[verifier::external_body]
pub(crate) fn ini_parse(input: String) -> (r: Result<Ini, String>)
    ensures
        r is Ok <==> ini_doc_of(input@) is Some,
        r matches Ok(i) ==> ini_is_default(i) && ini_model(i) == ini_doc_of(input@)->0,
{
    let mut ini = Ini::new();
    match ini.read(input) {
        Ok(_) => Ok(ini),
        Err(e) => Err(e),
    }
}

/// Relies on configparser's Ini::get: looks the key up in the stored
/// document, folding the section and key names as the parser does.
#[verifier::external_body]
pub(crate) fn ini_get(ini: &Ini, section: &str, key: &str) -> (r: Option<String>)
    requires
        ini_is_default(*ini),
    ensures
        ({
            let doc = ini_model(*ini);
            let s = if no_ascii_upper(section@) {
                section@
            } else {
                ini_lower(section@)
            };
            let k = if no_ascii_upper(key@) {
                key@
            } else {
                ini_lower(key@)
            };
            match r {
                Some(v) => doc.contains_key(s) && doc[s].contains_key(k) && doc[s][k] == Some(v@),
                None => !(doc.contains_key(s) && doc[s].contains_key(k) && doc[s][k] is Some),
            }
        }),
{
    ini.get(section, key)
}

/// The endpoint identifier a document names in its `default` section.
pub open spec fn conf_endpoint(doc: IniDoc) -> Option<Seq<char>> {
    ini_lookup(doc, "default"@, "endpoint"@)
}

/// Whether a document is well formed: it names an endpoint, the
/// endpoint's section holds all three credentials, and the endpoint is
/// in the fixed registry.
pub open spec fn conf_ok(doc: IniDoc) -> bool {
    &&& conf_endpoint(doc) is Some
    &&& ini_lookup(doc, conf_endpoint(doc)->0, "application_key"@) is Some
    &&& ini_lookup(doc, conf_endpoint(doc)->0, "application_secret"@) is Some
    &&& ini_lookup(doc, conf_endpoint(doc)->0, "consumer_key"@) is Some
    &&& endpoint_url_spec(conf_endpoint(doc)->0) is Some
}

/// A client built from a well-formed document is equivalent to one
/// built directly from the endpoint identifier and credentials that
/// the document holds: both constructions pin the same four fields to
/// the same values.
pub proof fn lemma_conf_equals_direct(built: OvhClient, direct: OvhClient, doc: IniDoc)
    requires
        conf_ok(doc),
        built.endpoint_view() == endpoint_url_spec(conf_endpoint(doc)->0)->0,
        built.application_key_view() == ini_lookup(doc, conf_endpoint(doc)->0, "application_key"@)->0,
        built.application_secret_view() == ini_lookup(
            doc,
            conf_endpoint(doc)->0,
            "application_secret"@,
        )->0,
        built.consumer_key_view() == ini_lookup(doc, conf_endpoint(doc)->0, "consumer_key"@)->0,
        direct.endpoint_view() == endpoint_url_spec(conf_endpoint(doc)->0)->0,
        direct.application_key_view() == ini_lookup(
            doc,
            conf_endpoint(doc)->0,
            "application_key"@,
        )->0,
        direct.application_secret_view() == ini_lookup(
            doc,
            conf_endpoint(doc)->0,
            "application_secret"@,
        )->0,
        direct.consumer_key_view() == ini_lookup(doc, conf_endpoint(doc)->0, "consumer_key"@)->0,
    ensures
        built.endpoint_view() == direct.endpoint_view(),
        built.application_key_view() == direct.application_key_view(),
        built.application_secret_view() == direct.application_secret_view(),
        built.consumer_key_view() == direct.consumer_key_view(),
{
}

impl OvhClient {
    /// Creates a client from the text of a configuration file: succeeds
    /// exactly on a well-formed document, and yields the same client
    /// that direct construction with the document's values yields; a
    /// missing key fails with a message naming that key.
    pub fn from_conf_content(content: &str) -> (r: Result<OvhClient, Error>)
        ensures
            r is Ok <==> (ini_doc_of(content@) matches Some(doc) && conf_ok(doc)),
            r matches Ok(c) ==> (ini_doc_of(content@) matches Some(doc) && {
                &&& c.endpoint_view() == endpoint_url_spec(conf_endpoint(doc)->0)->0
                &&& c.application_key_view() == ini_lookup(
                    doc,
                    conf_endpoint(doc)->0,
                    "application_key"@,
                )->0
                &&& c.application_secret_view() == ini_lookup(
                    doc,
                    conf_endpoint(doc)->0,
                    "application_secret"@,
                )->0
                &&& c.consumer_key_view() == ini_lookup(
                    doc,
                    conf_endpoint(doc)->0,
                    "consumer_key"@,
                )->0
            }),
            r matches Err(e) ==> (e matches Error::ConfigError(m) && (match ini_doc_of(content@) {
                None => true,
                Some(doc) => {
                    if conf_endpoint(doc) is None {
                        m@ == "missing key `endpoint`"@
                    } else {
                        let ep = conf_endpoint(doc)->0;
                        if ini_lookup(doc, ep, "application_key"@) is None {
                            m@ == "missing key `application_key`"@
                        } else if ini_lookup(doc, ep, "application_secret"@) is None {
                            m@ == "missing key `application_secret`"@
                        } else if ini_lookup(doc, ep, "consumer_key"@) is None {
                            m@ == "missing key `consumer_key`"@
                        } else {
                            endpoint_url_spec(ep) is None && m@ == "failed to create client"@
                        }
                    }
                },
            })),
    {
        let ini = match ini_parse(String::from_str(content)) {
            Ok(i) => i,
            Err(e) => {
                return Err(Error::ConfigError(e));
            },
        };
        let endpoint = match ini_get(&ini, "default", "endpoint") {
            Some(v) => v,
            None => {
                return Err(Error::ConfigError(String::from_str("missing key `endpoint`")));
            },
        };
        let application_key = match ini_get(&ini, endpoint.as_str(), "application_key") {
            Some(v) => v,
            None => {
                return Err(Error::ConfigError(String::from_str("missing key `application_key`")));
            },
        };
        let application_secret = match ini_get(&ini, endpoint.as_str(), "application_secret") {
            Some(v) => v,
            None => {
                return Err(
                    Error::ConfigError(String::from_str("missing key `application_secret`")),
                );
            },
        };
        let consumer_key = match ini_get(&ini, endpoint.as_str(), "consumer_key") {
            Some(v) => v,
            None => {
                return Err(Error::ConfigError(String::from_str("missing key `consumer_key`")));
            },
        };
        match OvhClient::new(
            endpoint.as_str(),
            application_key.as_str(),
            application_secret.as_str(),
            consumer_key.as_str(),
        ) {
            Some(c) => Ok(c),
            None => Err(Error::ConfigError(String::from_str("failed to create client"))),
        }
    }
}

} // verus!
