//! Request headers as plain values, with the sensitivity mark that
//! keeps signing material out of logs.

use vstd::prelude::*;
use vstd::string::StringExecFns;

verus! {

/// One request header. A sensitive header (consumer key, timestamp,
/// signature) must be redacted in any diagnostic output.
pub struct Header {
    pub name: String,
    pub value: String,
    pub sensitive: bool,
}

impl Header {
    /// The header as diagnostic text. The value of a sensitive header
    /// never appears: the redaction marker stands in its place, so no
    /// trace can leak signing material.
    pub fn trace_text(&self) -> (r: String)
        ensures
            self.sensitive ==> r@ == self.name@ + ": "@ + "<redacted>"@,
            !self.sensitive ==> r@ == self.name@ + ": "@ + self.value@,
    {
        let mut r = self.name.clone();
        r.append(": ");
        if self.sensitive {
            r.append("<redacted>");
        } else {
            r.append(self.value.as_str());
        }
        r
    }
}

/// Appends a header marked sensitive, leaving the others unchanged.
pub(crate) fn push_sensitive_header(headers: &mut Vec<Header>, name: &'static str, value: String)
    ensures
        final(headers)@.len() == old(headers)@.len() + 1,
        forall|i: int| 0 <= i < old(headers)@.len() ==> final(headers)@[i] == old(headers)@[i],
        final(headers)@.last().name@ == name@,
        final(headers)@.last().value@ == value@,
        final(headers)@.last().sensitive,
{
    headers.push(Header { name: String::from_str(name), value, sensitive: true });
}

} // verus!
