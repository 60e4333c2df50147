//! Loading the recipient list: one JSON document whose top value must be an
//! array. Its elements stay opaque; their order determines the send order.

use vstd::prelude::*;

use crate::errors::FatalError;

verus! {

/// What `serde_json::from_str::<Value>` makes of a document: `Some(n)` when
/// the text is valid JSON whose top value is an array of `n` elements, and
/// `None` otherwise. The outcome depends on the text alone.
pub uninterp spec fn json_array_len(doc: Seq<char>) -> Option<nat>;

/// Relies on `serde_json::from_str::<Value>`: a document either fails to
/// parse, or parses to exactly one JSON value, as a function of its text
/// alone; a top-level `Value::Array` holds its elements in document order.
#[verifier::external_body]
fn parse_json_array(doc: &str) -> (r: Result<Vec<serde_json::Value>, String>)
    ensures
        r is Ok <==> json_array_len(doc@) is Some,
        r is Ok ==> r->Ok_0@.len() == json_array_len(doc@)->0,
{
    match serde_json::from_str::<serde_json::Value>(doc) {
        Err(e) => Err(format!("failed to parse recipient document: {}", e)),
        Ok(serde_json::Value::Array(elements)) => Ok(elements),
        Ok(_) => Err("recipient document must be a JSON array".to_owned()),
    }
}

/// The parsed recipient list. A value of this type witnesses that the
/// document was valid JSON with a top-level array; the records keep the
/// document's order and are read only through the extraction capability.
pub struct RecipientList {
    records: Vec<serde_json::Value>,
}

impl RecipientList {
    /// How many recipients the list holds.
    pub closed spec fn spec_len(&self) -> nat {
        self.records@.len()
    }

    /// Parses the recipient document. Fails with a data-format error exactly
    /// when the text is not valid JSON with a top-level array; otherwise the
    /// list holds one record per array element, in document order.
    pub fn load(doc: &str) -> (r: Result<RecipientList, FatalError>)
        ensures
            r is Ok <==> json_array_len(doc@) is Some,
            r is Ok ==> r->Ok_0.spec_len() == json_array_len(doc@)->0,
            r is Err ==> r->Err_0 is DataFormat,
    {
        match parse_json_array(doc) {
            Ok(records) => Ok(RecipientList { records }),
            Err(detail) => Err(FatalError::DataFormat(detail)),
        }
    }

    pub fn len(&self) -> (n: usize)
        ensures
            n == self.spec_len(),
    {
        self.records.len()
    }

    /// Hands the records over to the batch run, in order.
    pub(crate) fn into_records(self) -> (r: Vec<serde_json::Value>)
        ensures
            r@.len() == self.spec_len(),
    {
        self.records
    }
}

} // verus!
