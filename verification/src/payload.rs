//! Push payload parsing. The JSON work is done by serde_json behind one
//! trusted item; the defaults for absent fields are applied in verified
//! code.

use vstd::prelude::*;

verus! {

/// A parsed push notification body. Absent fields default to the empty
/// string and `false`.
pub struct PushPayload {
    /// The updated reference, e.g. `refs/tags/v1.2.3`.
    pub ref_name: String,
    /// Whether the reference was deleted.
    pub deleted: bool,
    /// The repository's full name, e.g. `org/repo`.
    pub repository_full_name: String,
}

/// The mathematical value of a `PushPayload`.
pub struct PushPayloadView {
    pub ref_name: Seq<char>,
    pub deleted: bool,
    pub repository_full_name: Seq<char>,
}

impl View for PushPayload {
    type V = PushPayloadView;

    open spec fn view(&self) -> PushPayloadView {
        PushPayloadView {
            ref_name: self.ref_name@,
            deleted: self.deleted,
            repository_full_name: self.repository_full_name@,
        }
    }
}

/// The fields serde_json reads from a request body: `None` when the body is
/// not a JSON object or holds one of the fields with the wrong type;
/// otherwise the `ref` string, the `deleted` flag and
/// `repository.full_name`, each `None` when absent. The result is a
/// function of the body bytes alone.
pub uninterp spec fn json_push_fields_of(body: Seq<u8>) -> Option<
    (Option<Seq<char>>, Option<bool>, Option<Seq<char>>),
>;

/// Relies on `serde_json::from_slice` and the `serde_json::Value`
/// accessors: parsing fails exactly when the body is not a JSON object, or
/// `ref`, `deleted`, `repository` or `repository.full_name` is present with
/// the wrong type; the extracted fields depend on the body bytes alone.
#[verifier::external_body]
fn parse_json_fields(body: &[u8]) -> (r: Option<(Option<String>, Option<bool>, Option<String>)>)
    ensures
        r.deep_view() == json_push_fields_of(body@),
{
    let v: serde_json::Value = match serde_json::from_slice(body) {
        Ok(v) => v,
        Err(_) => return None,
    };
    if !v.is_object() {
        return None;
    }
    let r = match v.get("ref") { None => None, Some(x) => Some(x.as_str()?.to_string()) };
    let d = match v.get("deleted") { None => None, Some(x) => Some(x.as_bool()?) };
    let repo = match v.get("repository") { None => None, Some(x) => x.as_object()?.get("full_name") };
    let f = match repo { None => None, Some(x) => Some(x.as_str()?.to_string()) };
    Some((r, d, f))
}

/// The payload a body parses to: `None` when the body is not a JSON object
/// or holds a field of the wrong type, otherwise the read fields with
/// absent ones defaulted to empty and `false`.
pub open spec fn push_payload_of(body: Seq<u8>) -> Option<PushPayloadView> {
    match json_push_fields_of(body) {
        None => None,
        Some(fields) => Some(
            PushPayloadView {
                ref_name: match fields.0 {
                    Some(r) => r,
                    None => Seq::empty(),
                },
                deleted: match fields.1 {
                    Some(d) => d,
                    None => false,
                },
                repository_full_name: match fields.2 {
                    Some(f) => f,
                    None => Seq::empty(),
                },
            },
        ),
    }
}

/// Parses a request body into a `PushPayload`, defaulting absent fields;
/// `None` exactly when the body is not a JSON object or holds a field of
/// the wrong type.
pub fn parse_payload(body: &[u8]) -> (r: Option<PushPayload>)
    ensures
        (r is Some) == (push_payload_of(body@) is Some),
        r matches Some(p) ==> push_payload_of(body@) == Some(p@),
{
    match parse_json_fields(body) {
        None => None,
        Some(fields) => {
            let ref_name = match fields.0 {
                Some(r) => r,
                None => String::new(),
            };
            let deleted = match fields.1 {
                Some(d) => d,
                None => false,
            };
            let repository_full_name = match fields.2 {
                Some(f) => f,
                None => String::new(),
            };
            Some(PushPayload { ref_name, deleted, repository_full_name })
        },
    }
}

} // verus!
