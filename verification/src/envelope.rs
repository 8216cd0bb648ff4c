//! Request envelopes of the command bridge, parsed from inbound text
//! messages.
//!
//! The JSON text is parsed by serde_json behind trusted declarations; the
//! extraction of the envelope fields from the parsed document is verified
//! against the document model.

use crate::json::JsonModel;
use vstd::prelude::*;
use vstd::string::StringExecFns;

verus! {

/// Declares serde_json::Value — the parsed JSON document — so that it can
/// stand in signatures and fields; the verifier sees nothing inside it, and
/// the trusted accessors below relate it to the document model.
#[verifier::external_type_specification]
#[verifier::external_body]
pub struct ExJsonValue(serde_json::Value);

/// The JSON document a parsed serde_json value holds, as a value of the
/// model.
pub uninterp spec fn value_rep(v: serde_json::Value) -> JsonModel;

/// The parse result of a text: `Some` exactly on the texts that
/// serde_json::from_str accepts as a JSON document, carrying the model of
/// the parsed value.
pub uninterp spec fn parsed_doc(text: Seq<char>) -> Option<JsonModel>;

/// Relies on serde_json::from_str::<Value>: whether a text parses, and what
/// it parses to, depend on the text alone. The error case carries the
/// parser's display text.
#[verifier::external_body]
fn parse_json_text(text: &str) -> (r: Result<serde_json::Value, String>)
    ensures
        r is Ok <==> parsed_doc(text@) is Some,
        r is Ok ==> value_rep(r->Ok_0) == parsed_doc(text@)->Some_0,
{
    match serde_json::from_str::<serde_json::Value>(text) {
        Ok(v) => Ok(v),
        Err(e) => Err(e.to_string()),
    }
}

/// Relies on serde_json::Value::get with a string index: on an object it
/// looks the field up; on every other value it returns None.
#[verifier::external_body]
pub(crate) fn value_get<'a>(v: &'a serde_json::Value, key: &str) -> (r: Option<&'a serde_json::Value>)
    ensures
        value_rep(*v) matches JsonModel::Obj(m) ==> {
            &&& r is Some <==> m.dom().contains(key@)
            &&& (r is Some ==> value_rep(*r->Some_0) == m[key@])
        },
        !(value_rep(*v) is Obj) ==> r is None,
{
    v.get(key)
}

/// Relies on serde_json::Value::as_str: Some exactly on a JSON string,
/// returning its contents.
#[verifier::external_body]
pub(crate) fn value_as_str<'a>(v: &'a serde_json::Value) -> (r: Option<&'a str>)
    ensures
        r is Some <==> value_rep(*v) is Str,
        r is Some ==> r->Some_0@ == value_rep(*v)->Str_0,
{
    v.as_str()
}

/// Relies on serde_json::Value::is_null: true exactly on JSON null.
#[verifier::external_body]
pub(crate) fn value_is_null(v: &serde_json::Value) -> (r: bool)
    ensures
        r == (value_rep(*v) is Null),
{
    v.is_null()
}

/// Spec-level view of a request envelope.
pub struct EnvelopeModel {
    pub url: Seq<char>,
    pub correlation_id: Option<Seq<char>>,
    pub doc: JsonModel,
}

/// A parsed request: route, optional caller-assigned correlation id, and
/// the full parsed document (whose "body" field handlers may read).
#[derive(Debug)]
pub struct RequestEnvelope {
    pub url: String,
    pub correlation_id: Option<String>,
    pub doc: serde_json::Value,
}

impl View for RequestEnvelope {
    type V = EnvelopeModel;

    open spec fn view(&self) -> EnvelopeModel {
        EnvelopeModel {
            url: self.url@,
            correlation_id: match self.correlation_id {
                Some(s) => Some(s@),
                None => None,
            },
            doc: value_rep(self.doc),
        }
    }
}

/// The envelope fields a well-formed request document offers: the document
/// is an object with a string "url", and its "correlationId", when present,
/// is a string or null (null counts as absent). `None` when the document
/// has no such shape.
pub open spec fn envelope_fields(doc: JsonModel) -> Option<(Seq<char>, Option<Seq<char>>)> {
    match doc {
        JsonModel::Obj(m) => if !(m.dom().contains("url"@) && m["url"@] is Str) {
            None
        } else {
            let url = m["url"@]->Str_0;
            if !m.dom().contains("correlationId"@) {
                Some((url, None))
            } else if m["correlationId"@] is Null {
                Some((url, None))
            } else if m["correlationId"@] is Str {
                Some((url, Some(m["correlationId"@]->Str_0)))
            } else {
                None
            }
        },
        _ => None,
    }
}

/// The parse-failure detail reported for a JSON document that is not a
/// well-formed request envelope: the first missing piece, in the order the
/// fields are read.
pub open spec fn shape_error_text(doc: JsonModel) -> Seq<char> {
    if !(doc is Obj) || !doc->Obj_0.dom().contains("url"@) {
        "the url field is missing"@
    } else if !(doc->Obj_0["url"@] is Str) {
        "the url field is not a string"@
    } else {
        "the correlationId field is not a string or null"@
    }
}

/// The prefix every rejected message's error text starts with.
pub open spec fn malformed_prefix() -> Seq<char> {
    "Invalid JSON format: "@
}

/// `s` starts with the malformed-input prefix.
pub open spec fn has_malformed_prefix(s: Seq<char>) -> bool {
    s.len() >= malformed_prefix().len() && s.take(malformed_prefix().len() as int)
        == malformed_prefix()
}

/// Prepends the malformed-input prefix to a parse-failure detail.
fn malformed_message(detail: &str) -> (m: String)
    ensures
        m@ == malformed_prefix() + detail@,
        has_malformed_prefix(m@),
{
    let m = String::from_str("Invalid JSON format: ").concat(detail);
    proof {
        assert(m@.take(malformed_prefix().len() as int) =~= malformed_prefix());
    }
    m
}

/// Parses one inbound text message into a request envelope.
///
/// Succeeds exactly on texts that parse as a JSON object with a string
/// "url" and a well-formed optional "correlationId"; every rejection
/// carries an error text starting with the malformed-input prefix.
pub fn parse_request(text: &str) -> (r: Result<RequestEnvelope, String>)
    ensures
        r is Ok <==> (parsed_doc(text@) is Some && envelope_fields(
            parsed_doc(text@)->Some_0,
        ) is Some),
        r is Ok ==> {
            let fields = envelope_fields(parsed_doc(text@)->Some_0)->Some_0;
            &&& r->Ok_0@.url == fields.0
            &&& r->Ok_0@.correlation_id == fields.1
            &&& r->Ok_0@.doc == parsed_doc(text@)->Some_0
        },
        r is Err ==> has_malformed_prefix(r->Err_0@),
        (r is Err && parsed_doc(text@) is Some) ==> r->Err_0@ == malformed_prefix()
            + shape_error_text(parsed_doc(text@)->Some_0),
{
    let doc: serde_json::Value = match parse_json_text(text) {
        Ok(v) => v,
        Err(e) => {
            return Err(malformed_message(e.as_str()));
        },
    };
    let url: String = match value_get(&doc, "url") {
        Some(uv) => match value_as_str(uv) {
            Some(s) => s.to_owned(),
            None => {
                return Err(malformed_message("the url field is not a string"));
            },
        },
        None => {
            return Err(malformed_message("the url field is missing"));
        },
    };
    let correlation_id: Option<String> = match value_get(&doc, "correlationId") {
        None => None,
        Some(cv) => {
            if value_is_null(cv) {
                None
            } else {
                match value_as_str(cv) {
                    Some(s) => Some(s.to_owned()),
                    None => {
                        return Err(
                            malformed_message("the correlationId field is not a string or null"),
                        );
                    },
                }
            }
        },
    };
    Ok(RequestEnvelope { url, correlation_id, doc })
}

} // verus!
