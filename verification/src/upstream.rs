//! The mapping from the outcome of the one outbound upstream call to the
//! response envelope. The decision logic is verified; only the JSON
//! decoding of a reply body is trusted, behind one wrapper per reply shape,
//! whose result is named by an uninterpreted spec function of the body.

use vstd::prelude::*;
use vstd::string::StringExecFns;
use crate::envelope::ApiResponse;
use crate::envelope::EnvelopeModel;
use crate::envelope::envelope_err;
use crate::envelope::envelope_ok;
use crate::escape::chars_to_string;
use crate::numeral::spec_decimal;
use crate::numeral::u16_decimal;

verus! {

/// What came back from the one outbound call: a reply with its HTTP status
/// and body text, or a transport failure (the call never completed).
pub enum UpstreamOutcome {
    Reply { status: u16, body: String },
    TransportFailure,
}

/// The model of an outcome: the reply body as its character sequence.
pub enum OutcomeModel {
    Reply { status: u16, body: Seq<char> },
    TransportFailure,
}

impl View for UpstreamOutcome {
    type V = OutcomeModel;

    open spec fn view(&self) -> OutcomeModel {
        match self {
            UpstreamOutcome::Reply { status, body } => OutcomeModel::Reply {
                status: *status,
                body: body@,
            },
            UpstreamOutcome::TransportFailure => OutcomeModel::TransportFailure,
        }
    }
}

/// The texts decoded from a translate reply body
/// `{"translations":[{"text":...},...]}`, in order; `None` when the body
/// does not have that shape. The decoding is a function of the body alone.
pub uninterp spec fn translations_of(body: Seq<char>) -> Option<Seq<Seq<char>>>;

/// The texts decoded from an improve reply body
/// `{"improvements":[{"text":...},...]}`, in order; `None` when the body
/// does not have that shape. The decoding is a function of the body alone.
pub uninterp spec fn improvements_of(body: Seq<char>) -> Option<Seq<Seq<char>>>;

/// The model of an optional list of texts.
pub open spec fn opt_texts_view(r: Option<Vec<String>>) -> Option<Seq<Seq<char>>> {
    match r {
        Some(v) => Some(v@.map_values(|s: String| s@)),
        None => None,
    }
}

/// Relies on `serde_json::from_str::<serde_json::Value>` and on
/// `serde_json::Value::{get, as_array, as_str}`: parses the reply body and
/// hands out the `text` of each entry of its `translations` list, in
/// order; `None` when the body is not JSON of that shape. The result is a
/// function of the body alone.
#[verifier::external_body]
fn decode_translations(body: &str) -> (r: Option<Vec<String>>)
    ensures
        opt_texts_view(r) == translations_of(body@),
{
    let root: serde_json::Value = serde_json::from_str(body).ok()?;
    let items = root.get("translations")?.as_array()?;
    let mut texts = Vec::with_capacity(items.len());
    for item in items {
        texts.push(item.get("text")?.as_str()?.to_owned());
    }
    Some(texts)
}

/// Relies on `serde_json::from_str::<serde_json::Value>` and on
/// `serde_json::Value::{get, as_array, as_str}`: parses the reply body and
/// hands out the `text` of each entry of its `improvements` list, in
/// order; `None` when the body is not JSON of that shape. The result is a
/// function of the body alone.
#[verifier::external_body]
fn decode_improvements(body: &str) -> (r: Option<Vec<String>>)
    ensures
        opt_texts_view(r) == improvements_of(body@),
{
    let root: serde_json::Value = serde_json::from_str(body).ok()?;
    let items = root.get("improvements")?.as_array()?;
    let mut texts = Vec::with_capacity(items.len());
    for item in items {
        texts.push(item.get("text")?.as_str()?.to_owned());
    }
    Some(texts)
}

/// Whether `status` is an HTTP success status.
pub open spec fn spec_is_success(status: u16) -> bool {
    200 <= status <= 299
}

/// The error message for an upstream rejection: "API error: " and the
/// decimal status code.
pub open spec fn spec_status_err(status: u16) -> Seq<char> {
    "API error: "@ + spec_decimal(status as nat)
}

/// The envelope for a translate call, as a function of the upstream
/// outcome: the first translation on success; the fixed messages for a
/// rejection, an empty list, an unreadable body, and a transport failure.
pub open spec fn spec_translate_envelope(o: OutcomeModel) -> EnvelopeModel {
    match o {
        OutcomeModel::TransportFailure => envelope_err("Network error"@),
        OutcomeModel::Reply { status, body } => if !spec_is_success(status) {
            envelope_err(spec_status_err(status))
        } else {
            match translations_of(body) {
                None => envelope_err("Failed to parse response"@),
                Some(texts) => if texts.len() == 0 {
                    envelope_err("No translation returned"@)
                } else {
                    envelope_ok(texts[0])
                },
            }
        },
    }
}

/// The envelope for an improve call, as a function of the upstream
/// outcome; it differs from the translate envelope only in the reply shape
/// it decodes and in the empty-list message.
pub open spec fn spec_improve_envelope(o: OutcomeModel) -> EnvelopeModel {
    match o {
        OutcomeModel::TransportFailure => envelope_err("Network error"@),
        OutcomeModel::Reply { status, body } => if !spec_is_success(status) {
            envelope_err(spec_status_err(status))
        } else {
            match improvements_of(body) {
                None => envelope_err("Failed to parse response"@),
                Some(texts) => if texts.len() == 0 {
                    envelope_err("No improvement returned"@)
                } else {
                    envelope_ok(texts[0])
                },
            }
        },
    }
}

/// The envelope invariant holds of the envelope for every outcome of
/// either operation: every response the service returns carries either a
/// result or an error, never both.
pub proof fn lemma_envelope_invariant(o: OutcomeModel)
    ensures
        spec_translate_envelope(o).inv(),
        spec_improve_envelope(o).inv(),
{
}

/// The error message for an upstream rejection with `status`.
pub fn status_error_message(status: u16) -> (r: String)
    ensures
        r@ == spec_status_err(status),
{
    let mut out = String::from_str("API error: ");
    let digits = chars_to_string(&u16_decimal(status));
    out.append(digits.as_str());
    proof {
        assert(out@ =~= spec_status_err(status));
    }
    out
}

/// Whether `status` is an HTTP success status (2xx), executably.
pub fn is_success_status(status: u16) -> (r: bool)
    ensures
        r == spec_is_success(status),
{
    200 <= status && status <= 299
}

/// Maps the outcome of the upstream translate call to the response
/// envelope.
pub fn translate_envelope(outcome: &UpstreamOutcome) -> (r: ApiResponse)
    ensures
        r@ == spec_translate_envelope(outcome@),
        r@.inv(),
{
    match outcome {
        UpstreamOutcome::TransportFailure => ApiResponse::failed(String::from_str("Network error")),
        UpstreamOutcome::Reply { status, body } => {
            if !is_success_status(*status) {
                ApiResponse::failed(status_error_message(*status))
            } else {
                match decode_translations(body.as_str()) {
                    None => ApiResponse::failed(String::from_str("Failed to parse response")),
                    Some(texts) => {
                        if texts.len() == 0 {
                            ApiResponse::failed(String::from_str("No translation returned"))
                        } else {
                            let first = texts[0].clone();
                            proof {
                                assert(texts@.map_values(|s: String| s@)[0] == texts@[0]@);
                            }
                            ApiResponse::succeeded(first)
                        }
                    },
                }
            }
        },
    }
}

/// Maps the outcome of the upstream improve call to the response envelope.
pub fn improve_envelope(outcome: &UpstreamOutcome) -> (r: ApiResponse)
    ensures
        r@ == spec_improve_envelope(outcome@),
        r@.inv(),
{
    match outcome {
        UpstreamOutcome::TransportFailure => ApiResponse::failed(String::from_str("Network error")),
        UpstreamOutcome::Reply { status, body } => {
            if !is_success_status(*status) {
                ApiResponse::failed(status_error_message(*status))
            } else {
                match decode_improvements(body.as_str()) {
                    None => ApiResponse::failed(String::from_str("Failed to parse response")),
                    Some(texts) => {
                        if texts.len() == 0 {
                            ApiResponse::failed(String::from_str("No improvement returned"))
                        } else {
                            let first = texts[0].clone();
                            proof {
                                assert(texts@.map_values(|s: String| s@)[0] == texts@[0]@);
                            }
                            ApiResponse::succeeded(first)
                        }
                    },
                }
            }
        },
    }
}

} // verus!
