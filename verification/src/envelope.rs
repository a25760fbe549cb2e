//! The request shapes accepted from clients and the uniform response
//! envelope returned to them, with the envelope's invariant: a response
//! carries either a result or an error, never both.

use vstd::prelude::*;

verus! {

/// A request to translate a text. `target_lang` defaults to `"EN"` when
/// absent; the default is applied when the outbound payload is built.
pub struct TranslateRequest {
    pub text: String,
    pub target_lang: Option<String>,
}

/// A request to improve a text. The optional fields are passed through to
/// the upstream service unmodified, and omitted entirely when absent.
pub struct ImproveRequest {
    pub text: String,
    pub target_lang: Option<String>,
    pub writing_style: Option<String>,
    pub tone: Option<String>,
}

/// The uniform envelope returned to clients: a result on success, an error
/// message on failure, discriminated by `success`.
pub struct ApiResponse {
    pub result: String,
    pub success: bool,
    pub error: Option<String>,
}

/// The mathematical model of an envelope: each string as its character
/// sequence.
pub struct EnvelopeModel {
    pub result: Seq<char>,
    pub success: bool,
    pub error: Option<Seq<char>>,
}

/// The view of an optional string: its character sequence, when present.
pub open spec fn opt_str_view(o: Option<String>) -> Option<Seq<char>> {
    match o {
        Some(s) => Some(s@),
        None => None,
    }
}

impl View for ApiResponse {
    type V = EnvelopeModel;

    open spec fn view(&self) -> EnvelopeModel {
        EnvelopeModel { result: self.result@, success: self.success, error: opt_str_view(self.error) }
    }
}

impl EnvelopeModel {
    /// The envelope invariant: an error is present exactly on failure, and a
    /// failed response carries no result.
    pub open spec fn inv(self) -> bool {
        &&& self.success <==> self.error is None
        &&& !self.success ==> self.result.len() == 0
    }
}

/// The model of a successful envelope carrying `result`.
pub open spec fn envelope_ok(result: Seq<char>) -> EnvelopeModel {
    EnvelopeModel { result, success: true, error: None }
}

/// The model of a failed envelope carrying the error message `msg`.
pub open spec fn envelope_err(msg: Seq<char>) -> EnvelopeModel {
    EnvelopeModel { result: Seq::empty(), success: false, error: Some(msg) }
}

impl ApiResponse {
    /// Builds the successful envelope for `result`.
    pub fn succeeded(result: String) -> (r: ApiResponse)
        ensures
            r@ == envelope_ok(result@),
            r@.inv(),
    {
        ApiResponse { result, success: true, error: None }
    }

    /// Builds the failed envelope for the error message `msg`.
    pub fn failed(msg: String) -> (r: ApiResponse)
        ensures
            r@ == envelope_err(msg@),
            r@.inv(),
    {
        ApiResponse { result: String::new(), success: false, error: Some(msg) }
    }
}

} // verus!
