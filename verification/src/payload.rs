//! The outbound upstream payloads. Each payload is a JSON object whose
//! exact text is given by a spec function; the builders are verified to
//! produce that text. An improve payload carries an optional field only
//! when the request supplied a value for it.

use vstd::prelude::*;
use vstd::string::StrSliceExecFns;
use vstd::string::StringExecFns;
use crate::envelope::ImproveRequest;
use crate::envelope::TranslateRequest;
use crate::envelope::opt_str_view;
use crate::escape::chars_to_string;
use crate::escape::json_escape;
use crate::escape::spec_escape;

verus! {

/// The requested target language, defaulted to "EN" when absent.
pub open spec fn lang_or_default(lang: Option<Seq<char>>) -> Seq<char> {
    match lang {
        Some(l) => l,
        None => "EN"@,
    }
}

/// The upstream translate payload: the text as a single-element list, and
/// the target language.
pub open spec fn spec_translate_payload(text: Seq<char>, lang: Option<Seq<char>>) -> Seq<char> {
    "{\"text\":[\""@ + spec_escape(text) + "\"],\"target_lang\":\""@ + spec_escape(
        lang_or_default(lang),
    ) + "\"}"@
}

/// One optional field of the improve payload: a comma, the field, and its
/// value when present; nothing at all when absent.
pub open spec fn spec_opt_field(label: Seq<char>, v: Option<Seq<char>>) -> Seq<char> {
    match v {
        Some(s) => label + spec_escape(s) + "\""@,
        None => Seq::empty(),
    }
}

/// The upstream improve payload: the text as a single-element list, then
/// each optional field that the request supplied, in a fixed order.
pub open spec fn spec_improve_payload(
    text: Seq<char>,
    lang: Option<Seq<char>>,
    style: Option<Seq<char>>,
    tone: Option<Seq<char>>,
) -> Seq<char> {
    "{\"text\":[\""@ + spec_escape(text) + "\"]"@ + spec_opt_field(",\"target_lang\":\""@, lang)
        + spec_opt_field(",\"writing_style\":\""@, style) + spec_opt_field(",\"tone\":\""@, tone)
        + "}"@
}

/// Builds the upstream translate payload for `req`, with the target
/// language defaulted to "EN" when absent.
pub fn translate_payload(req: &TranslateRequest) -> (r: String)
    ensures
        r@ == spec_translate_payload(req.text@, opt_str_view(req.target_lang)),
{
    let mut out = String::from_str("{\"text\":[\"");
    let esc_text = chars_to_string(&json_escape(req.text.as_str()));
    out.append(esc_text.as_str());
    out.append("\"],\"target_lang\":\"");
    let esc_lang = match &req.target_lang {
        Some(l) => chars_to_string(&json_escape(l.as_str())),
        None => chars_to_string(&json_escape("EN")),
    };
    out.append(esc_lang.as_str());
    out.append("\"}");
    proof {
        assert(out@ =~= spec_translate_payload(req.text@, opt_str_view(req.target_lang)));
    }
    out
}

/// Builds the upstream improve payload for `req`, omitting each absent
/// optional field entirely.
pub fn improve_payload(req: &ImproveRequest) -> (r: String)
    ensures
        r@ == spec_improve_payload(
            req.text@,
            opt_str_view(req.target_lang),
            opt_str_view(req.writing_style),
            opt_str_view(req.tone),
        ),
{
    let mut out = String::from_str("{\"text\":[\"");
    let esc_text = chars_to_string(&json_escape(req.text.as_str()));
    out.append(esc_text.as_str());
    out.append("\"]");
    if let Some(l) = &req.target_lang {
        out.append(",\"target_lang\":\"");
        let esc = chars_to_string(&json_escape(l.as_str()));
        out.append(esc.as_str());
        out.append("\"");
    }
    if let Some(s) = &req.writing_style {
        out.append(",\"writing_style\":\"");
        let esc = chars_to_string(&json_escape(s.as_str()));
        out.append(esc.as_str());
        out.append("\"");
    }
    if let Some(t) = &req.tone {
        out.append(",\"tone\":\"");
        let esc = chars_to_string(&json_escape(t.as_str()));
        out.append(esc.as_str());
        out.append("\"");
    }
    out.append("}");
    proof {
        assert(out@ =~= spec_improve_payload(
            req.text@,
            opt_str_view(req.target_lang),
            opt_str_view(req.writing_style),
            opt_str_view(req.tone),
        ));
    }
    out
}

/// An improve request with no optional fields produces a payload carrying
/// only the `text` field: no placeholders stand in for the absent fields.
pub proof fn lemma_improve_payload_text_only(text: Seq<char>)
    ensures
        spec_improve_payload(text, None, None, None) == "{\"text\":[\""@ + spec_escape(text)
            + "\"]}"@,
{
    reveal_strlit("\"]");
    reveal_strlit("}");
    reveal_strlit("\"]}");
    assert(spec_improve_payload(text, None, None, None) =~= "{\"text\":[\""@ + spec_escape(text)
        + "\"]}"@);
}

} // verus!
