//! The raw template interface: parse device output with a caller-
//! supplied template text, returning a JSON envelope.

use vstd::prelude::*;
use crate::json::error_env_spec;
use crate::json::error_envelope;
use crate::json::success_env_spec;
use crate::json::success_envelope;
use crate::parse::GPErr;
use crate::parse::GParsed;
use crate::parse::code_spec;
use crate::parse::interpret_spec;
use crate::template::compile;
use crate::engine::run;

verus! {

/// What the raw template interface returns, as one string. The
/// success envelope names the platform member `vendor`.
pub open spec fn textfsm_json_spec(
    vendor: Seq<char>,
    key: Seq<char>,
    tpl: Seq<char>,
    out: Seq<char>,
) -> Seq<char> {
    if vendor.len() == 0 || key.len() == 0 || tpl.len() == 0 || out.len() == 0 {
        error_env_spec("INVALID_INPUT"@, "One or more required inputs are empty"@)
    } else {
        match interpret_spec(tpl, out) {
            GParsed::Recs(recs) => success_env_spec("vendor"@, vendor, key, recs),
            GParsed::Fail(e) => error_env_spec(code_spec(e), (match e {
                GPErr::TemplateInvalid(m) => m,
                GPErr::EngineError(m) => m,
                GPErr::InvalidInput(m) => m,
                GPErr::TemplateNotFound(_, m) => m,
            })),
        }
    }
}

/// Parses `output_text` with the given template text and returns a
/// JSON envelope: `{"ok":true,"vendor":...,"commandKey":...,
/// "records":[...]}` on success, an error envelope otherwise.
pub fn parse_json(vendor: &str, command_key: &str, template_text: &str, output_text: &str) -> (r:
    String)
    ensures
        r@ == textfsm_json_spec(vendor@, command_key@, template_text@, output_text@),
{
    if vendor.is_empty() || command_key.is_empty() || template_text.is_empty()
        || output_text.is_empty() {
        return error_envelope("INVALID_INPUT", "One or more required inputs are empty");
    }
    match compile(template_text) {
        Err(m) => error_envelope("TEMPLATE_INVALID", m.as_str()),
        Ok(t) => match run(&t, output_text) {
            Err(m) => error_envelope("PARSE_ERROR", m.as_str()),
            Ok(recs) => success_envelope("vendor", vendor, command_key, &recs),
        },
    }
}

} // verus!
