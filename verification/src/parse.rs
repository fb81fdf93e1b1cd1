//! The public facade: input validation, registry lookup, template
//! compilation, the engine run, and the JSON envelopes around them.

use vstd::prelude::*;
use vstd::string::StringExecFns;
use crate::engine::run;
use crate::engine::run_spec;
use crate::json::error_env_spec;
use crate::json::error_envelope;
use crate::json::success_env_spec;
use crate::json::success_envelope;
use crate::records::GField;
use crate::records::Record;
use crate::records::records_view;
use crate::registry::lookup;
use crate::registry::lookup_command;
use crate::registry::lookup_command_spec;
use crate::registry::lookup_spec;
use crate::registry::load_template_text;
use crate::registry::normalize_command_spec;
use crate::resources::template_text_spec;
use crate::template::compile;
use crate::template::compile_spec;

verus! {

/// Errors that can arise during parsing.
#[derive(Debug, Clone, PartialEq, Eq)]
pub enum ParseError {
    /// A required input was empty; the field names which one.
    InvalidInput(&'static str),
    /// No template is registered for the pair.
    TemplateNotFound { platform: String, command_key: String },
    /// The template text was rejected by the compiler.
    TemplateInvalid(String),
    /// An `Error` action fired, or the engine gave up.
    EngineError(String),
}

/// Ghost counterpart of `ParseError`.
pub enum GPErr {
    InvalidInput(Seq<char>),
    TemplateNotFound(Seq<char>, Seq<char>),
    TemplateInvalid(Seq<char>),
    EngineError(Seq<char>),
}

pub open spec fn perr_view(e: ParseError) -> GPErr {
    match e {
        ParseError::InvalidInput(f) => GPErr::InvalidInput(f@),
        ParseError::TemplateNotFound { platform, command_key } => GPErr::TemplateNotFound(
            platform@,
            command_key@,
        ),
        ParseError::TemplateInvalid(m) => GPErr::TemplateInvalid(m@),
        ParseError::EngineError(m) => GPErr::EngineError(m@),
    }
}

/// The stable code of each error, as seen in envelopes.
pub open spec fn code_spec(e: GPErr) -> Seq<char> {
    match e {
        GPErr::InvalidInput(_) => "INVALID_INPUT"@,
        GPErr::TemplateNotFound(_, _) => "TEMPLATE_NOT_FOUND"@,
        GPErr::TemplateInvalid(_) => "TEMPLATE_INVALID"@,
        GPErr::EngineError(_) => "PARSE_ERROR"@,
    }
}

/// The human-readable message of each error.
pub open spec fn message_spec(e: GPErr) -> Seq<char> {
    match e {
        GPErr::InvalidInput(f) => "required input is empty: "@ + f,
        GPErr::TemplateNotFound(p, k) => "no template for ("@ + p + ", "@ + k + ")"@,
        GPErr::TemplateInvalid(m) => "template compilation failed: "@ + m,
        GPErr::EngineError(m) => "parse error: "@ + m,
    }
}

impl ParseError {
    /// The stable error code used in envelopes.
    pub fn code(&self) -> (r: &'static str)
        ensures
            r@ == code_spec(perr_view(*self)),
    {
        match self {
            ParseError::InvalidInput(_) => "INVALID_INPUT",
            ParseError::TemplateNotFound { .. } => "TEMPLATE_NOT_FOUND",
            ParseError::TemplateInvalid(_) => "TEMPLATE_INVALID",
            ParseError::EngineError(_) => "PARSE_ERROR",
        }
    }

    /// The human-readable description of the error.
    pub fn message(&self) -> (r: String)
        ensures
            r@ == message_spec(perr_view(*self)),
    {
        let mut out = String::new();
        match self {
            ParseError::InvalidInput(f) => {
                out.append("required input is empty: ");
                out.append(f);
            },
            ParseError::TemplateNotFound { platform, command_key } => {
                out.append("no template for (");
                out.append(platform.as_str());
                out.append(", ");
                out.append(command_key.as_str());
                out.append(")");
            },
            ParseError::TemplateInvalid(m) => {
                out.append("template compilation failed: ");
                out.append(m.as_str());
            },
            ParseError::EngineError(m) => {
                out.append("parse error: ");
                out.append(m.as_str());
            },
        }
        proof {
            assert(out@ =~= message_spec(perr_view(*self)));
        }
        out
    }
}

/// Ghost outcome of the record-level interfaces.
pub enum GParsed {
    Recs(Seq<Seq<GField>>),
    Fail(GPErr),
}

/// The tail of the pipeline, shared by every interface: from template
/// text and output text to records.
pub open spec fn interpret_spec(tpl: Seq<char>, out: Seq<char>) -> GParsed {
    let c = compile_spec(tpl);
    if !c.ok {
        GParsed::Fail(GPErr::TemplateInvalid(c.err))
    } else {
        let r = run_spec(c.tpl, out);
        if r.fail {
            GParsed::Fail(GPErr::EngineError(r.err))
        } else {
            GParsed::Recs(r.recs)
        }
    }
}

/// What `parse_records` yields: validation, lookup, compile, run.
pub open spec fn parse_records_spec(p: Seq<char>, k: Seq<char>, o: Seq<char>) -> GParsed {
    if p.len() == 0 {
        GParsed::Fail(GPErr::InvalidInput("platform"@))
    } else if k.len() == 0 {
        GParsed::Fail(GPErr::InvalidInput("command_key"@))
    } else if o.len() == 0 {
        GParsed::Fail(GPErr::InvalidInput("output_text"@))
    } else {
        match lookup_spec(p, k) {
            None => GParsed::Fail(GPErr::TemplateNotFound(p, k)),
            Some(en) => match template_text_spec(en.template) {
                None => GParsed::Fail(GPErr::TemplateNotFound(p, k)),
                Some(tpl) => interpret_spec(tpl, o),
            },
        }
    }
}

/// What `parse_command_records` yields, along with the key it used.
#[verifier::ext_equal]
pub struct GCmdParsed {
    pub key: Seq<char>,
    pub res: GParsed,
}

pub open spec fn parse_command_spec(p: Seq<char>, c: Seq<char>, o: Seq<char>) -> GCmdParsed {
    if p.len() == 0 {
        GCmdParsed { key: Seq::empty(), res: GParsed::Fail(GPErr::InvalidInput("platform"@)) }
    } else if normalize_command_spec(c).len() == 0 {
        GCmdParsed { key: Seq::empty(), res: GParsed::Fail(GPErr::InvalidInput("command"@)) }
    } else if o.len() == 0 {
        GCmdParsed { key: Seq::empty(), res: GParsed::Fail(GPErr::InvalidInput("output_text"@)) }
    } else {
        let lk = lookup_command_spec(p, c);
        match lk.entry {
            None => GCmdParsed { key: lk.key, res: GParsed::Fail(GPErr::TemplateNotFound(p, lk.key)) },
            Some(en) => match template_text_spec(en.template) {
                None => GCmdParsed {
                    key: lk.key,
                    res: GParsed::Fail(GPErr::TemplateNotFound(p, lk.key)),
                },
                Some(tpl) => GCmdParsed { key: lk.key, res: interpret_spec(tpl, o) },
            },
        }
    }
}

/// Compiles template text and runs it over the output text: the
/// composition of the compiler and the engine.
pub fn parse_text(template_text: &str, output_text: &str) -> (r: Result<Vec<Record>, ParseError>)
    ensures
        ({
            let g = interpret_spec(template_text@, output_text@);
            match r {
                Ok(recs) => g == GParsed::Recs(records_view(recs@)),
                Err(e) => g == GParsed::Fail(perr_view(e)),
            }
        }),
{
    match compile(template_text) {
        Err(m) => Err(ParseError::TemplateInvalid(m)),
        Ok(t) => match run(&t, output_text) {
            Err(m) => Err(ParseError::EngineError(m)),
            Ok(recs) => Ok(recs),
        },
    }
}

/// Parses raw CLI output into structured records: looks the template
/// up by platform (aliases resolved) and canonical command key,
/// compiles it, and runs the engine.
pub fn parse_records(platform: &str, command_key: &str, output_text: &str) -> (r: Result<
    Vec<Record>,
    ParseError,
>)
    ensures
        ({
            let g = parse_records_spec(platform@, command_key@, output_text@);
            match r {
                Ok(recs) => g == GParsed::Recs(records_view(recs@)),
                Err(e) => g == GParsed::Fail(perr_view(e)),
            }
        }),
{
    if platform.is_empty() {
        return Err(ParseError::InvalidInput("platform"));
    }
    if command_key.is_empty() {
        return Err(ParseError::InvalidInput("command_key"));
    }
    if output_text.is_empty() {
        return Err(ParseError::InvalidInput("output_text"));
    }
    let entry = match lookup(platform, command_key) {
        None => {
            return Err(
                ParseError::TemplateNotFound {
                    platform: String::from_str(platform),
                    command_key: String::from_str(command_key),
                },
            );
        },
        Some(e) => e,
    };
    let tpl = match load_template_text(&entry) {
        None => {
            return Err(
                ParseError::TemplateNotFound {
                    platform: String::from_str(platform),
                    command_key: String::from_str(command_key),
                },
            );
        },
        Some(t) => t,
    };
    let recs = parse_text(tpl.as_str(), output_text)?;
    Ok(crate::normalize::normalize(command_key, recs))
}

/// Like `parse_records`, for a raw command spelling: the command is
/// normalized to a registry key first. Returns the key beside the
/// result.
pub fn parse_command_records_keyed(platform: &str, command: &str, output_text: &str) -> (r: (
    String,
    Result<Vec<Record>, ParseError>,
))
    ensures
        ({
            let g = parse_command_spec(platform@, command@, output_text@);
            r.0@ == g.key && (match r.1 {
                Ok(recs) => g.res == GParsed::Recs(records_view(recs@)),
                Err(e) => g.res == GParsed::Fail(perr_view(e)),
            })
        }),
{
    if platform.is_empty() {
        return (String::new(), Err(ParseError::InvalidInput("platform")));
    }
    let normalized = crate::registry::normalize_command(command);
    if normalized.as_str().is_empty() {
        return (String::new(), Err(ParseError::InvalidInput("command")));
    }
    if output_text.is_empty() {
        return (String::new(), Err(ParseError::InvalidInput("output_text")));
    }
    let (key, found) = lookup_command(platform, command);
    let entry = match found {
        None => {
            let kc = key.clone();
            return (
                key,
                Err(
                    ParseError::TemplateNotFound {
                        platform: String::from_str(platform),
                        command_key: kc,
                    },
                ),
            );
        },
        Some(e) => e,
    };
    let tpl = match load_template_text(&entry) {
        None => {
            let kc = key.clone();
            return (
                key,
                Err(
                    ParseError::TemplateNotFound {
                        platform: String::from_str(platform),
                        command_key: kc,
                    },
                ),
            );
        },
        Some(t) => t,
    };
    match parse_text(tpl.as_str(), output_text) {
        Err(e) => (key, Err(e)),
        Ok(recs) => {
            let out = crate::normalize::normalize(key.as_str(), recs);
            (key, Ok(out))
        },
    }
}

/// Parses raw CLI output addressed by a raw command spelling.
pub fn parse_command_records(platform: &str, command: &str, output_text: &str) -> (r: Result<
    Vec<Record>,
    ParseError,
>)
    ensures
        ({
            let g = parse_command_spec(platform@, command@, output_text@);
            match r {
                Ok(recs) => g.res == GParsed::Recs(records_view(recs@)),
                Err(e) => g.res == GParsed::Fail(perr_view(e)),
            }
        }),
{
    let (_, res) = parse_command_records_keyed(platform, command, output_text);
    res
}

/// What the JSON interface returns, as one string.
pub open spec fn parse_json_spec(p: Seq<char>, k: Seq<char>, o: Seq<char>) -> Seq<char> {
    match parse_records_spec(p, k, o) {
        GParsed::Recs(recs) => success_env_spec("platform"@, p, k, recs),
        GParsed::Fail(e) => error_env_spec(code_spec(e), message_spec(e)),
    }
}

pub open spec fn parse_command_json_spec(p: Seq<char>, c: Seq<char>, o: Seq<char>) -> Seq<char> {
    let g = parse_command_spec(p, c, o);
    match g.res {
        GParsed::Recs(recs) => success_env_spec("platform"@, p, g.key, recs),
        GParsed::Fail(e) => error_env_spec(code_spec(e), message_spec(e)),
    }
}

/// Parses and shapes the result into a JSON envelope: on success
/// `{"ok":true,"platform":...,"commandKey":...,"records":[...]}`, on
/// failure `{"ok":false,"error":{"code":...,"message":...}}`.
pub fn parse_json(platform: &str, command_key: &str, output_text: &str) -> (r: String)
    ensures
        r@ == parse_json_spec(platform@, command_key@, output_text@),
{
    match parse_records(platform, command_key, output_text) {
        Ok(recs) => success_envelope("platform", platform, command_key, &recs),
        Err(e) => {
            let msg = e.message();
            error_envelope(e.code(), msg.as_str())
        },
    }
}

/// The JSON envelope interface for a raw command spelling; the
/// envelope carries the resolved command key.
pub fn parse_command_json(platform: &str, command: &str, output_text: &str) -> (r: String)
    ensures
        r@ == parse_command_json_spec(platform@, command@, output_text@),
{
    let (key, res) = parse_command_records_keyed(platform, command, output_text);
    match res {
        Ok(recs) => success_envelope("platform", platform, key.as_str(), &recs),
        Err(e) => {
            let msg = e.message();
            error_envelope(e.code(), msg.as_str())
        },
    }
}

} // verus!
