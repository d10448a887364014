use vstd::prelude::*;
use crate::checks::{check_format, format_label, FormatName};
use crate::context::CompilationContext;
use crate::error::{errors_view, single_error, CompileError, ErrorKind, ValidationError};
use crate::model::{compile_format_spec, errs_of, spec_format_name, ValidatorV};
use crate::validator::{matches_keyword_result, matches_node_result, JsonSchema, Validator};
use crate::value::{clone_json, json_view, str_eq, Json};

verus! {

/// The `format` keyword: a pluggable leaf predicate on strings. The node
/// keeps the predicate's name for diagnostics.
pub struct FormatValidator {
    pub format: FormatName,
}

impl FormatValidator {
    /// Builds the node for an already looked-up leaf predicate. Never fails.
    pub fn compile(format: FormatName) -> (r: Result<Validator, CompileError>)
        ensures
            matches_node_result(r, Ok(ValidatorV::Format(format))),
    {
        Ok(Validator::Format(FormatValidator { format }))
    }

    /// Applies only to strings; every other instance passes trivially.
    pub fn validate(&self, _schema: &JsonSchema, instance: &Json) -> (r: Vec<ValidationError>)
        ensures
            errors_view(r@) == errs_of(ValidatorV::Format(self.format), json_view(*instance)),
    {
        match instance {
            Json::Str(s) => {
                if check_format(self.format, s.as_str()) {
                    crate::error::no_error()
                } else {
                    single_error(ErrorKind::BadFormat(self.format), clone_json(instance))
                }
            },
            _ => crate::error::no_error(),
        }
    }

    pub fn name(&self) -> (s: String)
        ensures
            s@ == format_label(self.format),
    {
        match self.format {
            FormatName::Date => "<format: date>".to_owned(),
            FormatName::DateTime => "<format: date-time>".to_owned(),
            FormatName::Email => "<format: email>".to_owned(),
            FormatName::Hostname => "<format: hostname>".to_owned(),
            FormatName::IdnEmail => "<format: idn-email>".to_owned(),
            FormatName::IdnHostname => "<format: idn-hostname>".to_owned(),
            FormatName::Ipv4 => "<format: ipv4>".to_owned(),
            FormatName::Ipv6 => "<format: ipv6>".to_owned(),
            FormatName::Iri => "<format: iri>".to_owned(),
            FormatName::IriReference => "<format: iri-reference>".to_owned(),
            FormatName::JsonPointer => "<format: json-pointer>".to_owned(),
            FormatName::Regex => "<format: regex>".to_owned(),
            FormatName::RelativeJsonPointer => "<format: relative-json-pointer>".to_owned(),
            FormatName::Time => "<format: time>".to_owned(),
            FormatName::Uri => "<format: uri>".to_owned(),
            FormatName::UriReference => "<format: uri-reference>".to_owned(),
            FormatName::UriTemplate => "<format: uri-template>".to_owned(),
        }
    }
}

/// Which predicate a format string names, if this build knows it.
fn format_name_of(s: &str) -> (r: Option<FormatName>)
    ensures
        r == spec_format_name(s@),
{
    if str_eq(s, "date") {
        Some(FormatName::Date)
    } else if str_eq(s, "date-time") {
        Some(FormatName::DateTime)
    } else if str_eq(s, "email") {
        Some(FormatName::Email)
    } else if str_eq(s, "hostname") {
        Some(FormatName::Hostname)
    } else if str_eq(s, "idn-email") {
        Some(FormatName::IdnEmail)
    } else if str_eq(s, "idn-hostname") {
        Some(FormatName::IdnHostname)
    } else if str_eq(s, "ipv4") {
        Some(FormatName::Ipv4)
    } else if str_eq(s, "ipv6") {
        Some(FormatName::Ipv6)
    } else if str_eq(s, "iri") {
        Some(FormatName::Iri)
    } else if str_eq(s, "iri-reference") {
        Some(FormatName::IriReference)
    } else if str_eq(s, "json-pointer") {
        Some(FormatName::JsonPointer)
    } else if str_eq(s, "regex") {
        Some(FormatName::Regex)
    } else if str_eq(s, "relative-json-pointer") {
        Some(FormatName::RelativeJsonPointer)
    } else if str_eq(s, "time") {
        Some(FormatName::Time)
    } else if str_eq(s, "uri") {
        Some(FormatName::Uri)
    } else if str_eq(s, "uri-reference") {
        Some(FormatName::UriReference)
    } else if str_eq(s, "uri-template") {
        Some(FormatName::UriTemplate)
    } else {
        None
    }
}

/// The table entry for `format`: a non-string value is a schema error; an
/// unknown name declines, which is not an error.
pub(crate) fn compile(
    _map: &Vec<(String, Json)>,
    schema: &Json,
    _context: &CompilationContext,
) -> (r: Option<Result<Validator, CompileError>>)
    ensures
        matches_keyword_result(r, compile_format_spec(json_view(*schema))),
{
    match schema {
        Json::Str(s) => match format_name_of(s.as_str()) {
            Some(f) => Some(FormatValidator::compile(f)),
            None => None,
        },
        _ => Some(Err(CompileError::SchemaError)),
    }
}

} // verus!
