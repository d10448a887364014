use vstd::prelude::*;
use crate::context::CompilationContext;
use crate::error::{errors_view, single_error, CompileError, ErrorKind, ValidationError};
use crate::model::{compile_type_spec, errs_of, spec_type_name, ValidatorV};
use crate::validator::{matches_keyword_result, matches_node_result, JsonSchema, Validator};
use crate::value::{clone_json, json_view, str_eq, type_of, Json, JsonType};

verus! {

/// The `type` keyword: the instance must belong to the named class.
pub struct TypeValidator {
    pub expected: JsonType,
}

impl TypeValidator {
    /// The keyword value must be a string naming a class.
    pub fn compile(schema: &Json) -> (r: Result<Validator, CompileError>)
        ensures
            matches_node_result(r, compile_type_spec(json_view(*schema))),
    {
        match schema {
            Json::Str(s) => match type_name_of(s.as_str()) {
                Some(t) => Ok(Validator::HasType(TypeValidator { expected: t })),
                None => Err(CompileError::SchemaError),
            },
            _ => Err(CompileError::SchemaError),
        }
    }

    pub fn validate(&self, _schema: &JsonSchema, instance: &Json) -> (r: Vec<ValidationError>)
        ensures
            errors_view(r@) == errs_of(ValidatorV::HasType(self.expected), json_view(*instance)),
    {
        if value_has_type(self.expected, instance) {
            crate::error::no_error()
        } else {
            single_error(ErrorKind::WrongType(self.expected), clone_json(instance))
        }
    }

    pub fn name(&self) -> (s: String)
        ensures
            s@ == "<type>"@,
    {
        "<type>".to_owned()
    }
}

/// Whether the instance belongs to the class.
fn value_has_type(t: JsonType, instance: &Json) -> (r: bool)
    ensures
        r == (type_of(json_view(*instance)) == t),
{
    match instance {
        Json::Null => t == JsonType::Null,
        Json::Bool(_) => t == JsonType::Boolean,
        Json::Num(_) => t == JsonType::Number,
        Json::Str(_) => t == JsonType::Str,
        Json::Arr(_) => t == JsonType::Array,
        Json::Obj(_) => t == JsonType::Object,
    }
}

/// The class a type string names, if any.
fn type_name_of(s: &str) -> (r: Option<JsonType>)
    ensures
        r == spec_type_name(s@),
{
    if str_eq(s, "null") {
        Some(JsonType::Null)
    } else if str_eq(s, "boolean") {
        Some(JsonType::Boolean)
    } else if str_eq(s, "number") {
        Some(JsonType::Number)
    } else if str_eq(s, "string") {
        Some(JsonType::Str)
    } else if str_eq(s, "array") {
        Some(JsonType::Array)
    } else if str_eq(s, "object") {
        Some(JsonType::Object)
    } else {
        None
    }
}

/// The table entry for `type`.
pub(crate) fn compile(
    _map: &Vec<(String, Json)>,
    schema: &Json,
    _context: &CompilationContext,
) -> (r: Option<Result<Validator, CompileError>>)
    ensures
        matches_keyword_result(r, Some(compile_type_spec(json_view(*schema)))),
{
    Some(TypeValidator::compile(schema))
}

} // verus!
