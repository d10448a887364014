use vstd::prelude::*;
use crate::context::CompilationContext;
use crate::error::{errors_view, single_error, CompileError, ErrorKind, ValidationError};
use crate::model::{compile_maximum_spec, errs_of, ValidatorV};
use crate::validator::{matches_keyword_result, matches_node_result, JsonSchema, Validator};
use crate::value::{clone_json, json_view, Json};

verus! {

/// The `maximum` keyword: numbers must not exceed the bound.
pub struct MaximumValidator {
    pub limit: i64,
}

impl MaximumValidator {
    /// The keyword value must be a number.
    pub fn compile(schema: &Json) -> (r: Result<Validator, CompileError>)
        ensures
            matches_node_result(r, compile_maximum_spec(json_view(*schema))),
    {
        match schema {
            Json::Num(n) => Ok(Validator::Maximum(MaximumValidator { limit: *n })),
            _ => Err(CompileError::SchemaError),
        }
    }

    /// Applies only to numbers; every other instance passes trivially.
    pub fn validate(&self, _schema: &JsonSchema, instance: &Json) -> (r: Vec<ValidationError>)
        ensures
            errors_view(r@) == errs_of(ValidatorV::Maximum(self.limit), json_view(*instance)),
    {
        match instance {
            Json::Num(v) => {
                if *v <= self.limit {
                    crate::error::no_error()
                } else {
                    single_error(ErrorKind::OverMaximum(self.limit), clone_json(instance))
                }
            },
            _ => crate::error::no_error(),
        }
    }

    pub fn name(&self) -> (s: String)
        ensures
            s@ == "<maximum>"@,
    {
        "<maximum>".to_owned()
    }
}

/// The table entry for `maximum`.
pub(crate) fn compile(
    _map: &Vec<(String, Json)>,
    schema: &Json,
    _context: &CompilationContext,
) -> (r: Option<Result<Validator, CompileError>>)
    ensures
        matches_keyword_result(r, Some(compile_maximum_spec(json_view(*schema)))),
{
    Some(MaximumValidator::compile(schema))
}

} // verus!
