use vstd::prelude::*;
use crate::context::CompilationContext;
use crate::error::{errors_view, CompileError, ValidationError};
use crate::model::{
    branch_accepts, compile_any_of_spec, compile_branches, errs_of, some_branch_accepts,
    ValidatorV,
};
use crate::validator::{
    branches_view_from, lemma_branches_view_from, lemma_validators_view_from,
    matches_keyword_result, matches_node_result, validators_view_from, JsonSchema, Validator,
    Validators,
};
use crate::value::{arr_view_from, clone_json, json_view, lemma_arr_view_from, Json};

verus! {

broadcast use vstd::std_specs::vec::group_vec_axioms;

/// The `anyOf` combinator: an ordered list of alternative branches, each a
/// compiled sub-schema.
pub struct AnyOfValidator {
    pub schemas: Vec<Validators>,
}

impl AnyOfValidator {
    /// The keyword value must be a sequence of schemas; each element is
    /// compiled recursively into one branch.
    #[verifier::loop_isolation(false)]
    pub fn compile(schema: &Json, context: &CompilationContext) -> (r: Result<
        Validator,
        CompileError,
    >)
        ensures
            matches_node_result(r, compile_any_of_spec(json_view(*schema))),
        decreases *schema, 2int,
    {
        match schema {
            Json::Arr(items) => {
                proof {
                    lemma_arr_view_from(*items, 0);
                }
                let ghost iv = arr_view_from(*items, 0);
                let child = context.in_child("anyOf");
                let mut schemas: Vec<Validators> = Vec::new();
                let mut i: usize = 0;
                while i < items.len()
                    invariant
                        i <= items@.len(),
                        ({
                            let rest = compile_branches(iv, i as int);
                            let total = compile_branches(iv, 0);
                            match rest {
                                Ok(t) => total == Ok::<Seq<Seq<ValidatorV>>, CompileError>(
                                    branches_view_from(schemas, 0) + t,
                                ),
                                Err(e) => total == Err::<Seq<Seq<ValidatorV>>, CompileError>(e),
                            }
                        }),
                    decreases items@.len() - i,
                {
                    proof {
                        assert(decreases_to!(*schema => *items));
                        assert(decreases_to!(*items => items@[i as int]));
                        assert(iv[i as int] == json_view(items@[i as int]));
                    }
                    match crate::validator::compile_validators(&items[i], &child) {
                        Ok(vs) => {
                            let ghost old_schemas = schemas;
                            let ghost vsv = validators_view_from(vs, 0);
                            schemas.push(vs);
                            proof {
                                lemma_branches_view_from(old_schemas, 0);
                                lemma_branches_view_from(schemas, 0);
                                assert(branches_view_from(schemas, 0) =~= branches_view_from(
                                    old_schemas,
                                    0,
                                ) + seq![vsv]);
                                if compile_branches(iv, i as int + 1) is Ok {
                                    let t = compile_branches(iv, i as int + 1)->Ok_0;
                                    assert(branches_view_from(old_schemas, 0) + (seq![vsv] + t)
                                        =~= branches_view_from(schemas, 0) + t);
                                }
                            }
                        },
                        Err(e) => {
                            return Err(e);
                        },
                    }
                    i += 1;
                }
                proof {
                    if compile_branches(iv, 0) is Ok {
                        assert(branches_view_from(schemas, 0) + Seq::<Seq<ValidatorV>>::empty()
                            =~= branches_view_from(schemas, 0));
                    }
                }
                Ok(Validator::AnyOf(AnyOfValidator { schemas }))
            },
            _ => Err(CompileError::SchemaError),
        }
    }

    /// Checks the branches in order and succeeds at the first whose nodes
    /// all accept; later branches are then never evaluated. When no branch
    /// accepts, reports exactly one violation, at the combinator's own
    /// granularity.
    #[verifier::loop_isolation(false)]
    pub fn validate(&self, schema: &JsonSchema, instance: &Json) -> (r: Vec<ValidationError>)
        ensures
            errors_view(r@) == errs_of(
                ValidatorV::AnyOf(branches_view_from(self.schemas, 0)),
                json_view(*instance),
            ),
        decreases *self, 2int,
    {
        proof {
            lemma_branches_view_from(self.schemas, 0);
        }
        let ghost bv = branches_view_from(self.schemas, 0);
        let ghost instv = json_view(*instance);
        let mut i: usize = 0;
        while i < self.schemas.len()
            invariant
                i <= self.schemas@.len(),
                forall|t: int| 0 <= t < i ==> !branch_accepts(#[trigger] bv[t], instv),
            decreases self.schemas@.len() - i,
        {
            proof {
                assert(decreases_to!(*self => self.schemas));
                assert(decreases_to!(self.schemas => self.schemas@[i as int]));
            }
            if all_valid(&self.schemas[i], schema, instance) {
                proof {
                    assert(bv[i as int] == validators_view_from(self.schemas@[i as int], 0));
                    assert(some_branch_accepts(bv, instv));
                }
                return crate::error::no_error();
            }
            i += 1;
        }
        proof {
            assert(!some_branch_accepts(bv, instv));
        }
        ValidationError::any_of(clone_json(instance))
    }

    pub fn name(&self) -> (s: String)
        ensures
            s@ == "<any of>"@,
    {
        "<any of>".to_owned()
    }
}

/// Whether every node of one branch accepts the instance, stopping at the
/// first that rejects.
#[verifier::loop_isolation(false)]
fn all_valid(validators: &Validators, schema: &JsonSchema, instance: &Json) -> (r: bool)
    ensures
        r == branch_accepts(validators_view_from(*validators, 0), json_view(*instance)),
    decreases *validators, 5int,
{
    proof {
        lemma_validators_view_from(*validators, 0);
    }
    let ghost vsv = validators_view_from(*validators, 0);
    let ghost instv = json_view(*instance);
    let mut k: usize = 0;
    while k < validators.len()
        invariant
            k <= validators@.len(),
            forall|t: int| 0 <= t < k ==> errs_of(#[trigger] vsv[t], instv).len() == 0,
        decreases validators@.len() - k,
    {
        proof {
            assert(decreases_to!(*validators => validators@[k as int]));
        }
        if !validators[k].is_valid(schema, instance) {
            proof {
                assert(errs_of(vsv[k as int], instv).len() != 0);
            }
            return false;
        }
        k += 1;
    }
    true
}

/// The table entry for `anyOf`.
pub(crate) fn compile(
    _map: &Vec<(String, Json)>,
    schema: &Json,
    context: &CompilationContext,
) -> (r: Option<Result<Validator, CompileError>>)
    ensures
        matches_keyword_result(r, Some(compile_any_of_spec(json_view(*schema)))),
    decreases *schema, 3int,
{
    Some(AnyOfValidator::compile(schema, context))
}

} // verus!
