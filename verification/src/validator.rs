use vstd::prelude::*;
use crate::context::CompilationContext;
use crate::error::{
    errors_view, lemma_errors_view_from, CompileError, ValidationError,
};
use crate::keywords::any_of::{self, AnyOfValidator};
use crate::keywords::format::FormatValidator;
use crate::keywords::maximum::{self, MaximumValidator};
use crate::keywords::pattern_properties::{self, PatternPropertiesValidator};
use crate::keywords::type_::{self, TypeValidator};
use crate::model::{
    compile_keyword, compile_members, compile_spec, errs_of, vals_errs_from, ValidatorV,
};
use crate::value::{json_view, lemma_members_view_from, members_view_from, str_eq, Json};

verus! {

broadcast use vstd::std_specs::vec::group_vec_axioms;

/// One compiled keyword validator: the unit of composition. Immutable once
/// built; validating mutates nothing.
pub enum Validator {
    AnyOf(AnyOfValidator),
    PatternProperties(PatternPropertiesValidator),
    Format(FormatValidator),
    HasType(TypeValidator),
    Maximum(MaximumValidator),
}

/// An ordered sequence of validators owned by whichever parent compiled it.
pub type Validators = Vec<Validator>;

pub open spec fn validator_view(v: Validator) -> ValidatorV
    decreases v, 3int, 0int,
{
    match v {
        Validator::AnyOf(a) => ValidatorV::AnyOf(branches_view_from(a.schemas, 0)),
        Validator::PatternProperties(p) => ValidatorV::PatternProperties(
            entries_view_from(p.patterns, 0),
        ),
        Validator::Format(f) => ValidatorV::Format(f.format),
        Validator::HasType(t) => ValidatorV::HasType(t.expected),
        Validator::Maximum(m) => ValidatorV::Maximum(m.limit),
    }
}

pub open spec fn validators_view_from(vs: Vec<Validator>, i: int) -> Seq<ValidatorV>
    decreases vs, 4int, vs@.len() - i,
{
    if i < 0 || i >= vs@.len() {
        Seq::empty()
    } else {
        seq![validator_view(vs[i])] + validators_view_from(vs, i + 1)
    }
}

pub open spec fn branches_view_from(bs: Vec<Validators>, i: int) -> Seq<Seq<ValidatorV>>
    decreases bs, 4int, bs@.len() - i,
{
    if i < 0 || i >= bs@.len() {
        Seq::empty()
    } else {
        seq![validators_view_from(bs[i], 0)] + branches_view_from(bs, i + 1)
    }
}

pub open spec fn entries_view_from(ps: Vec<(String, Validators)>, i: int) -> Seq<
    (Seq<char>, Seq<ValidatorV>),
>
    decreases ps, 4int, ps@.len() - i,
{
    if i < 0 || i >= ps@.len() {
        Seq::empty()
    } else {
        seq![(ps[i].0@, validators_view_from(ps[i].1, 0))] + entries_view_from(ps, i + 1)
    }
}

pub open spec fn validators_view(vs: Vec<Validator>) -> Seq<ValidatorV> {
    validators_view_from(vs, 0)
}

pub proof fn lemma_validators_view_from(vs: Vec<Validator>, i: int)
    requires
        0 <= i <= vs@.len(),
    ensures
        validators_view_from(vs, i).len() == vs@.len() - i,
        forall|k: int|
            0 <= k < vs@.len() - i ==> #[trigger] validators_view_from(vs, i)[k] == validator_view(
                vs@[i + k],
            ),
    decreases vs@.len() - i,
{
    if i < vs@.len() {
        lemma_validators_view_from(vs, i + 1);
    }
}

pub proof fn lemma_branches_view_from(bs: Vec<Validators>, i: int)
    requires
        0 <= i <= bs@.len(),
    ensures
        branches_view_from(bs, i).len() == bs@.len() - i,
        forall|k: int|
            0 <= k < bs@.len() - i ==> #[trigger] branches_view_from(bs, i)[k]
                == validators_view_from(bs@[i + k], 0),
    decreases bs@.len() - i,
{
    if i < bs@.len() {
        lemma_branches_view_from(bs, i + 1);
    }
}

pub proof fn lemma_entries_view_from(ps: Vec<(String, Validators)>, i: int)
    requires
        0 <= i <= ps@.len(),
    ensures
        entries_view_from(ps, i).len() == ps@.len() - i,
        forall|k: int|
            0 <= k < ps@.len() - i ==> #[trigger] entries_view_from(ps, i)[k] == (
            ps@[i + k].0@,
            validators_view_from(ps@[i + k].1, 0),
            ),
    decreases ps@.len() - i,
{
    if i < ps@.len() {
        lemma_entries_view_from(ps, i + 1);
    }
}

/// How an executable compilation result reflects the specified one.
pub open spec fn matches_compile_result(
    r: Result<Validators, CompileError>,
    s: Result<Seq<ValidatorV>, CompileError>,
) -> bool {
    match r {
        Ok(vs) => s == Ok::<Seq<ValidatorV>, CompileError>(validators_view(vs)),
        Err(e) => s == Err::<Seq<ValidatorV>, CompileError>(e),
    }
}

pub open spec fn matches_node_result(
    r: Result<Validator, CompileError>,
    s: Result<ValidatorV, CompileError>,
) -> bool {
    match r {
        Ok(v) => s == Ok::<ValidatorV, CompileError>(validator_view(v)),
        Err(e) => s == Err::<ValidatorV, CompileError>(e),
    }
}

pub open spec fn matches_keyword_result(
    r: Option<Result<Validator, CompileError>>,
    s: Option<Result<ValidatorV, CompileError>>,
) -> bool {
    match r {
        Some(rr) => match s {
            Some(ss) => matches_node_result(rr, ss),
            None => false,
        },
        None => s is None,
    }
}

/// Looks a keyword up in the compiler table and runs its compiler.
fn apply_keyword(
    map: &Vec<(String, Json)>,
    kw: &String,
    value: &Json,
    context: &CompilationContext,
) -> (r: Option<Result<Validator, CompileError>>)
    ensures
        matches_keyword_result(r, compile_keyword(kw@, json_view(*value))),
    decreases *value, 4int,
{
    if str_eq(kw.as_str(), "anyOf") {
        any_of::compile(map, value, context)
    } else if str_eq(kw.as_str(), "patternProperties") {
        pattern_properties::compile(map, value, context)
    } else if str_eq(kw.as_str(), "format") {
        crate::keywords::format::compile(map, value, context)
    } else if str_eq(kw.as_str(), "type") {
        type_::compile(map, value, context)
    } else if str_eq(kw.as_str(), "maximum") {
        maximum::compile(map, value, context)
    } else {
        None
    }
}

/// The single recursion point of compilation: one validator per recognized
/// keyword present in the fragment, in member order; the first compile error
/// aborts the whole fragment.
#[verifier::loop_isolation(false)]
pub fn compile_validators(schema: &Json, context: &CompilationContext) -> (r: Result<
    Validators,
    CompileError,
>)
    ensures
        matches_compile_result(r, compile_spec(json_view(*schema))),
    decreases *schema, 5int,
{
    match schema {
        Json::Obj(members) => {
            proof {
                lemma_members_view_from(*members, 0);
            }
            let ghost mv = members_view_from(*members, 0);
            let mut out: Validators = Vec::new();
            let mut i: usize = 0;
            while i < members.len()
                invariant
                    i <= members@.len(),
                    ({
                        let rest = compile_members(mv, i as int);
                        let total = compile_members(mv, 0);
                        match rest {
                            Ok(t) => total == Ok::<Seq<ValidatorV>, CompileError>(
                                validators_view_from(out, 0) + t,
                            ),
                            Err(e) => total == Err::<Seq<ValidatorV>, CompileError>(e),
                        }
                    }),
                decreases members@.len() - i,
            {
                let entry = &members[i];
                proof {
                    assert(decreases_to!(*schema => *members));
                    assert(decreases_to!(*members => members@[i as int]));
                    assert(decreases_to!(members@[i as int] => members@[i as int].1));
                    assert(mv[i as int] == (members@[i as int].0@, json_view(
                        members@[i as int].1,
                    )));
                }
                let compiled = apply_keyword(members, &entry.0, &entry.1, context);
                match compiled {
                    Some(res) => match res {
                        Ok(v) => {
                            let ghost old_out = out;
                            out.push(v);
                            proof {
                                lemma_validators_view_from(old_out, 0);
                                lemma_validators_view_from(out, 0);
                                assert(validators_view_from(out, 0) =~= validators_view_from(
                                    old_out,
                                    0,
                                ) + seq![validator_view(v)]);
                                if compile_members(mv, i as int + 1) is Ok {
                                    let t = compile_members(mv, i as int + 1)->Ok_0;
                                    assert(validators_view_from(old_out, 0) + (seq![
                                        validator_view(v),
                                    ] + t) =~= validators_view_from(out, 0) + t);
                                }
                            }
                        },
                        Err(e) => {
                            return Err(e);
                        },
                    },
                    None => {},
                }
                i += 1;
            }
            proof {
                if compile_members(mv, 0) is Ok {
                    assert(validators_view_from(out, 0) + Seq::<ValidatorV>::empty()
                        =~= validators_view_from(out, 0));
                }
            }
            Ok(out)
        },
        _ => Err(CompileError::SchemaError),
    }
}

impl Validator {
    /// Runs this node against the instance; an empty result means the
    /// instance satisfies the node. `schema` is the compiled root, handed
    /// down so combinators can re-enter the full validator set.
    pub fn validate(&self, schema: &JsonSchema, instance: &Json) -> (r: Vec<ValidationError>)
        ensures
            errors_view(r@) == errs_of(validator_view(*self), json_view(*instance)),
        decreases *self, 3int,
    {
        match self {
            Validator::AnyOf(a) => a.validate(schema, instance),
            Validator::PatternProperties(p) => p.validate(schema, instance),
            Validator::Format(f) => f.validate(schema, instance),
            Validator::HasType(t) => t.validate(schema, instance),
            Validator::Maximum(m) => m.validate(schema, instance),
        }
    }

    /// Whether the instance satisfies this node.
    pub fn is_valid(&self, schema: &JsonSchema, instance: &Json) -> (r: bool)
        ensures
            r == (errs_of(validator_view(*self), json_view(*instance)).len() == 0),
        decreases *self, 4int,
    {
        let errs = self.validate(schema, instance);
        proof {
            lemma_errors_view_from(errs@, 0);
        }
        errs.len() == 0
    }

    /// A human-readable rendering of the node, for tooling.
    pub fn name(&self) -> (s: String)
        ensures
            s@ == validator_label(validator_view(*self)),
    {
        match self {
            Validator::AnyOf(a) => a.name(),
            Validator::PatternProperties(p) => p.name(),
            Validator::Format(f) => f.name(),
            Validator::HasType(t) => t.name(),
            Validator::Maximum(m) => m.name(),
        }
    }
}

/// The diagnostic label of a node.
pub open spec fn validator_label(v: ValidatorV) -> Seq<char> {
    match v {
        ValidatorV::AnyOf(_) => "<any of>"@,
        ValidatorV::PatternProperties(_) => "<pattern properties>"@,
        ValidatorV::Format(f) => crate::checks::format_label(f),
        ValidatorV::HasType(_) => "<type>"@,
        ValidatorV::Maximum(_) => "<maximum>"@,
    }
}

/// A compiled schema document: the ordered validators of its root fragment.
pub struct JsonSchema {
    pub validators: Validators,
}

impl JsonSchema {
    /// The compile entry point: turns a schema document into a validator
    /// tree, or reports the first compile error met.
    pub fn compile(schema: &Json) -> (r: Result<JsonSchema, CompileError>)
        ensures
            ({
                match r {
                    Ok(js) => compile_spec(json_view(*schema)) == Ok::<
                        Seq<ValidatorV>,
                        CompileError,
                    >(validators_view(js.validators)),
                    Err(e) => compile_spec(json_view(*schema)) == Err::<
                        Seq<ValidatorV>,
                        CompileError,
                    >(e),
                }
            }),
    {
        let context = CompilationContext::new();
        match compile_validators(schema, &context) {
            Ok(vs) => Ok(JsonSchema { validators: vs }),
            Err(e) => Err(e),
        }
    }

    /// The validate entry point: every violation of every root validator,
    /// in order.
    #[verifier::loop_isolation(false)]
    pub fn validate(&self, instance: &Json) -> (r: Vec<ValidationError>)
        ensures
            errors_view(r@) == vals_errs_from(
                validators_view(self.validators),
                json_view(*instance),
                0,
            ),
    {
        proof {
            lemma_validators_view_from(self.validators, 0);
        }
        let ghost vsv = validators_view_from(self.validators, 0);
        let ghost instv = json_view(*instance);
        let mut errors: Vec<ValidationError> = Vec::new();
        proof {
            lemma_errors_view_from(errors@, 0);
            assert(errors_view(errors@) + vals_errs_from(vsv, instv, 0) =~= vals_errs_from(
                vsv,
                instv,
                0,
            ));
        }
        let mut i: usize = 0;
        while i < self.validators.len()
            invariant
                i <= self.validators@.len(),
                errors_view(errors@) + vals_errs_from(vsv, instv, i as int) == vals_errs_from(
                    vsv,
                    instv,
                    0,
                ),
            decreases self.validators@.len() - i,
        {
            let v = &self.validators[i];
            let mut es = v.validate(self, instance);
            let ghost old_errors = errors@;
            let ghost esv = es@;
            errors.append(&mut es);
            proof {
                crate::error::lemma_errors_view_concat(old_errors, esv);
                assert(vsv[i as int] == validator_view(self.validators@[i as int]));
                assert((errors_view(old_errors) + errors_view(esv)) + vals_errs_from(
                    vsv,
                    instv,
                    i as int + 1,
                ) =~= errors_view(old_errors) + (errors_view(esv) + vals_errs_from(
                    vsv,
                    instv,
                    i as int + 1,
                )));
            }
            i += 1;
        }
        proof {
            assert(errors_view(errors@) + Seq::<crate::error::ErrorV>::empty() =~= errors_view(
                errors@,
            ));
        }
        errors
    }

    /// Whether the instance satisfies the whole compiled schema.
    pub fn is_valid(&self, instance: &Json) -> (r: bool)
        ensures
            r == (vals_errs_from(validators_view(self.validators), json_view(*instance), 0).len()
                == 0),
    {
        let errs = self.validate(instance);
        proof {
            lemma_errors_view_from(errs@, 0);
        }
        errs.len() == 0
    }
}

} // verus!
