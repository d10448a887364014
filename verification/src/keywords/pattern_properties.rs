use vstd::prelude::*;
use crate::context::CompilationContext;
use crate::error::{
    errors_view, lemma_errors_view_concat, lemma_errors_view_from, CompileError, ErrorV,
    ValidationError,
};
use crate::model::{
    compile_entries, compile_pattern_properties_spec, entry_errs_from, errs_of, pattern_errs_from,
    vals_errs_from, ValidatorV,
};
use crate::patterns::{compiles_pattern, key_matches, pattern_matches};
use crate::validator::{
    entries_view_from, lemma_entries_view_from, lemma_validators_view_from,
    matches_keyword_result, matches_node_result, validators_view_from, JsonSchema, Validator,
    Validators,
};
use crate::value::{json_view, lemma_members_view_from, members_view_from, Json};

verus! {

broadcast use vstd::std_specs::vec::group_vec_axioms;

/// The `patternProperties` keyword: ordered (pattern, compiled sub-schema)
/// pairs, re-applied to every member value whose key a pattern matches.
/// Each pattern is kept as its text; compilation checks that the pattern
/// compiler accepts it, and matching hands the text back to the pattern
/// engine, whose answer is a function of pattern and key alone.
pub struct PatternPropertiesValidator {
    pub patterns: Vec<(String, Validators)>,
}

impl PatternPropertiesValidator {
    /// The keyword value must be an object mapping pattern strings to
    /// schemas; a pattern the pattern compiler rejects, or a non-object
    /// value, is a compile error.
    #[verifier::loop_isolation(false)]
    pub fn compile(properties: &Json, context: &CompilationContext) -> (r: Result<
        Validator,
        CompileError,
    >)
        ensures
            matches_node_result(r, compile_pattern_properties_spec(json_view(*properties))),
        decreases *properties, 2int,
    {
        match properties {
            Json::Obj(map) => {
                proof {
                    lemma_members_view_from(*map, 0);
                }
                let ghost ev = members_view_from(*map, 0);
                let child = context.in_child("patternProperties");
                let mut patterns: Vec<(String, Validators)> = Vec::new();
                let mut i: usize = 0;
                while i < map.len()
                    invariant
                        i <= map@.len(),
                        ({
                            let rest = compile_entries(ev, i as int);
                            let total = compile_entries(ev, 0);
                            match rest {
                                Ok(t) => total == Ok::<
                                    Seq<(Seq<char>, Seq<ValidatorV>)>,
                                    CompileError,
                                >(entries_view_from(patterns, 0) + t),
                                Err(e) => total == Err::<
                                    Seq<(Seq<char>, Seq<ValidatorV>)>,
                                    CompileError,
                                >(e),
                            }
                        }),
                    decreases map@.len() - i,
                {
                    let entry = &map[i];
                    proof {
                        assert(ev[i as int] == (map@[i as int].0@, json_view(map@[i as int].1)));
                    }
                    if !compiles_pattern(entry.0.as_str()) {
                        return Err(CompileError::InvalidRegex);
                    }
                    proof {
                        assert(decreases_to!(*properties => *map));
                        assert(decreases_to!(*map => map@[i as int]));
                        assert(decreases_to!(map@[i as int] => map@[i as int].1));
                    }
                    match crate::validator::compile_validators(&entry.1, &child) {
                        Ok(vs) => {
                            let ghost old_patterns = patterns;
                            let ghost vsv = validators_view_from(vs, 0);
                            let name = entry.0.clone();
                            patterns.push((name, vs));
                            proof {
                                lemma_entries_view_from(old_patterns, 0);
                                lemma_entries_view_from(patterns, 0);
                                assert(entries_view_from(patterns, 0) =~= entries_view_from(
                                    old_patterns,
                                    0,
                                ) + seq![(map@[i as int].0@, vsv)]);
                                if compile_entries(ev, i as int + 1) is Ok {
                                    let t = compile_entries(ev, i as int + 1)->Ok_0;
                                    assert(entries_view_from(old_patterns, 0) + (seq![
                                        (map@[i as int].0@, vsv),
                                    ] + t) =~= entries_view_from(patterns, 0) + t);
                                }
                            }
                        },
                        Err(e) => {
                            return Err(e);
                        },
                    }
                    i += 1;
                }
                proof {
                    if compile_entries(ev, 0) is Ok {
                        assert(entries_view_from(patterns, 0) + Seq::<
                            (Seq<char>, Seq<ValidatorV>),
                        >::empty() =~= entries_view_from(patterns, 0));
                    }
                }
                Ok(Validator::PatternProperties(PatternPropertiesValidator { patterns }))
            },
            _ => Err(CompileError::SchemaError),
        }
    }

    /// Applies only to objects; any other instance passes trivially. Every
    /// pair is run against every member whose key its pattern matches, and
    /// all resulting errors are collected — a key matching several patterns
    /// is validated once per matching pattern.
    #[verifier::loop_isolation(false)]
    pub fn validate(&self, schema: &JsonSchema, instance: &Json) -> (r: Vec<ValidationError>)
        ensures
            errors_view(r@) == errs_of(
                ValidatorV::PatternProperties(entries_view_from(self.patterns, 0)),
                json_view(*instance),
            ),
        decreases *self, 2int,
    {
        match instance {
            Json::Obj(members) => {
                proof {
                    lemma_entries_view_from(self.patterns, 0);
                    lemma_members_view_from(*members, 0);
                }
                let ghost pv = entries_view_from(self.patterns, 0);
                let ghost mv = members_view_from(*members, 0);
                let ghost total = pattern_errs_from(pv, mv, 0);
                let mut errors: Vec<ValidationError> = Vec::new();
                proof {
                    lemma_errors_view_from(errors@, 0);
                    assert(errors_view(errors@) + pattern_errs_from(pv, mv, 0) =~= pattern_errs_from(
                        pv,
                        mv,
                        0,
                    ));
                }
                let mut i: usize = 0;
                while i < self.patterns.len()
                    invariant
                        i <= self.patterns@.len(),
                        errors_view(errors@) + pattern_errs_from(pv, mv, i as int) == total,
                    decreases self.patterns@.len() - i,
                {
                    let entry = &self.patterns[i];
                    let ghost pat = self.patterns@[i as int].0@;
                    let ghost bvs = validators_view_from(self.patterns@[i as int].1, 0);
                    proof {
                        assert(pv[i as int] == (pat, bvs));
                        lemma_validators_view_from(self.patterns@[i as int].1, 0);
                        assert((errors_view(errors@) + entry_errs_from(pat, bvs, mv, 0))
                            + pattern_errs_from(pv, mv, i as int + 1) =~= errors_view(errors@) + (
                        entry_errs_from(pat, bvs, mv, 0) + pattern_errs_from(pv, mv, i as int + 1)));
                    }
                    let mut j: usize = 0;
                    while j < members.len()
                        invariant
                            j <= members@.len(),
                            i < self.patterns@.len(),
                            (errors_view(errors@) + entry_errs_from(pat, bvs, mv, j as int))
                                + pattern_errs_from(pv, mv, i as int + 1) == total,
                        decreases members@.len() - j,
                    {
                        let m = &members[j];
                        let ghost key = mv[j as int].0;
                        let ghost valv = mv[j as int].1;
                        proof {
                            assert(mv[j as int] == (members@[j as int].0@, json_view(
                                members@[j as int].1,
                            )));
                        }
                        let matched = pattern_matches(entry.0.as_str(), m.0.as_str());
                        proof {
                            assert(matched == key_matches(pat, key));
                        }
                        if matched {
                            proof {
                                assert(((errors_view(errors@) + vals_errs_from(bvs, valv, 0))
                                    + entry_errs_from(pat, bvs, mv, j as int + 1))
                                    + pattern_errs_from(pv, mv, i as int + 1) =~= (errors_view(
                                    errors@,
                                ) + (vals_errs_from(bvs, valv, 0) + entry_errs_from(
                                    pat,
                                    bvs,
                                    mv,
                                    j as int + 1,
                                ))) + pattern_errs_from(pv, mv, i as int + 1));
                            }
                            let mut k: usize = 0;
                            while k < entry.1.len()
                                invariant
                                    k <= entry.1@.len(),
                                    i < self.patterns@.len(),
                                    j < members@.len(),
                                    ((errors_view(errors@) + vals_errs_from(bvs, valv, k as int))
                                        + entry_errs_from(pat, bvs, mv, j as int + 1))
                                        + pattern_errs_from(pv, mv, i as int + 1) == total,
                                decreases entry.1@.len() - k,
                            {
                                proof {
                                    let ghost pi = self.patterns@[i as int];
                                    assert(decreases_to!(*self => self.patterns));
                                    assert(decreases_to!(self.patterns => pi));
                                    assert(decreases_to!(pi => pi.1));
                                    assert(decreases_to!(pi.1 => pi.1@[k as int]));
                                }
                                let node = &entry.1[k];
                                let mut es = node.validate(schema, &m.1);
                                let ghost old_errors = errors@;
                                let ghost esv = es@;
                                errors.append(&mut es);
                                proof {
                                    lemma_errors_view_concat(old_errors, esv);
                                    assert(bvs[k as int] == validator_view_at(self, i as int, k as int));
                                    assert(((errors_view(old_errors) + errors_view(esv))
                                        + vals_errs_from(bvs, valv, k as int + 1)) =~= (errors_view(
                                        old_errors,
                                    ) + (errors_view(esv) + vals_errs_from(
                                        bvs,
                                        valv,
                                        k as int + 1,
                                    ))));
                                }
                                k += 1;
                            }
                            proof {
                                assert(errors_view(errors@) + vals_errs_from(
                                    bvs,
                                    valv,
                                    entry.1@.len() as int,
                                ) =~= errors_view(errors@));
                            }
                        } else {
                            proof {
                                assert(Seq::<ErrorV>::empty() + entry_errs_from(
                                    pat,
                                    bvs,
                                    mv,
                                    j as int + 1,
                                ) =~= entry_errs_from(pat, bvs, mv, j as int + 1));
                            }
                        }
                        j += 1;
                    }
                    proof {
                        assert(entry_errs_from(pat, bvs, mv, members@.len() as int)
                            =~= Seq::<ErrorV>::empty());
                        assert(errors_view(errors@) + Seq::<ErrorV>::empty() =~= errors_view(
                            errors@,
                        ));
                    }
                    i += 1;
                }
                proof {
                    assert(errors_view(errors@) + Seq::<ErrorV>::empty() =~= errors_view(errors@));
                }
                errors
            },
            _ => crate::error::no_error(),
        }
    }

    pub fn name(&self) -> (s: String)
        ensures
            s@ == "<pattern properties>"@,
    {
        "<pattern properties>".to_owned()
    }
}

/// The node stored for pair `i`, position `k` — a helper for the proofs above.
spec fn validator_view_at(p: &PatternPropertiesValidator, i: int, k: int) -> ValidatorV {
    crate::validator::validator_view(p.patterns@[i].1@[k])
}

/// The table entry for `patternProperties`.
pub(crate) fn compile(
    _map: &Vec<(String, Json)>,
    schema: &Json,
    context: &CompilationContext,
) -> (r: Option<Result<Validator, CompileError>>)
    ensures
        matches_keyword_result(
            r,
            Some(compile_pattern_properties_spec(json_view(*schema))),
        ),
    decreases *schema, 3int,
{
    Some(PatternPropertiesValidator::compile(schema, context))
}

} // verus!
