use vstd::prelude::*;
use crate::checks::{format_ok, FormatName};
use crate::error::{CompileError, ErrorKind, ErrorV};
use crate::model::{
    branch_accepts, compile_any_of_spec, compile_format_spec, compile_keyword, compile_members,
    compile_pattern_properties_spec, compile_spec, errs_of, some_branch_accepts,
    spec_format_name, vals_errs_from, ValidatorV,
};
use crate::value::JsonV;

verus! {

/// An `anyOf` node succeeds as soon as any one branch accepts: if branch
/// `k` accepts the instance, the node's error stream is empty, whatever the
/// other branches would say.
pub proof fn lemma_any_of_branch_accepts(branches: Seq<Seq<ValidatorV>>, k: int, inst: JsonV)
    requires
        0 <= k < branches.len(),
        branch_accepts(branches[k], inst),
    ensures
        errs_of(ValidatorV::AnyOf(branches), inst) == Seq::<ErrorV>::empty(),
{
    assert(some_branch_accepts(branches, inst));
}

/// When no branch accepts, an `anyOf` node reports exactly one violation,
/// at the combinator's own granularity, carrying the rejected instance.
pub proof fn lemma_any_of_total_failure(branches: Seq<Seq<ValidatorV>>, inst: JsonV)
    requires
        forall|k: int| 0 <= k < branches.len() ==> !branch_accepts(#[trigger] branches[k], inst),
    ensures
        errs_of(ValidatorV::AnyOf(branches), inst) == seq![
            (ErrorV { kind: ErrorKind::AnyOf, instance: inst }),
        ],
{
    assert(!some_branch_accepts(branches, inst));
}

/// A branch with no nodes accepts vacuously, so an `anyOf` holding an
/// empty schema fragment as one of its branches accepts every instance.
pub proof fn lemma_any_of_vacuous_branch(branches: Seq<Seq<ValidatorV>>, k: int, inst: JsonV)
    requires
        0 <= k < branches.len(),
        branches[k].len() == 0,
    ensures
        errs_of(ValidatorV::AnyOf(branches), inst) == Seq::<ErrorV>::empty(),
{
    assert(branch_accepts(branches[k], inst));
    lemma_any_of_branch_accepts(branches, k, inst);
}

/// An empty schema fragment compiles to an empty validator sequence, which
/// every instance satisfies.
pub proof fn lemma_empty_fragment(inst: JsonV)
    ensures
        compile_spec(JsonV::Obj(Seq::empty())) == Ok::<Seq<ValidatorV>, CompileError>(
            Seq::empty(),
        ),
        vals_errs_from(Seq::empty(), inst, 0) == Seq::<ErrorV>::empty(),
{
}

/// `patternProperties` constrains mappings only: any non-object instance
/// passes with no errors, whatever the patterns say.
pub proof fn lemma_pattern_properties_non_object(
    entries: Seq<(Seq<char>, Seq<ValidatorV>)>,
    inst: JsonV,
)
    requires
        !(inst is Obj),
    ensures
        errs_of(ValidatorV::PatternProperties(entries), inst) == Seq::<ErrorV>::empty(),
{
}

/// `format` constrains strings only: any non-string instance passes with
/// no errors, whatever the predicate would say.
pub proof fn lemma_format_type_gate(f: FormatName, inst: JsonV)
    requires
        !(inst is Str),
    ensures
        errs_of(ValidatorV::Format(f), inst) == Seq::<ErrorV>::empty(),
{
}

/// For a string instance, a `format` node rejects exactly when its named
/// predicate rejects the string.
pub proof fn lemma_format_checks_predicate(f: FormatName, s: Seq<char>)
    ensures
        (errs_of(ValidatorV::Format(f), JsonV::Str(s)).len() == 0) <==> format_ok(f, s),
{
}

/// Compiling `format` with an unknown name declines — no node and no error —
/// so a fragment whose only keyword is such a `format` compiles to an empty
/// validator sequence, as if the keyword were absent.
pub proof fn lemma_format_unknown_name(name: Seq<char>)
    requires
        spec_format_name(name) is None,
    ensures
        compile_format_spec(JsonV::Str(name)) is None,
        compile_spec(JsonV::Obj(seq![("format"@, JsonV::Str(name))])) == Ok::<
            Seq<ValidatorV>,
            CompileError,
        >(Seq::empty()),
{
    reveal_strlit("format");
    reveal_strlit("anyOf");
    reveal_strlit("patternProperties");
    assert("format"@.len() == 6);
    assert("anyOf"@.len() == 5);
    assert("patternProperties"@.len() == 17);
    assert("format"@ != "anyOf"@);
    assert("format"@ != "patternProperties"@);
    let members = seq![("format"@, JsonV::Str(name))];
    assert(compile_keyword(members[0].0, members[0].1) is None);
    assert(compile_members(members, 1) == Ok::<Seq<ValidatorV>, CompileError>(Seq::empty()));
}

/// Compilation and validation are functions of the schema and instance
/// shapes alone: compiling equal fragments yields equal validator
/// sequences, and equal validator sequences produce identical error
/// streams on every instance — the round trip is deterministic.
pub proof fn lemma_round_trip_deterministic(s1: JsonV, s2: JsonV, inst: JsonV)
    requires
        s1 == s2,
    ensures
        compile_spec(s1) == compile_spec(s2),
        compile_spec(s1) is Ok ==> vals_errs_from(compile_spec(s1)->Ok_0, inst, 0)
            == vals_errs_from(compile_spec(s2)->Ok_0, inst, 0),
{
}

/// `anyOf` demands a sequence of schemas: any other keyword value is a
/// schema error.
pub proof fn lemma_any_of_not_array(val: JsonV)
    requires
        !(val is Arr),
    ensures
        compile_any_of_spec(val) == Err::<ValidatorV, CompileError>(CompileError::SchemaError),
{
}

/// `patternProperties` demands an object of patterns: any other keyword
/// value is a schema error.
pub proof fn lemma_pattern_properties_not_object(val: JsonV)
    requires
        !(val is Obj),
    ensures
        compile_pattern_properties_spec(val) == Err::<ValidatorV, CompileError>(
            CompileError::SchemaError,
        ),
{
}

/// A fragment holding a keyword whose compilation fails never compiles:
/// the error aborts the whole fragment, and no partial validator sequence
/// escapes to a caller.
pub proof fn lemma_compile_error_propagates(members: Seq<(Seq<char>, JsonV)>, i: int)
    requires
        0 <= i < members.len(),
        compile_keyword(members[i].0, members[i].1) matches Some(Result::Err(_)),
    ensures
        compile_members(members, 0) is Err,
        compile_spec(JsonV::Obj(members)) is Err,
{
    lemma_compile_error_propagates_from(members, i, 0);
}

proof fn lemma_compile_error_propagates_from(members: Seq<(Seq<char>, JsonV)>, i: int, j: int)
    requires
        0 <= j <= i < members.len(),
        compile_keyword(members[i].0, members[i].1) matches Some(Result::Err(_)),
    ensures
        compile_members(members, j) is Err,
    decreases i - j,
{
    if j < i {
        lemma_compile_error_propagates_from(members, i, j + 1);
    }
}

} // verus!
