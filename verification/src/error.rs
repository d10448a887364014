use vstd::prelude::*;
use crate::checks::FormatName;
use crate::value::{json_view, Json, JsonType, JsonV};

verus! {

/// A schema that is malformed relative to a keyword's required shape. Fatal
/// to the compilation call that meets it; never produced at validation time.
#[derive(Clone, Copy, PartialEq, Eq, Structural, Debug)]
pub enum CompileError {
    /// A keyword value of the wrong shape.
    SchemaError,
    /// A pattern string that the pattern compiler rejects.
    InvalidRegex,
}

/// What a validation error complains about.
#[derive(Clone, Copy, PartialEq, Eq, Structural, Debug)]
pub enum ErrorKind {
    /// The instance matched none of the alternatives of an `anyOf`.
    AnyOf,
    /// The instance is not of the named class.
    WrongType(JsonType),
    /// The instance exceeds the stated bound.
    OverMaximum(i64),
    /// The instance fails the named leaf predicate.
    BadFormat(FormatName),
}

/// One data-level violation. It carries a deep copy of the offending
/// instance fragment, so it never outlives the value it describes.
pub struct ValidationError {
    pub kind: ErrorKind,
    pub instance: Json,
}

/// The mathematical shape of a violation.
pub struct ErrorV {
    pub kind: ErrorKind,
    pub instance: JsonV,
}

pub open spec fn error_view(e: ValidationError) -> ErrorV {
    ErrorV { kind: e.kind, instance: json_view(e.instance) }
}

pub open spec fn errors_view_from(s: Seq<ValidationError>, i: int) -> Seq<ErrorV>
    decreases s.len() - i,
{
    if i < 0 || i >= s.len() {
        Seq::empty()
    } else {
        seq![error_view(s[i])] + errors_view_from(s, i + 1)
    }
}

pub open spec fn errors_view(s: Seq<ValidationError>) -> Seq<ErrorV> {
    errors_view_from(s, 0)
}

pub proof fn lemma_errors_view_from(s: Seq<ValidationError>, i: int)
    requires
        0 <= i <= s.len(),
    ensures
        errors_view_from(s, i).len() == s.len() - i,
        forall|k: int|
            0 <= k < s.len() - i ==> #[trigger] errors_view_from(s, i)[k] == error_view(s[i + k]),
    decreases s.len() - i,
{
    if i < s.len() {
        lemma_errors_view_from(s, i + 1);
    }
}

/// Concatenating error sequences concatenates their views.
pub proof fn lemma_errors_view_concat(a: Seq<ValidationError>, b: Seq<ValidationError>)
    ensures
        errors_view(a + b) == errors_view(a) + errors_view(b),
{
    lemma_errors_view_from(a, 0);
    lemma_errors_view_from(b, 0);
    lemma_errors_view_from(a + b, 0);
    assert forall|k: int| 0 <= k < a.len() + b.len() implies errors_view(a + b)[k] == (errors_view(
        a,
    ) + errors_view(b))[k] by {
        assert(errors_view_from(a + b, 0)[k] == error_view((a + b)[0 + k]));
        if k < a.len() {
            assert(errors_view_from(a, 0)[k] == error_view(a[0 + k]));
        } else {
            assert(errors_view_from(b, 0)[k - a.len()] == error_view(b[0 + (k - a.len())]));
        }
    }
    assert(errors_view(a + b) =~= errors_view(a) + errors_view(b));
}

/// An empty error stream: the instance satisfied the node.
pub fn no_error() -> (r: Vec<ValidationError>)
    ensures
        errors_view(r@) == Seq::<ErrorV>::empty(),
{
    let r: Vec<ValidationError> = Vec::new();
    proof {
        lemma_errors_view_from(r@, 0);
        assert(errors_view(r@) =~= Seq::<ErrorV>::empty());
    }
    r
}

/// An error stream holding exactly one violation.
pub fn single_error(kind: ErrorKind, instance: Json) -> (r: Vec<ValidationError>)
    ensures
        errors_view(r@) == seq![(ErrorV { kind: kind, instance: json_view(instance) })],
{
    let ghost iv = json_view(instance);
    let mut r: Vec<ValidationError> = Vec::new();
    r.push(ValidationError { kind, instance });
    proof {
        lemma_errors_view_from(r@, 0);
        assert(errors_view(r@) =~= seq![(ErrorV { kind: kind, instance: iv })]);
    }
    r
}

impl ValidationError {
    /// The single combinator-level violation of an `anyOf` node: the
    /// instance matched none of the alternatives.
    pub fn any_of(instance: Json) -> (r: Vec<ValidationError>)
        ensures
            errors_view(r@) == seq![
                ErrorV { kind: ErrorKind::AnyOf, instance: json_view(instance) },
            ],
    {
        let ghost iv = json_view(instance);
        let mut r: Vec<ValidationError> = Vec::new();
        r.push(ValidationError { kind: ErrorKind::AnyOf, instance });
        proof {
            lemma_errors_view_from(r@, 0);
            assert(errors_view(r@) =~= seq![ErrorV { kind: ErrorKind::AnyOf, instance: iv }]);
        }
        r
    }
}

} // verus!
