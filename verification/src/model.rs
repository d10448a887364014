use vstd::prelude::*;
use crate::checks::{format_ok, FormatName};
use crate::error::{CompileError, ErrorKind, ErrorV};
use crate::patterns::{key_matches, pattern_compiles};
use crate::value::{type_of, JsonType, JsonV};

verus! {

/// The mathematical shape of a compiled validator node: one variant per
/// recognized keyword.
pub enum ValidatorV {
    /// Ordered branches, each an ordered sequence of nodes.
    AnyOf(Seq<Seq<ValidatorV>>),
    /// Ordered (pattern, nodes) pairs.
    PatternProperties(Seq<(Seq<char>, Seq<ValidatorV>)>),
    /// A leaf predicate on strings.
    Format(FormatName),
    /// A class of values.
    HasType(JsonType),
    /// An upper bound on numbers.
    Maximum(i64),
}

/// The error stream a node produces for an instance. An empty stream means
/// the instance satisfies the node.
pub open spec fn errs_of(v: ValidatorV, inst: JsonV) -> Seq<ErrorV>
    decreases v, 2int, 0int,
{
    match v {
        ValidatorV::AnyOf(branches) => if some_branch_accepts(branches, inst) {
            Seq::empty()
        } else {
            seq![ErrorV { kind: ErrorKind::AnyOf, instance: inst }]
        },
        ValidatorV::PatternProperties(entries) => match inst {
            JsonV::Obj(members) => pattern_errs_from(entries, members, 0),
            _ => Seq::empty(),
        },
        ValidatorV::Format(f) => match inst {
            JsonV::Str(s) => if format_ok(f, s) {
                Seq::empty()
            } else {
                seq![ErrorV { kind: ErrorKind::BadFormat(f), instance: inst }]
            },
            _ => Seq::empty(),
        },
        ValidatorV::HasType(t) => if type_of(inst) == t {
            Seq::empty()
        } else {
            seq![ErrorV { kind: ErrorKind::WrongType(t), instance: inst }]
        },
        ValidatorV::Maximum(m) => match inst {
            JsonV::Num(n) => if n <= m {
                Seq::empty()
            } else {
                seq![ErrorV { kind: ErrorKind::OverMaximum(m), instance: inst }]
            },
            _ => Seq::empty(),
        },
    }
}

/// Some branch accepts the instance.
pub open spec fn some_branch_accepts(branches: Seq<Seq<ValidatorV>>, inst: JsonV) -> bool
    decreases branches, 1int, 0int,
{
    exists|k: int| 0 <= k < branches.len() && branch_accepts(#[trigger] branches[k], inst)
}

/// Every node of the branch accepts the instance.
pub open spec fn branch_accepts(vs: Seq<ValidatorV>, inst: JsonV) -> bool
    decreases vs, 0int, 0int,
{
    forall|j: int| 0 <= j < vs.len() ==> errs_of(#[trigger] vs[j], inst).len() == 0
}

/// All errors of all entries from `i` on, over all matching keys.
pub open spec fn pattern_errs_from(
    entries: Seq<(Seq<char>, Seq<ValidatorV>)>,
    members: Seq<(Seq<char>, JsonV)>,
    i: int,
) -> Seq<ErrorV>
    decreases entries, 1int, entries.len() - i,
{
    if i < 0 || i >= entries.len() {
        Seq::empty()
    } else {
        entry_errs_from(entries[i].0, entries[i].1, members, 0) + pattern_errs_from(
            entries,
            members,
            i + 1,
        )
    }
}

/// The errors one (pattern, nodes) pair produces over the members from `j` on.
pub open spec fn entry_errs_from(
    pat: Seq<char>,
    vs: Seq<ValidatorV>,
    members: Seq<(Seq<char>, JsonV)>,
    j: int,
) -> Seq<ErrorV>
    decreases vs, 1int, members.len() - j,
{
    if j < 0 || j >= members.len() {
        Seq::empty()
    } else {
        (if key_matches(pat, members[j].0) {
            vals_errs_from(vs, members[j].1, 0)
        } else {
            Seq::empty()
        }) + entry_errs_from(pat, vs, members, j + 1)
    }
}

/// The concatenated errors of the nodes from `k` on, run against `inst`.
pub open spec fn vals_errs_from(vs: Seq<ValidatorV>, inst: JsonV, k: int) -> Seq<ErrorV>
    decreases vs, 0int, vs.len() - k,
{
    if k < 0 || k >= vs.len() {
        Seq::empty()
    } else {
        errs_of(vs[k], inst) + vals_errs_from(vs, inst, k + 1)
    }
}

/// What compiling a whole schema fragment yields: one node per recognized
/// keyword present, in member order, or the first compile error met.
pub open spec fn compile_spec(schema: JsonV) -> Result<Seq<ValidatorV>, CompileError>
    decreases schema, 3int, 0int,
{
    match schema {
        JsonV::Obj(members) => compile_members(members, 0),
        _ => Err(CompileError::SchemaError),
    }
}

pub open spec fn compile_members(members: Seq<(Seq<char>, JsonV)>, i: int) -> Result<
    Seq<ValidatorV>,
    CompileError,
>
    decreases members, 2int, members.len() - i,
{
    if i < 0 || i >= members.len() {
        Ok(Seq::empty())
    } else {
        match compile_keyword(members[i].0, members[i].1) {
            Option::None => compile_members(members, i + 1),
            Option::Some(Result::Err(e)) => Err(e),
            Option::Some(Result::Ok(v)) => match compile_members(members, i + 1) {
                Ok(vs) => Ok(seq![v] + vs),
                Err(e) => Err(e),
            },
        }
    }
}

/// The keyword compiler table: what the compiler registered under `kw` makes
/// of the keyword value, `None` both for unrecognized keywords and where the
/// keyword's own compiler declines.
pub open spec fn compile_keyword(kw: Seq<char>, val: JsonV) -> Option<
    Result<ValidatorV, CompileError>,
>
    decreases val, 1int, 0int,
{
    if kw == "anyOf"@ {
        Some(compile_any_of_spec(val))
    } else if kw == "patternProperties"@ {
        Some(compile_pattern_properties_spec(val))
    } else if kw == "format"@ {
        compile_format_spec(val)
    } else if kw == "type"@ {
        Some(compile_type_spec(val))
    } else if kw == "maximum"@ {
        Some(compile_maximum_spec(val))
    } else {
        None
    }
}

/// `anyOf`: the value must be a sequence of schemas; each element compiles
/// into one branch.
pub open spec fn compile_any_of_spec(val: JsonV) -> Result<ValidatorV, CompileError>
    decreases val, 0int, 0int,
{
    match val {
        JsonV::Arr(items) => match compile_branches(items, 0) {
            Ok(bs) => Ok(ValidatorV::AnyOf(bs)),
            Err(e) => Err(e),
        },
        _ => Err(CompileError::SchemaError),
    }
}

pub open spec fn compile_branches(items: Seq<JsonV>, i: int) -> Result<
    Seq<Seq<ValidatorV>>,
    CompileError,
>
    decreases items, 2int, items.len() - i,
{
    if i < 0 || i >= items.len() {
        Ok(Seq::empty())
    } else {
        match compile_spec(items[i]) {
            Ok(vs) => match compile_branches(items, i + 1) {
                Ok(rest) => Ok(seq![vs] + rest),
                Err(e) => Err(e),
            },
            Err(e) => Err(e),
        }
    }
}

/// `patternProperties`: the value must be an object; each member maps a
/// pattern (which must compile) to a schema.
pub open spec fn compile_pattern_properties_spec(val: JsonV) -> Result<ValidatorV, CompileError>
    decreases val, 0int, 0int,
{
    match val {
        JsonV::Obj(entries) => match compile_entries(entries, 0) {
            Ok(ps) => Ok(ValidatorV::PatternProperties(ps)),
            Err(e) => Err(e),
        },
        _ => Err(CompileError::SchemaError),
    }
}

pub open spec fn compile_entries(entries: Seq<(Seq<char>, JsonV)>, i: int) -> Result<
    Seq<(Seq<char>, Seq<ValidatorV>)>,
    CompileError,
>
    decreases entries, 2int, entries.len() - i,
{
    if i < 0 || i >= entries.len() {
        Ok(Seq::empty())
    } else if !pattern_compiles(entries[i].0) {
        Err(CompileError::InvalidRegex)
    } else {
        match compile_spec(entries[i].1) {
            Ok(vs) => match compile_entries(entries, i + 1) {
                Ok(rest) => Ok(seq![(entries[i].0, vs)] + rest),
                Err(e) => Err(e),
            },
            Err(e) => Err(e),
        }
    }
}

/// The format table: which `FormatName` a format string names, if any.
pub open spec fn spec_format_name(s: Seq<char>) -> Option<FormatName> {
    if s == "date"@ {
        Some(FormatName::Date)
    } else if s == "date-time"@ {
        Some(FormatName::DateTime)
    } else if s == "email"@ {
        Some(FormatName::Email)
    } else if s == "hostname"@ {
        Some(FormatName::Hostname)
    } else if s == "idn-email"@ {
        Some(FormatName::IdnEmail)
    } else if s == "idn-hostname"@ {
        Some(FormatName::IdnHostname)
    } else if s == "ipv4"@ {
        Some(FormatName::Ipv4)
    } else if s == "ipv6"@ {
        Some(FormatName::Ipv6)
    } else if s == "iri"@ {
        Some(FormatName::Iri)
    } else if s == "iri-reference"@ {
        Some(FormatName::IriReference)
    } else if s == "json-pointer"@ {
        Some(FormatName::JsonPointer)
    } else if s == "regex"@ {
        Some(FormatName::Regex)
    } else if s == "relative-json-pointer"@ {
        Some(FormatName::RelativeJsonPointer)
    } else if s == "time"@ {
        Some(FormatName::Time)
    } else if s == "uri"@ {
        Some(FormatName::Uri)
    } else if s == "uri-reference"@ {
        Some(FormatName::UriReference)
    } else if s == "uri-template"@ {
        Some(FormatName::UriTemplate)
    } else {
        None
    }
}

/// `format`: the value must be a string; a known name compiles to a node,
/// an unknown name declines (no node, no error).
pub open spec fn compile_format_spec(val: JsonV) -> Option<Result<ValidatorV, CompileError>> {
    match val {
        JsonV::Str(s) => match spec_format_name(s) {
            Some(f) => Some(Ok(ValidatorV::Format(f))),
            None => None,
        },
        _ => Some(Err(CompileError::SchemaError)),
    }
}

/// The class a type string names, if any.
pub open spec fn spec_type_name(s: Seq<char>) -> Option<JsonType> {
    if s == "null"@ {
        Some(JsonType::Null)
    } else if s == "boolean"@ {
        Some(JsonType::Boolean)
    } else if s == "number"@ {
        Some(JsonType::Number)
    } else if s == "string"@ {
        Some(JsonType::Str)
    } else if s == "array"@ {
        Some(JsonType::Array)
    } else if s == "object"@ {
        Some(JsonType::Object)
    } else {
        None
    }
}

/// `type`: the value must be a string naming a class.
pub open spec fn compile_type_spec(val: JsonV) -> Result<ValidatorV, CompileError> {
    match val {
        JsonV::Str(s) => match spec_type_name(s) {
            Some(t) => Ok(ValidatorV::HasType(t)),
            None => Err(CompileError::SchemaError),
        },
        _ => Err(CompileError::SchemaError),
    }
}

/// `maximum`: the value must be a number.
pub open spec fn compile_maximum_spec(val: JsonV) -> Result<ValidatorV, CompileError> {
    match val {
        JsonV::Num(n) => Ok(ValidatorV::Maximum(n)),
        _ => Err(CompileError::SchemaError),
    }
}

} // verus!
