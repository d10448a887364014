use vstd::prelude::*;

verus! {

broadcast use vstd::std_specs::vec::group_vec_axioms;

/// A tree-shaped data value. Both schema documents and the instances checked
/// against them are values of this type. Object members keep their insertion
/// order; numbers are 64-bit integers.
pub enum Json {
    Null,
    Bool(bool),
    Num(i64),
    Str(String),
    Arr(Vec<Json>),
    Obj(Vec<(String, Json)>),
}

/// The mathematical shape of a `Json` value, used by every contract.
pub enum JsonV {
    Null,
    Bool(bool),
    Num(i64),
    Str(Seq<char>),
    Arr(Seq<JsonV>),
    Obj(Seq<(Seq<char>, JsonV)>),
}

/// The classes a value can belong to, as named by a schema's `type` keyword.
#[derive(Clone, Copy, PartialEq, Eq, Structural, Debug)]
pub enum JsonType {
    Null,
    Boolean,
    Number,
    Str,
    Array,
    Object,
}

/// The class of a value.
pub open spec fn type_of(v: JsonV) -> JsonType {
    match v {
        JsonV::Null => JsonType::Null,
        JsonV::Bool(_) => JsonType::Boolean,
        JsonV::Num(_) => JsonType::Number,
        JsonV::Str(_) => JsonType::Str,
        JsonV::Arr(_) => JsonType::Array,
        JsonV::Obj(_) => JsonType::Object,
    }
}

pub open spec fn json_view(j: Json) -> JsonV
    decreases j, 0int, 0int,
{
    match j {
        Json::Null => JsonV::Null,
        Json::Bool(b) => JsonV::Bool(b),
        Json::Num(n) => JsonV::Num(n),
        Json::Str(s) => JsonV::Str(s@),
        Json::Arr(items) => JsonV::Arr(arr_view_from(items, 0)),
        Json::Obj(members) => JsonV::Obj(members_view_from(members, 0)),
    }
}

pub open spec fn arr_view_from(items: Vec<Json>, i: int) -> Seq<JsonV>
    decreases items, 1int, items@.len() - i,
{
    if i < 0 || i >= items@.len() {
        Seq::empty()
    } else {
        seq![json_view(items[i])] + arr_view_from(items, i + 1)
    }
}

pub open spec fn members_view_from(members: Vec<(String, Json)>, i: int) -> Seq<(Seq<char>, JsonV)>
    decreases members, 1int, members@.len() - i,
{
    if i < 0 || i >= members@.len() {
        Seq::empty()
    } else {
        seq![(members[i].0@, json_view(members[i].1))] + members_view_from(members, i + 1)
    }
}

pub proof fn lemma_arr_view_from(items: Vec<Json>, i: int)
    requires
        0 <= i <= items@.len(),
    ensures
        arr_view_from(items, i).len() == items@.len() - i,
        forall|k: int|
            0 <= k < items@.len() - i ==> #[trigger] arr_view_from(items, i)[k] == json_view(
                items@[i + k],
            ),
    decreases items@.len() - i,
{
    if i < items@.len() {
        lemma_arr_view_from(items, i + 1);
    }
}

pub proof fn lemma_members_view_from(members: Vec<(String, Json)>, i: int)
    requires
        0 <= i <= members@.len(),
    ensures
        members_view_from(members, i).len() == members@.len() - i,
        forall|k: int|
            0 <= k < members@.len() - i ==> #[trigger] members_view_from(members, i)[k] == (
            members@[i + k].0@,
            json_view(members@[i + k].1),
            ),
    decreases members@.len() - i,
{
    if i < members@.len() {
        lemma_members_view_from(members, i + 1);
    }
}

/// A deep copy: the copy has the same shape as the original.
#[verifier::loop_isolation(false)]
pub fn clone_json(j: &Json) -> (r: Json)
    ensures
        json_view(r) == json_view(*j),
    decreases *j,
{
    match j {
        Json::Null => Json::Null,
        Json::Bool(b) => Json::Bool(*b),
        Json::Num(n) => Json::Num(*n),
        Json::Str(s) => Json::Str(s.clone()),
        Json::Arr(items) => {
            let mut out: Vec<Json> = Vec::new();
            let mut k: usize = 0;
            while k < items.len()
                invariant
                    k <= items@.len(),
                    out@.len() == k,
                    forall|t: int| 0 <= t < k ==> json_view(out@[t]) == json_view(items@[t]),
                    *j == Json::Arr(*items),
                decreases items@.len() - k,
            {
                proof {
                    assert(decreases_to!(*j => *items));
                    assert(decreases_to!(*items => items@[k as int]));
                }
                let c = clone_json(&items[k]);
                out.push(c);
                k += 1;
            }
            proof {
                lemma_arr_view_from(out, 0);
                lemma_arr_view_from(*items, 0);
                assert forall|t: int| 0 <= t < items@.len() implies arr_view_from(out, 0)[t]
                    == arr_view_from(*items, 0)[t] by {
                    assert(arr_view_from(out, 0)[t] == json_view(out@[0 + t]));
                    assert(arr_view_from(*items, 0)[t] == json_view(items@[0 + t]));
                }
                assert(arr_view_from(out, 0) =~= arr_view_from(*items, 0));
            }
            Json::Arr(out)
        },
        Json::Obj(members) => {
            let mut out: Vec<(String, Json)> = Vec::new();
            let mut k: usize = 0;
            while k < members.len()
                invariant
                    k <= members@.len(),
                    out@.len() == k,
                    forall|t: int|
                        0 <= t < k ==> out@[t].0@ == members@[t].0@ && json_view(out@[t].1)
                            == json_view(members@[t].1),
                    *j == Json::Obj(*members),
                decreases members@.len() - k,
            {
                let entry = &members[k];
                let name = entry.0.clone();
                proof {
                    assert(decreases_to!(*j => *members));
                    assert(decreases_to!(*members => members@[k as int]));
                    assert(decreases_to!(members@[k as int] => members@[k as int].1));
                }
                let val = clone_json(&entry.1);
                out.push((name, val));
                k += 1;
            }
            proof {
                lemma_members_view_from(out, 0);
                lemma_members_view_from(*members, 0);
                assert forall|t: int| 0 <= t < members@.len() implies members_view_from(out, 0)[t]
                    == members_view_from(*members, 0)[t] by {
                    assert(members_view_from(out, 0)[t] == (out@[0 + t].0@, json_view(
                        out@[0 + t].1,
                    )));
                    assert(members_view_from(*members, 0)[t] == (members@[0 + t].0@, json_view(
                        members@[0 + t].1,
                    )));
                }
                assert(members_view_from(out, 0) =~= members_view_from(*members, 0));
            }
            Json::Obj(out)
        },
    }
}

/// Structural equality of two values.
#[verifier::loop_isolation(false)]
pub fn json_eq(a: &Json, b: &Json) -> (r: bool)
    ensures
        r == (json_view(*a) == json_view(*b)),
    decreases *a,
{
    match a {
        Json::Null => match b {
            Json::Null => true,
            _ => false,
        },
        Json::Bool(x) => match b {
            Json::Bool(y) => x == y,
            _ => false,
        },
        Json::Num(x) => match b {
            Json::Num(y) => x == y,
            _ => false,
        },
        Json::Str(x) => match b {
            Json::Str(y) => *x == *y,
            _ => false,
        },
        Json::Arr(x) => match b {
            Json::Arr(y) => {
            proof {
                lemma_arr_view_from(*x, 0);
                lemma_arr_view_from(*y, 0);
            }
            if x.len() != y.len() {
                return false;
            }
            let mut k: usize = 0;
            while k < x.len()
                invariant
                    x@.len() == y@.len(),
                    k <= x@.len(),
                    *a == Json::Arr(*x),
                    *b == Json::Arr(*y),
                    arr_view_from(*x, 0).len() == x@.len(),
                    arr_view_from(*y, 0).len() == y@.len(),
                    forall|t: int|
                        0 <= t < x@.len() ==> #[trigger] arr_view_from(*x, 0)[t] == json_view(
                            x@[0 + t],
                        ),
                    forall|t: int|
                        0 <= t < y@.len() ==> #[trigger] arr_view_from(*y, 0)[t] == json_view(
                            y@[0 + t],
                        ),
                    forall|t: int| 0 <= t < k ==> json_view(x@[t]) == json_view(y@[t]),
                decreases x@.len() - k,
            {
                proof {
                    assert(decreases_to!(*x => x@[k as int]));
                }
                if !json_eq(&x[k], &y[k]) {
                    proof {
                        assert(arr_view_from(*x, 0)[k as int] == json_view(x@[0 + k as int]));
                        assert(arr_view_from(*y, 0)[k as int] == json_view(y@[0 + k as int]));
                        assert(arr_view_from(*x, 0) != arr_view_from(*y, 0));
                    }
                    return false;
                }
                k += 1;
            }
            proof {
                assert forall|t: int| 0 <= t < x@.len() implies arr_view_from(*x, 0)[t]
                    == arr_view_from(*y, 0)[t] by {
                    assert(arr_view_from(*x, 0)[t] == json_view(x@[0 + t]));
                    assert(arr_view_from(*y, 0)[t] == json_view(y@[0 + t]));
                }
                assert(arr_view_from(*x, 0) =~= arr_view_from(*y, 0));
            }
            true
            },
            _ => false,
        },
        Json::Obj(x) => match b {
            Json::Obj(y) => {
            proof {
                lemma_members_view_from(*x, 0);
                lemma_members_view_from(*y, 0);
            }
            if x.len() != y.len() {
                return false;
            }
            let mut k: usize = 0;
            while k < x.len()
                invariant
                    x@.len() == y@.len(),
                    k <= x@.len(),
                    *a == Json::Obj(*x),
                    *b == Json::Obj(*y),
                    members_view_from(*x, 0).len() == x@.len(),
                    members_view_from(*y, 0).len() == y@.len(),
                    forall|t: int|
                        0 <= t < x@.len() ==> #[trigger] members_view_from(*x, 0)[t] == (
                        x@[0 + t].0@,
                        json_view(x@[0 + t].1),
                        ),
                    forall|t: int|
                        0 <= t < y@.len() ==> #[trigger] members_view_from(*y, 0)[t] == (
                        y@[0 + t].0@,
                        json_view(y@[0 + t].1),
                        ),
                    forall|t: int|
                        0 <= t < k ==> x@[t].0@ == y@[t].0@ && json_view(x@[t].1) == json_view(
                            y@[t].1,
                        ),
                decreases x@.len() - k,
            {
                let ex = &x[k];
                let ey = &y[k];
                if !(ex.0 == ey.0) {
                    proof {
                        assert(members_view_from(*x, 0)[k as int] == (x@[0 + k as int].0@,
                        json_view(x@[0 + k as int].1)));
                        assert(members_view_from(*y, 0)[k as int] == (y@[0 + k as int].0@,
                        json_view(y@[0 + k as int].1)));
                        assert(members_view_from(*x, 0) != members_view_from(*y, 0));
                    }
                    return false;
                }
                proof {
                    assert(decreases_to!(*x => x@[k as int]));
                    assert(decreases_to!(x@[k as int] => x@[k as int].1));
                }
                if !json_eq(&ex.1, &ey.1) {
                    proof {
                        assert(members_view_from(*x, 0)[k as int] == (x@[0 + k as int].0@,
                        json_view(x@[0 + k as int].1)));
                        assert(members_view_from(*y, 0)[k as int] == (y@[0 + k as int].0@,
                        json_view(y@[0 + k as int].1)));
                        assert(members_view_from(*x, 0) != members_view_from(*y, 0));
                    }
                    return false;
                }
                k += 1;
            }
            proof {
                assert forall|t: int| 0 <= t < x@.len() implies members_view_from(*x, 0)[t]
                    == members_view_from(*y, 0)[t] by {
                    assert(members_view_from(*x, 0)[t] == (x@[0 + t].0@, json_view(x@[0 + t].1)));
                    assert(members_view_from(*y, 0)[t] == (y@[0 + t].0@, json_view(y@[0 + t].1)));
                }
                assert(members_view_from(*x, 0) =~= members_view_from(*y, 0));
            }
            true
            },
            _ => false,
        },
    }
}

/// Compares a string slice against another for character equality.
pub(crate) fn str_eq(a: &str, b: &str) -> (r: bool)
    ensures
        r == (a@ == b@),
{
    let aa: String = a.to_owned();
    let bb: String = b.to_owned();
    aa == bb
}

} // verus!
