//! Free-form JSON carried inside payloads (task payloads, operator command
//! arguments, inference results, log fields, resource samples).
use vstd::prelude::*;

verus! {

/// A JSON value.  Numbers are kept as their JSON text (e.g. `"50.0"`,
/// `"-3"`), so that no precision is lost and no floating point is needed;
/// object members keep their order.
#[derive(Debug, PartialEq)]
pub enum JsonValue {
    Null,
    Bool(bool),
    Number(String),
    String(String),
    Array(Vec<JsonValue>),
    Object(Vec<(String, JsonValue)>),
}

/// `a` and `b` are the same JSON value: the same variant, the same text,
/// and element by element (member by member, keys included) the same
/// nested values.
pub open spec fn same_value(a: JsonValue, b: JsonValue) -> bool
    decreases a,
{
    match (a, b) {
        (JsonValue::Null, JsonValue::Null) => true,
        (JsonValue::Bool(x), JsonValue::Bool(y)) => x == y,
        (JsonValue::Number(x), JsonValue::Number(y)) => x@ == y@,
        (JsonValue::String(x), JsonValue::String(y)) => x@ == y@,
        (JsonValue::Array(xs), JsonValue::Array(ys)) => {
            &&& xs@.len() == ys@.len()
            &&& forall|i: int|
                0 <= i < xs@.len() ==> #[trigger] same_value(xs@[i], ys@[i])
        },
        (JsonValue::Object(xs), JsonValue::Object(ys)) => {
            &&& xs@.len() == ys@.len()
            &&& forall|i: int|
                0 <= i < xs@.len() ==> xs@[i].0@ == ys@[i].0@ && #[trigger] same_value(
                    xs@[i].1,
                    ys@[i].1,
                )
        },
        _ => false,
    }
}

/// A deep copy of `v`.
#[verifier::loop_isolation(false)]
fn copy_value(v: &JsonValue) -> (r: JsonValue)
    ensures
        same_value(r, *v),
    decreases v,
{
    match v {
        JsonValue::Null => JsonValue::Null,
        JsonValue::Bool(b) => JsonValue::Bool(*b),
        JsonValue::Number(n) => JsonValue::Number(n.clone()),
        JsonValue::String(t) => JsonValue::String(t.clone()),
        JsonValue::Array(items) => {
            let mut out: Vec<JsonValue> = Vec::new();
            for i in 0..items.len()
                invariant
                    out@.len() == i,
                    forall|j: int| #![trigger out@[j]] 0 <= j < i ==> same_value(out@[j], items@[j]),
            {
                proof {
                    broadcast use vstd::std_specs::vec::axiom_vec_index_decreases;

                    let whole = *v;
                    assert(decreases_to!(whole => whole->Array_0));
                }
                let c = copy_value(&items[i]);
                out.push(c);
            }
            JsonValue::Array(out)
        },
        JsonValue::Object(members) => {
            let mut out: Vec<(String, JsonValue)> = Vec::new();
            for i in 0..members.len()
                invariant
                    out@.len() == i,
                    forall|j: int|
                        #![trigger out@[j]]
                        0 <= j < i ==> out@[j].0@ == members@[j].0@ && same_value(
                            out@[j].1,
                            members@[j].1,
                        ),
            {
                let key = members[i].0.clone();
                proof {
                    broadcast use vstd::std_specs::vec::axiom_vec_index_decreases;

                    let whole = *v;
                    assert(decreases_to!(whole => whole->Object_0));
                }
                let value = copy_value(&members[i].1);
                out.push((key, value));
            }
            JsonValue::Object(out)
        },
    }
}

impl Clone for JsonValue {
    /// A deep copy: the same JSON value.
    fn clone(&self) -> (r: Self)
        ensures
            same_value(r, *self),
    {
        copy_value(self)
    }
}

impl JsonValue {
    /// Whether the value is JSON `null`.
    pub fn is_null(&self) -> (b: bool)
        ensures
            b == (*self is Null),
    {
        match self {
            JsonValue::Null => true,
            _ => false,
        }
    }
}

} // verus!
