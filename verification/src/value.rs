//! The dynamically typed value that callers hand in and get back.
//!
//! A [`Value`] is a JSON-like tree. Numbers keep the exact form they were
//! written in: an unsigned integer, a negative integer, or a double held by
//! its IEEE 754 bit pattern, so that the library never computes with
//! floating point.

use vstd::prelude::*;
use crate::text::{lemma_position_of, position_of, same_text};

verus! {

/// A number in its exact form.
#[derive(Debug, Clone, Copy, PartialEq, Eq)]
pub enum Number {
    /// A non-negative integer.
    PosInt(u64),
    /// A negative integer.
    NegInt(i64),
    /// A double, by its IEEE 754 bit pattern.
    Float(u64),
}

/// A JSON-like value.
#[derive(Debug, PartialEq, Eq)]
pub enum Value {
    Null,
    Bool(bool),
    Number(Number),
    String(String),
    Array(Vec<Value>),
    /// Named members, in the order they were given.
    Object(Vec<(String, Value)>),
}

/// The mathematical value that a [`Value`] stands for.
pub enum ValueView {
    Null,
    Bool(bool),
    Number(Number),
    String(Seq<char>),
    Array(Seq<ValueView>),
    Object(Seq<(Seq<char>, ValueView)>),
}

/// Whether the bit pattern `bits` is a finite double: its eleven exponent
/// bits are not all set.
pub open spec fn real_is_finite(bits: u64) -> bool {
    (bits >> 52) & 0x7ff != 0x7ff
}

impl Number {
    /// A negative integer is below zero and a double is finite.
    pub open spec fn wf(self) -> bool {
        match self {
            Number::PosInt(_) => true,
            Number::NegInt(i) => i < 0,
            Number::Float(bits) => real_is_finite(bits),
        }
    }

    /// The number that stands for the integer `i`.
    pub open spec fn of_int(i: i64) -> Number {
        if i < 0 {
            Number::NegInt(i)
        } else {
            Number::PosInt(i as u64)
        }
    }

    /// The number that stands for the integer `i`.
    pub fn from_i64(i: i64) -> (n: Number)
        ensures
            n == Number::of_int(i),
            n.wf(),
    {
        if i < 0 {
            Number::NegInt(i)
        } else {
            Number::PosInt(i as u64)
        }
    }

    /// The number that stands for the double with bit pattern `bits`; `None`
    /// when that double is infinite or not a number.
    pub fn from_real_bits(bits: u64) -> (n: Option<Number>)
        ensures
            n == if real_is_finite(bits) {
                Some(Number::Float(bits))
            } else {
                None
            },
    {
        if (bits >> 52) & 0x7ff != 0x7ff {
            Some(Number::Float(bits))
        } else {
            None
        }
    }
}

impl View for Value {
    type V = ValueView;

    open spec fn view(&self) -> ValueView
        decreases self,
    {
        match self {
            Value::Null => ValueView::Null,
            Value::Bool(b) => ValueView::Bool(*b),
            Value::Number(n) => ValueView::Number(*n),
            Value::String(s) => ValueView::String(s@),
            Value::Array(items) => ValueView::Array(
                Seq::new(
                    items@.len(),
                    |i: int|
                        if 0 <= i < items@.len() {
                            items@[i].view()
                        } else {
                            ValueView::Null
                        },
                ),
            ),
            Value::Object(members) => ValueView::Object(
                Seq::new(
                    members@.len(),
                    |i: int|
                        if 0 <= i < members@.len() {
                            (members@[i].0@, members@[i].1.view())
                        } else {
                            (Seq::empty(), ValueView::Null)
                        },
                ),
            ),
        }
    }
}

/// The views of the members of an object.
pub open spec fn members_view(members: Seq<(String, Value)>) -> Seq<(Seq<char>, ValueView)> {
    members.map_values(|m: (String, Value)| (m.0@, m.1@))
}

/// The names of the members of an object, in order.
pub open spec fn member_names(members: Seq<(Seq<char>, ValueView)>) -> Seq<Seq<char>> {
    members.map_values(|m: (Seq<char>, ValueView)| m.0)
}

/// Whether a member named `name` exists.
pub open spec fn has_member(members: Seq<(Seq<char>, ValueView)>, name: Seq<char>) -> bool {
    member_names(members).contains(name)
}

/// The value of the first member named `name`.
pub open spec fn member(members: Seq<(Seq<char>, ValueView)>, name: Seq<char>) -> Option<
    ValueView,
> {
    let at = position_of(member_names(members), name);
    if at < members.len() {
        Some(members[at].1)
    } else {
        None
    }
}

/// An object's view is the views of its members.
pub proof fn lemma_object_view(members: Vec<(String, Value)>)
    ensures
        Value::Object(members)@ == ValueView::Object(members_view(members@)),
{
    reveal_with_fuel(<Value as View>::view, 2);
    assert(Value::Object(members)@->Object_0 =~= members_view(members@));
}

/// A member exists exactly when looking it up gives a value.
pub proof fn lemma_member_present(members: Seq<(Seq<char>, ValueView)>, name: Seq<char>)
    ensures
        has_member(members, name) <==> member(members, name) is Some,
        member(members, name) is Some ==> {
            let at = position_of(member_names(members), name);
            &&& 0 <= at < members.len()
            &&& members[at].0 == name
        },
{
    lemma_position_of(member_names(members), name);
}

/// No two members bear the same name: the members are a mapping from
/// names to values.
pub open spec fn distinct_names(members: Seq<(Seq<char>, ValueView)>) -> bool {
    forall|i: int, j: int|
        0 <= i < j < members.len() ==> (#[trigger] members[i]).0 != (#[trigger] members[j]).0
}

/// Among members with distinct names, looking a name up gives the value of
/// the one member that bears it.
pub proof fn lemma_member_of_mapping(members: Seq<(Seq<char>, ValueView)>, i: int)
    requires
        distinct_names(members),
        0 <= i < members.len(),
    ensures
        member(members, members[i].0) == Some(members[i].1),
{
    let names = member_names(members);
    lemma_position_of(names, members[i].0);
    let at = position_of(names, members[i].0);
    assert(names[i] == members[i].0);
    assert(at <= i);
    if at < i {
        assert(names[at] == members[at].0);
        assert(members[at].0 != members[i].0);
    }
}

impl ValueView {
    /// Neither an array nor an object.
    pub open spec fn is_scalar(self) -> bool {
        !(self is Array) && !(self is Object)
    }
}

impl Value {
    /// Whether this value is an object.
    pub fn is_object(&self) -> (b: bool)
        ensures
            b == (self@ is Object),
    {
        match self {
            Value::Object(_) => true,
            _ => false,
        }
    }

    /// The members of an object; `None` for any other value.
    pub fn as_object(&self) -> (r: Option<&Vec<(String, Value)>>)
        ensures
            match r {
                Some(members) => self@ == ValueView::Object(members_view(members@)),
                None => !(self@ is Object),
            },
    {
        match self {
            Value::Object(members) => {
                proof {
                    lemma_object_view(*members);
                }
                Some(members)
            },
            _ => None,
        }
    }
}

impl Clone for Value {
    /// A copy that stands for the same value.
    fn clone(&self) -> (copy: Self)
        ensures
            copy@ == self@,
        decreases self,
    {
        match self {
            Value::Null => Value::Null,
            Value::Bool(b) => Value::Bool(*b),
            Value::Number(n) => Value::Number(*n),
            Value::String(s) => Value::String(s.clone()),
            Value::Array(items) => {
                let mut out: Vec<Value> = Vec::new();
                let mut i: usize = 0;
                while i < items.len()
                    invariant
                        i <= items.len(),
                        *self == Value::Array(*items),
                        out@.len() == i,
                        forall|j: int| 0 <= j < i ==> (#[trigger] out@[j])@ == items@[j]@,
                    decreases items.len() - i,
                {
                    assert(self->Array_0 == *items);
                    assert(decreases_to!(*self => self->Array_0));
                    assert(decreases_to!(*items => items[i as int]));
                    let item = &items[i];
                    out.push(item.clone());
                    i += 1;
                }
                proof {
                    reveal_with_fuel(<Value as View>::view, 2);
                    assert(Value::Array(out)@->Array_0 =~= self@->Array_0);
                }
                Value::Array(out)
            },
            Value::Object(members) => {
                let mut out: Vec<(String, Value)> = Vec::new();
                let mut i: usize = 0;
                while i < members.len()
                    invariant
                        i <= members.len(),
                        *self == Value::Object(*members),
                        out@.len() == i,
                        forall|j: int|
                            0 <= j < i ==> (#[trigger] out@[j]).0@ == members@[j].0@ && out@[j].1@
                                == members@[j].1@,
                    decreases members.len() - i,
                {
                    assert(self->Object_0 == *members);
                    assert(decreases_to!(*self => self->Object_0));
                    assert(decreases_to!(*members => members[i as int]));
                    assert(decreases_to!(members[i as int] => members[i as int].1));
                    let member = &members[i];
                    out.push((member.0.clone(), member.1.clone()));
                    i += 1;
                }
                proof {
                    reveal_with_fuel(<Value as View>::view, 2);
                    assert(Value::Object(out)@->Object_0 =~= self@->Object_0);
                }
                Value::Object(out)
            },
        }
    }
}

/// Index of the first member named `name`, if there is one.
pub fn find_member(members: &Vec<(String, Value)>, name: &str) -> (r: Option<usize>)
    ensures
        r is Some <==> has_member(members_view(members@), name@),
        match r {
            Some(at) => at < members@.len() && members@[at as int].0@ == name@ && member(
                members_view(members@),
                name@,
            ) == Some(members@[at as int].1@),
            None => member(members_view(members@), name@) is None,
        },
{
    let ghost names = member_names(members_view(members@));
    let mut i: usize = 0;
    while i < members.len()
        invariant
            i <= members.len(),
            names == member_names(members_view(members@)),
            forall|j: int| 0 <= j < i ==> names[j] != name@,
        decreases members.len() - i,
    {
        if same_text(members[i].0.as_str(), name) {
            proof {
                lemma_position_of(names, name@);
                assert(names[i as int] == name@);
                assert(names.contains(name@));
            }
            return Some(i);
        }
        i += 1;
    }
    proof {
        lemma_position_of(names, name@);
    }
    None
}

} // verus!
