//! Structured values: the tagged union that payloads and effects are made of.

use vstd::prelude::*;

verus! {

/// A number of a structured value.
///
/// A floating-point number is held by the 64 bits of its IEEE 754 encoding, so
/// that it passes through the dispatcher unchanged.
#[derive(Clone, Copy, Debug, PartialEq, Eq, Structural)]
pub enum Number {
    /// A non-negative integer.
    PosInt(u64),
    /// A negative integer.
    NegInt(i64),
    /// A floating-point number, by its bit pattern.
    Float(u64),
}

/// A structured value as the host exchanges it with the plugin.
///
/// An object is an ordered list of members. A lookup by key finds the first
/// member with that key.
#[derive(Debug, PartialEq, Eq)]
pub enum Value {
    Null,
    Bool(bool),
    Number(Number),
    String(String),
    Array(Vec<Value>),
    Object(Vec<(String, Value)>),
}

/// The mathematical value that a [`Value`] stands for.
pub ghost enum SpecValue {
    Null,
    Bool(bool),
    Number(Number),
    String(Seq<char>),
    Array(Seq<SpecValue>),
    Object(Seq<(Seq<char>, SpecValue)>),
}

/// The members of an object, as a sequence of keys and mathematical values.
pub open spec fn members_view(members: Vec<(String, Value)>) -> Seq<(Seq<char>, SpecValue)>
    decreases members,
{
    Seq::new(
        members.len() as nat,
        |i: int|
            if 0 <= i < members.len() {
                (members[i].0@, members[i].1.view())
            } else {
                (Seq::empty(), SpecValue::Null)
            },
    )
}

/// The items of an array, as a sequence of mathematical values.
pub open spec fn items_view(items: Vec<Value>) -> Seq<SpecValue>
    decreases items,
{
    Seq::new(
        items.len() as nat,
        |i: int|
            if 0 <= i < items.len() {
                items[i].view()
            } else {
                SpecValue::Null
            },
    )
}

impl View for Value {
    type V = SpecValue;

    open spec fn view(&self) -> SpecValue
        decreases self,
    {
        match self {
            Value::Null => SpecValue::Null,
            Value::Bool(b) => SpecValue::Bool(*b),
            Value::Number(n) => SpecValue::Number(*n),
            Value::String(s) => SpecValue::String(s@),
            Value::Array(items) => SpecValue::Array(items_view(*items)),
            Value::Object(members) => SpecValue::Object(members_view(*members)),
        }
    }
}

/// The value of the first member of `members` whose key is `key`, if there is one.
pub open spec fn lookup(members: Seq<(Seq<char>, SpecValue)>, key: Seq<char>) -> Option<SpecValue>
    decreases members.len(),
{
    if members.len() == 0 {
        None
    } else if members[0].0 == key {
        Some(members[0].1)
    } else {
        lookup(members.drop_first(), key)
    }
}

/// The mathematical value behind an optional reference.
pub open spec fn view_of(found: Option<&Value>) -> Option<SpecValue> {
    match found {
        Some(v) => Some(v@),
        None => None,
    }
}

/// The text behind an optional string slice.
pub open spec fn text_of(found: Option<&str>) -> Option<Seq<char>> {
    match found {
        Some(s) => Some(s@),
        None => None,
    }
}

impl SpecValue {
    /// The member `key` of an object; `None` for a missing key and for anything
    /// that is not an object.
    pub open spec fn get(self, key: Seq<char>) -> Option<SpecValue> {
        match self {
            SpecValue::Object(members) => lookup(members, key),
            _ => None,
        }
    }

    /// The text of a string; `None` for anything else.
    pub open spec fn as_str(self) -> Option<Seq<char>> {
        match self {
            SpecValue::String(s) => Some(s),
            _ => None,
        }
    }

    /// The text of the member `key`, where that member exists and is a string.
    pub open spec fn get_str(self, key: Seq<char>) -> Option<Seq<char>> {
        match self.get(key) {
            Some(v) => v.as_str(),
            None => None,
        }
    }

    /// The object without members.
    pub open spec fn empty_object() -> SpecValue {
        SpecValue::Object(Seq::empty())
    }
}

impl Clone for Value {
    /// A copy that stands for the same mathematical value.
    fn clone(&self) -> (r: Value)
        ensures
            r@ == self@,
        decreases self,
    {
        match self {
            Value::Null => Value::Null,
            Value::Bool(b) => Value::Bool(*b),
            Value::Number(n) => Value::Number(*n),
            Value::String(s) => Value::String(s.clone()),
            Value::Array(items) => {
                let mut out: Vec<Value> = Vec::new();
                let mut i: usize = 0;
                while i < items.len()
                    invariant
                        i <= items.len(),
                        out.len() == i,
                        self is Array && self->Array_0 == *items,
                        forall|j: int| 0 <= j < i ==> out[j]@ == items[j]@,
                    decreases items.len() - i,
                {
                    proof {
                        assert(decreases_to!(*self => self->Array_0));
                    }
                    out.push(items[i].clone());
                    i += 1;
                }
                proof {
                    assert(items_view(out) =~= items_view(*items));
                }
                Value::Array(out)
            },
            Value::Object(members) => {
                let mut out: Vec<(String, Value)> = Vec::new();
                let mut i: usize = 0;
                while i < members.len()
                    invariant
                        i <= members.len(),
                        out.len() == i,
                        self is Object && self->Object_0 == *members,
                        forall|j: int|
                            0 <= j < i ==> out[j].0@ == members[j].0@ && out[j].1@ == members[j].1@,
                    decreases members.len() - i,
                {
                    proof {
                        assert(decreases_to!(*self => self->Object_0));
                    }
                    out.push((members[i].0.clone(), members[i].1.clone()));
                    i += 1;
                }
                proof {
                    assert(members_view(out) =~= members_view(*members));
                }
                Value::Object(out)
            },
        }
    }
}

impl Value {
    /// The object without members.
    pub fn empty_object() -> (r: Value)
        ensures
            r@ == SpecValue::empty_object(),
    {
        let members: Vec<(String, Value)> = Vec::new();
        proof {
            assert(members_view(members) =~= Seq::empty());
        }
        Value::Object(members)
    }

    /// A string value with the given text.
    pub fn text(s: &str) -> (r: Value)
        ensures
            r@ == SpecValue::String(s@),
    {
        Value::String(s.to_owned())
    }

    /// Looks up the member `key` of an object.
    ///
    /// Returns `None` where the value is not an object or has no such member;
    /// of several members with the same key, the first.
    pub fn get(&self, key: &str) -> (r: Option<&Value>)
        ensures
            view_of(r) == self@.get(key@),
    {
        match self {
            Value::Object(members) => {
                let wanted = key.to_owned();
                let ghost all = members_view(*members);
                let mut i: usize = 0;
                proof {
                    assert(all.skip(0) =~= all);
                }
                while i < members.len()
                    invariant
                        i <= members.len(),
                        wanted@ == key@,
                        *self == Value::Object(*members),
                        all == members_view(*members),
                        lookup(all, key@) == lookup(all.skip(i as int), key@),
                    decreases members.len() - i,
                {
                    if members[i].0 == wanted {
                        proof {
                            assert(all.skip(i as int)[0] == all[i as int]);
                        }
                        return Some(&members[i].1);
                    }
                    proof {
                        assert(all.skip(i as int).drop_first() =~= all.skip(i + 1));
                    }
                    i += 1;
                }
                None
            },
            _ => None,
        }
    }

    /// The text of a string value, `None` for any other value.
    pub fn as_str(&self) -> (r: Option<&str>)
        ensures
            text_of(r) == self@.as_str(),
    {
        match self {
            Value::String(s) => Some(s.as_str()),
            _ => None,
        }
    }

    /// The text of the member `key`, where that member exists and is a string.
    pub fn get_str(&self, key: &str) -> (r: Option<&str>)
        ensures
            text_of(r) == self@.get_str(key@),
    {
        match self.get(key) {
            Some(v) => v.as_str(),
            None => None,
        }
    }
}

} // verus!
