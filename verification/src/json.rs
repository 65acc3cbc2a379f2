//! Structured values, as requests and responses carry them.

use crate::table::{find, table};
use vstd::prelude::*;

verus! {

/// A number of a structured value.
#[derive(Clone, Copy, Debug, PartialEq, Eq)]
pub enum Number {
    /// A whole number that is not negative.
    PosInt(u64),
    /// A whole number below zero.
    NegInt(i64),
    /// Any other number, held as the bit pattern of its IEEE 754 double.
    Float(u64),
}

impl Number {
    /// The number, where it is a whole number.
    pub open spec fn whole(self) -> Option<int> {
        match self {
            Number::PosInt(n) => Some(n as int),
            Number::NegInt(n) => Some(n as int),
            Number::Float(_) => None,
        }
    }

    /// The whole number `n`: as `NegInt` where it is below zero, and else as
    /// `PosInt`.
    pub fn of(n: i64) -> (number: Number)
        ensures
            number.whole() == Some(n as int),
            number == if n < 0 {
                Number::NegInt(n)
            } else {
                Number::PosInt(n as u64)
            },
    {
        if n < 0 {
            Number::NegInt(n)
        } else {
            Number::PosInt(n as u64)
        }
    }

    /// The number as an `i64`, where it is a whole number in that range.
    pub fn as_i64(&self) -> (out: Option<i64>)
        ensures
            out == match self.whole() {
                Some(n) if i64::MIN <= n <= i64::MAX => Some(n as i64),
                _ => None,
            },
    {
        match *self {
            Number::PosInt(n) => if n <= 0x7fff_ffff_ffff_ffff {
                Some(n as i64)
            } else {
                None
            },
            Number::NegInt(n) => Some(n),
            Number::Float(_) => None,
        }
    }

    /// The number as an `i32`, where it is a whole number in that range.
    pub fn as_i32(&self) -> (out: Option<i32>)
        ensures
            out == match self.whole() {
                Some(n) if i32::MIN <= n <= i32::MAX => Some(n as i32),
                _ => None,
            },
    {
        match *self {
            Number::PosInt(n) => if n <= 0x7fff_ffff {
                Some(n as i32)
            } else {
                None
            },
            Number::NegInt(n) => if -0x8000_0000 <= n && n <= 0x7fff_ffff {
                Some(n as i32)
            } else {
                None
            },
            Number::Float(_) => None,
        }
    }
}

/// A structured value.
#[derive(Debug, PartialEq, Eq)]
pub enum Json {
    Null,
    Bool(bool),
    Number(Number),
    Text(String),
    Array(Vec<Json>),
    /// The members of an object, in the order in which they stand.
    Object(Vec<(String, Json)>),
}

impl Clone for Json {
    fn clone(&self) -> (copy: Self)
        decreases self,
    {
        match self {
            Json::Null => Json::Null,
            Json::Bool(b) => Json::Bool(*b),
            Json::Number(n) => Json::Number(*n),
            Json::Text(text) => Json::Text(text.clone()),
            Json::Array(items) => {
                let mut copy: Vec<Json> = Vec::with_capacity(items.len());
                let mut i: usize = 0;
                while i < items.len()
                    invariant
                        i <= items.len(),
                        self matches Json::Array(held) && held == items,
                    decreases items.len() - i,
                {
                    copy.push(items[i].clone());
                    i += 1;
                }
                Json::Array(copy)
            },
            Json::Object(members) => {
                let mut copy: Vec<(String, Json)> = Vec::with_capacity(members.len());
                let mut i: usize = 0;
                while i < members.len()
                    invariant
                        i <= members.len(),
                        self matches Json::Object(held) && held == members,
                    decreases members.len() - i,
                {
                    copy.push((members[i].0.clone(), members[i].1.clone()));
                    i += 1;
                }
                Json::Object(copy)
            },
        }
    }
}

/// Why a value does not give the two members that are asked of it.
#[derive(Clone, Copy, Debug, PartialEq, Eq)]
pub enum Lacks {
    /// It is no object.
    Object,
    /// It has no member of the first name.
    First,
    /// It has no member of the second name.
    Second,
}

impl Json {
    /// What the value lacks to give a member named `first` and one named
    /// `second`, if it lacks anything.
    pub open spec fn lacks(&self, first: Seq<char>, second: Seq<char>) -> Option<Lacks> {
        match self {
            Json::Object(members) => if !table(members@).contains_key(first) {
                Some(Lacks::First)
            } else if !table(members@).contains_key(second) {
                Some(Lacks::Second)
            } else {
                None
            },
            _ => Some(Lacks::Object),
        }
    }

    /// Takes the members named `first` and `second` out of the value. Where it
    /// does not hold both, the value comes back as it was, with what it lacks.
    pub fn take_two(self, first: &str, second: &str) -> (taken: Result<(Json, Json), (Json, Lacks)>)
        requires
            first@ != second@,
        ensures
            match self.lacks(first@, second@) {
                Some(lacks) => taken == Err::<(Json, Json), (Json, Lacks)>((self, lacks)),
                None => self matches Json::Object(members) && taken == Ok::<
                    (Json, Json),
                    (Json, Lacks),
                >((table(members@)[first@], table(members@)[second@])),
            },
    {
        let mut members = match self {
            Json::Object(members) => members,
            other => {
                return Err((other, Lacks::Object));
            },
        };
        let first_at = match find(&members, first) {
            Some(at) => at,
            None => {
                return Err((Json::Object(members), Lacks::First));
            },
        };
        let second_at = match find(&members, second) {
            Some(at) => at,
            None => {
                return Err((Json::Object(members), Lacks::Second));
            },
        };
        let ghost held = members@;
        let (one, other) = if first_at < second_at {
            let other = members.remove(second_at);
            let one = members.remove(first_at);
            (one, other)
        } else {
            let one = members.remove(first_at);
            let other = members.remove(second_at);
            (one, other)
        };
        assert(one == held[first_at as int]);
        assert(other == held[second_at as int]);
        Ok((one.1, other.1))
    }

    /// The member named `name`, if the value is an object that has one.
    pub fn member(&self, name: &str) -> (found: Option<&Json>)
        ensures
            found == match self {
                Json::Object(members) if table(members@).contains_key(name@) => Some(
                    &table(members@)[name@],
                ),
                _ => None,
            },
    {
        match self {
            Json::Object(members) => match find(members, name) {
                Some(at) => Some(&members[at].1),
                None => None,
            },
            _ => None,
        }
    }

    /// The value is an object with a member named `key`.
    pub open spec fn has_key(&self, key: Seq<char>) -> bool {
        match self {
            Json::Object(members) => exists|i: int|
                0 <= i < members@.len() && (#[trigger] members@[i]).0@ == key,
            _ => false,
        }
    }

    /// Whether the value is `Null`.
    pub fn is_null(&self) -> (null: bool)
        ensures
            null == (self is Null),
    {
        match self {
            Json::Null => true,
            _ => false,
        }
    }

    /// Whether the value is an object with a member named `key`.
    pub fn contains_key(&self, key: &str) -> (found: bool)
        ensures
            found == self.has_key(key@),
    {
        match self {
            Json::Object(members) => {
                let wanted = key.to_owned();
                let mut i: usize = 0;
                while i < members.len()
                    invariant
                        i <= members.len(),
                        wanted@ == key@,
                        self matches Json::Object(held) && held == members,
                        forall|j: int| 0 <= j < i ==> (#[trigger] members@[j]).0@ != key@,
                    decreases members.len() - i,
                {
                    if members[i].0 == wanted {
                        assert(members@[i as int].0@ == key@);
                        return true;
                    }
                    i += 1;
                }
                false
            },
            _ => false,
        }
    }

    /// The text `text` as a structured value.
    pub fn text(text: &str) -> (json: Json)
        ensures
            json matches Json::Text(held) && held@ == text@,
    {
        Json::Text(text.to_owned())
    }
}

} // verus!
