//! A JSON document as the request handlers read it.
//!
//! Numbers keep the three shapes a JSON number can take once parsed: a
//! non-negative integer, a negative integer, or a fractional number, which is
//! carried as its decimal text because no handler computes with it.
//! Arrays and objects are linked lists, so that a copy of a value is the same
//! value; looking a key up in an object finds its first member.
use vstd::prelude::*;

use crate::text::str_equal;

verus! {

/// A parsed JSON number.
#[derive(Debug, PartialEq, Eq)]
pub enum JsonNumber {
    /// A non-negative integer.
    PosInt(u64),
    /// A negative integer.
    NegInt(i64),
    /// Any other number, as its decimal text.
    Float(String),
}

/// A JSON value.
#[derive(Debug, PartialEq, Eq)]
pub enum JsonValue {
    Null,
    Bool(bool),
    Number(JsonNumber),
    Str(String),
    Array(JsonItems),
    Object(JsonMembers),
}

/// The elements of a JSON array, in order.
#[derive(Debug, PartialEq, Eq)]
pub enum JsonItems {
    Empty,
    Item { value: Box<JsonValue>, rest: Box<JsonItems> },
}

/// The members of a JSON object, in order.
#[derive(Debug, PartialEq, Eq)]
pub enum JsonMembers {
    Empty,
    Member { key: String, value: Box<JsonValue>, rest: Box<JsonMembers> },
}

/// A number as a parser produces it: `NegInt` holds only negative integers
/// (a non-negative integer is always a `PosInt`).
pub open spec fn number_well_formed(n: JsonNumber) -> bool {
    match n {
        JsonNumber::NegInt(i) => i < 0,
        _ => true,
    }
}

/// The elements of an array.
pub open spec fn items_seq(items: JsonItems) -> Seq<JsonValue>
    decreases items,
{
    match items {
        JsonItems::Empty => Seq::empty(),
        JsonItems::Item { value, rest } => seq![*value] + items_seq(*rest),
    }
}

/// The members of an object, as (key, value) pairs.
pub open spec fn members_seq(members: JsonMembers) -> Seq<(String, JsonValue)>
    decreases members,
{
    match members {
        JsonMembers::Empty => Seq::empty(),
        JsonMembers::Member { key, value, rest } => seq![(key, *value)] + members_seq(*rest),
    }
}

/// The value of the first member whose key is `key`.
pub open spec fn members_get(members: JsonMembers, key: Seq<char>) -> Option<JsonValue>
    decreases members,
{
    match members {
        JsonMembers::Empty => None,
        JsonMembers::Member { key: k, value, rest } => if k@ == key {
            Some(*value)
        } else {
            members_get(*rest, key)
        },
    }
}

/// The member `key` of an object; `None` for a missing key or a value that
/// is not an object.
pub open spec fn spec_get(value: JsonValue, key: Seq<char>) -> Option<JsonValue> {
    match value {
        JsonValue::Object(members) => members_get(members, key),
        _ => None,
    }
}

pub open spec fn spec_as_str(value: JsonValue) -> Option<String> {
    match value {
        JsonValue::Str(s) => Some(s),
        _ => None,
    }
}

pub open spec fn spec_as_bool(value: JsonValue) -> Option<bool> {
    match value {
        JsonValue::Bool(b) => Some(b),
        _ => None,
    }
}

/// An integer that fits in `i64`.
pub open spec fn spec_as_i64(value: JsonValue) -> Option<i64> {
    match value {
        JsonValue::Number(JsonNumber::PosInt(n)) => if n <= i64::MAX {
            Some(n as i64)
        } else {
            None
        },
        JsonValue::Number(JsonNumber::NegInt(n)) => Some(n),
        _ => None,
    }
}

/// A non-negative integer.
pub open spec fn spec_as_u64(value: JsonValue) -> Option<u64> {
    match value {
        JsonValue::Number(JsonNumber::PosInt(n)) => Some(n),
        _ => None,
    }
}

/// The first member whose key is `key`.
fn members_lookup<'a>(members: &'a JsonMembers, key: &str) -> (r: Option<&'a JsonValue>)
    ensures
        match r {
            Some(v) => members_get(*members, key@) == Some(*v),
            None => members_get(*members, key@) is None,
        },
    decreases members,
{
    match members {
        JsonMembers::Empty => None,
        JsonMembers::Member { key: k, value, rest } => {
            if str_equal(k.as_str(), key) {
                Some(&**value)
            } else {
                members_lookup(&**rest, key)
            }
        },
    }
}

impl JsonNumber {
    /// A copy of the number.
    pub fn deep_clone(&self) -> (r: JsonNumber)
        ensures
            r == *self,
    {
        match self {
            JsonNumber::PosInt(n) => JsonNumber::PosInt(*n),
            JsonNumber::NegInt(n) => JsonNumber::NegInt(*n),
            JsonNumber::Float(t) => JsonNumber::Float(t.clone()),
        }
    }
}

impl JsonItems {
    /// A copy of the elements.
    pub fn deep_clone(&self) -> (r: JsonItems)
        ensures
            r == *self,
        decreases self,
    {
        match self {
            JsonItems::Empty => JsonItems::Empty,
            JsonItems::Item { value, rest } => JsonItems::Item {
                value: Box::new((&**value).deep_clone()),
                rest: Box::new((&**rest).deep_clone()),
            },
        }
    }

    /// The array elements `values`, in order.
    pub fn from_vec(values: Vec<JsonValue>) -> (r: JsonItems)
        ensures
            items_seq(r) == values@,
    {
        let ghost all = values@;
        let mut values = values;
        let mut items = JsonItems::Empty;
        assert(all.subrange(all.len() as int, all.len() as int) =~= Seq::<JsonValue>::empty());
        while values.len() > 0
            invariant
                values@.len() <= all.len(),
                values@ == all.subrange(0, values@.len() as int),
                items_seq(items) == all.subrange(values@.len() as int, all.len() as int),
            decreases values@.len(),
        {
            let value = values.pop().unwrap();
            let ghost k = values@.len() as int;
            assert(all.subrange(k, all.len() as int) =~= seq![value] + all.subrange(
                k + 1,
                all.len() as int,
            ));
            assert(values@ =~= all.subrange(0, k));
            items = JsonItems::Item { value: Box::new(value), rest: Box::new(items) };
        }
        assert(all.subrange(0, all.len() as int) =~= all);
        items
    }
}

impl JsonMembers {
    /// A copy of the members.
    pub fn deep_clone(&self) -> (r: JsonMembers)
        ensures
            r == *self,
        decreases self,
    {
        match self {
            JsonMembers::Empty => JsonMembers::Empty,
            JsonMembers::Member { key, value, rest } => JsonMembers::Member {
                key: key.clone(),
                value: Box::new((&**value).deep_clone()),
                rest: Box::new((&**rest).deep_clone()),
            },
        }
    }

    /// The object members `members`, in order.
    pub fn from_vec(members: Vec<(String, JsonValue)>) -> (r: JsonMembers)
        ensures
            members_seq(r) == members@,
    {
        let ghost all = members@;
        let mut members = members;
        let mut list = JsonMembers::Empty;
        assert(all.subrange(all.len() as int, all.len() as int) =~= Seq::<(String, JsonValue)>::empty());
        while members.len() > 0
            invariant
                members@.len() <= all.len(),
                members@ == all.subrange(0, members@.len() as int),
                members_seq(list) == all.subrange(members@.len() as int, all.len() as int),
            decreases members@.len(),
        {
            let (key, value) = members.pop().unwrap();
            let ghost k = members@.len() as int;
            assert(all.subrange(k, all.len() as int) =~= seq![(key, value)] + all.subrange(
                k + 1,
                all.len() as int,
            ));
            assert(members@ =~= all.subrange(0, k));
            list = JsonMembers::Member { key, value: Box::new(value), rest: Box::new(list) };
        }
        assert(all.subrange(0, all.len() as int) =~= all);
        list
    }
}

impl JsonValue {
    /// A copy of the value: the same value.
    pub fn deep_clone(&self) -> (r: JsonValue)
        ensures
            r == *self,
        decreases self,
    {
        match self {
            JsonValue::Null => JsonValue::Null,
            JsonValue::Bool(b) => JsonValue::Bool(*b),
            JsonValue::Number(n) => JsonValue::Number(n.deep_clone()),
            JsonValue::Str(s) => JsonValue::Str(s.clone()),
            JsonValue::Array(items) => JsonValue::Array(items.deep_clone()),
            JsonValue::Object(members) => JsonValue::Object(members.deep_clone()),
        }
    }

    /// The member `key` of an object.
    pub fn get(&self, key: &str) -> (r: Option<&JsonValue>)
        ensures
            match r {
                Some(v) => spec_get(*self, key@) == Some(*v),
                None => spec_get(*self, key@) is None,
            },
    {
        match self {
            JsonValue::Object(members) => members_lookup(members, key),
            _ => None,
        }
    }

    pub fn as_str(&self) -> (r: Option<&String>)
        ensures
            match r {
                Some(s) => spec_as_str(*self) == Some(*s),
                None => spec_as_str(*self) is None,
            },
    {
        match self {
            JsonValue::Str(s) => Some(s),
            _ => None,
        }
    }

    pub fn as_bool(&self) -> (r: Option<bool>)
        ensures
            r == spec_as_bool(*self),
    {
        match self {
            JsonValue::Bool(b) => Some(*b),
            _ => None,
        }
    }

    pub fn as_i64(&self) -> (r: Option<i64>)
        ensures
            r == spec_as_i64(*self),
    {
        match self {
            JsonValue::Number(JsonNumber::PosInt(n)) => {
                if *n <= i64::MAX as u64 {
                    Some(*n as i64)
                } else {
                    None
                }
            },
            JsonValue::Number(JsonNumber::NegInt(n)) => Some(*n),
            _ => None,
        }
    }

    pub fn as_u64(&self) -> (r: Option<u64>)
        ensures
            r == spec_as_u64(*self),
    {
        match self {
            JsonValue::Number(JsonNumber::PosInt(n)) => Some(*n),
            _ => None,
        }
    }

    /// An object with no members.
    pub fn empty_object() -> (r: JsonValue)
        ensures
            r == JsonValue::Object(JsonMembers::Empty),
    {
        JsonValue::Object(JsonMembers::Empty)
    }
}

/// An integer reads back the same as `i64` and as `u64` wherever both
/// apply; only numbers read as integers.
pub proof fn lemma_integer_reads_agree(value: JsonValue)
    ensures
        spec_as_u64(value) is Some && spec_as_u64(value)->0 <= i64::MAX ==> spec_as_i64(value) == Some(
            spec_as_u64(value)->0 as i64,
        ),
        value matches JsonValue::Number(n) && number_well_formed(n) && spec_as_i64(value) is Some
            && spec_as_i64(value)->0 >= 0 ==> spec_as_u64(value) == Some(
            spec_as_i64(value)->0 as u64,
        ),
        !(value is Number) ==> spec_as_u64(value) is None && spec_as_i64(value) is None,
{
}

/// Looking a key up finds the first member with that key: a later member
/// with the same key is never seen, and members with other keys do not
/// matter.
pub proof fn lemma_first_member_wins(members: Seq<(String, JsonValue)>, key: Seq<char>, i: int)
    requires
        0 <= i < members.len(),
        members[i].0@ == key,
        forall|j: int| 0 <= j < i ==> (#[trigger] members[j]).0@ != key,
    ensures
        forall|m: JsonMembers| members_seq(m) == members ==> #[trigger] members_get(m, key) == Some(
            members[i].1,
        ),
{
    assert forall|m: JsonMembers| members_seq(m) == members implies #[trigger] members_get(m, key)
        == Some(members[i].1) by {
        lemma_members_get_is_first(m, key, i);
    }
}

proof fn lemma_members_get_is_first(m: JsonMembers, key: Seq<char>, i: int)
    requires
        0 <= i < members_seq(m).len(),
        members_seq(m)[i].0@ == key,
        forall|j: int| 0 <= j < i ==> (#[trigger] members_seq(m)[j]).0@ != key,
    ensures
        members_get(m, key) == Some(members_seq(m)[i].1),
    decreases m,
{
    match m {
        JsonMembers::Empty => {},
        JsonMembers::Member { key: k, value, rest } => {
            let s = members_seq(m);
            assert(s[0] == (k, *value));
            if i > 0 {
                assert(s[0].0@ != key);
                assert forall|j: int| 0 <= j < i - 1 implies (#[trigger] members_seq(*rest)[j]).0@
                    != key by {
                    assert(members_seq(*rest)[j] == s[j + 1]);
                }
                assert(members_seq(*rest)[i - 1] == s[i]);
                lemma_members_get_is_first(*rest, key, i - 1);
            }
        },
    }
}

} // verus!
