//! JSON values as the gateway logic sees them.
use vstd::prelude::*;

use crate::text::same_text;

verus! {

/// A JSON value.
///
/// Numbers keep the two integer forms that the protocol uses; any other number is
/// only known to be one.
#[derive(Debug)]
pub enum Json {
    Null,
    Bool(bool),
    /// A nonnegative integer.
    Unsigned(u64),
    /// A negative integer.
    Negative(i64),
    /// A number that is no integer of 64 bits.
    Float,
    Text(String),
    Array(Vec<Json>),
    /// The members of an object in order.
    Object(Vec<(String, Json)>),
}

/// The mathematical form of a [`Json`] value.
#[verifier::ext_equal]
pub ghost enum JsonValue {
    Null,
    Bool(bool),
    Unsigned(u64),
    Negative(i64),
    Float,
    Text(Seq<char>),
    Array(Seq<JsonValue>),
    Object(Seq<(Seq<char>, JsonValue)>),
}

/// The values of a row of trees.
pub open spec fn item_values(items: Seq<Json>) -> Seq<JsonValue> {
    Seq::new(items.len(), |i: int| items[i].value())
}

/// The names and values of a row of members.
pub open spec fn member_values(members: Seq<(String, Json)>) -> Seq<(Seq<char>, JsonValue)> {
    Seq::new(members.len(), |i: int| (members[i].0@, members[i].1.value()))
}

/// The value of the first member with a name.
pub open spec fn first_member(members: Seq<(Seq<char>, JsonValue)>, name: Seq<char>) -> Option<
    JsonValue,
>
    decreases members.len(),
{
    if members.len() == 0 {
        None
    } else if members[0].0 == name {
        Some(members[0].1)
    } else {
        first_member(members.skip(1), name)
    }
}

impl JsonValue {
    /// The member of an object with a name.
    pub open spec fn member(self, name: Seq<char>) -> Option<JsonValue> {
        match self {
            JsonValue::Object(members) => first_member(members, name),
            _ => None,
        }
    }

    /// The nonnegative integer that the value is.
    pub open spec fn unsigned(self) -> Option<u64> {
        match self {
            JsonValue::Unsigned(n) => Some(n),
            _ => None,
        }
    }

    /// The integer of 64 bits with a sign that the value is.
    pub open spec fn signed(self) -> Option<i64> {
        match self {
            JsonValue::Unsigned(n) => if n <= i64::MAX {
                Some(n as i64)
            } else {
                None
            },
            JsonValue::Negative(n) => Some(n),
            _ => None,
        }
    }

    /// The text that the value is.
    pub open spec fn text(self) -> Option<Seq<char>> {
        match self {
            JsonValue::Text(text) => Some(text),
            _ => None,
        }
    }

    /// The nonnegative integer in the member with a name.
    pub open spec fn unsigned_member(self, name: Seq<char>) -> Option<u64> {
        match self.member(name) {
            Some(value) => value.unsigned(),
            None => None,
        }
    }

    /// The text in the member with a name.
    pub open spec fn text_member(self, name: Seq<char>) -> Option<Seq<char>> {
        match self.member(name) {
            Some(value) => value.text(),
            None => None,
        }
    }

    /// The items of the array in the member with a name.
    pub open spec fn array_member(self, name: Seq<char>) -> Option<Seq<JsonValue>> {
        match self.member(name) {
            Some(JsonValue::Array(items)) => Some(items),
            _ => None,
        }
    }
}

impl Json {
    /// The value that this tree stands for.
    pub open spec fn value(self) -> JsonValue
        decreases self,
    {
        match self {
            Json::Null => JsonValue::Null,
            Json::Bool(b) => JsonValue::Bool(b),
            Json::Unsigned(n) => JsonValue::Unsigned(n),
            Json::Negative(n) => JsonValue::Negative(n),
            Json::Float => JsonValue::Float,
            Json::Text(text) => JsonValue::Text(text@),
            Json::Array(items) => JsonValue::Array(
                Seq::new(
                    items@.len(),
                    |i: int|
                        if 0 <= i < items@.len() {
                            items@[i].value()
                        } else {
                            JsonValue::Null
                        },
                ),
            ),
            Json::Object(members) => JsonValue::Object(
                Seq::new(
                    members@.len(),
                    |i: int|
                        if 0 <= i < members@.len() {
                            (members@[i].0@, members@[i].1.value())
                        } else {
                            (Seq::empty(), JsonValue::Null)
                        },
                ),
            ),
        }
    }

    /// Returns the first member of an object with this name.
    pub fn get(&self, name: &str) -> (found: Option<&Json>)
        ensures
            match found {
                Some(json) => self.value().member(name@) == Some(json.value()),
                None => self.value().member(name@) is None,
            },
    {
        match self {
            Json::Object(members) => {
                proof {
                    object_value(*members);
                    assert(member_values(members@).skip(0) =~= member_values(members@));
                }
                let mut index: usize = 0;
                while index < members.len()
                    invariant
                        index <= members@.len(),
                        first_member(member_values(members@), name@) == first_member(
                            member_values(members@).skip(index as int),
                            name@,
                        ),
                        self.value() == JsonValue::Object(member_values(members@)),
                    decreases members@.len() - index,
                {
                    let ghost rest = member_values(members@).skip(index as int);
                    assert(rest[0] == member_values(members@)[index as int]);
                    if same_text(members[index].0.as_str(), name) {
                        return Some(&members[index].1);
                    }
                    assert(rest.skip(1) =~= member_values(members@).skip(index + 1));
                    index = index + 1;
                }
                None
            },
            _ => None,
        }
    }

    /// Returns the nonnegative integer that the value is.
    pub fn as_u64(&self) -> (number: Option<u64>)
        ensures
            number == self.value().unsigned(),
    {
        match self {
            Json::Unsigned(n) => Some(*n),
            _ => None,
        }
    }

    /// Returns the integer of 64 bits with a sign that the value is.
    pub fn as_i64(&self) -> (number: Option<i64>)
        ensures
            number == self.value().signed(),
    {
        match self {
            Json::Unsigned(n) => if *n <= i64::MAX as u64 {
                Some(*n as i64)
            } else {
                None
            },
            Json::Negative(n) => Some(*n),
            _ => None,
        }
    }

    /// Copies the tree.
    pub fn duplicate(&self) -> (copied: Json)
        ensures
            copied.value() == self.value(),
        decreases self,
    {
        match self {
            Json::Null => Json::Null,
            Json::Bool(b) => Json::Bool(*b),
            Json::Unsigned(n) => Json::Unsigned(*n),
            Json::Negative(n) => Json::Negative(*n),
            Json::Float => Json::Float,
            Json::Text(text) => Json::Text(text.as_str().to_owned()),
            Json::Array(items) => {
                let mut copied: Vec<Json> = Vec::new();
                let mut index: usize = 0;
                while index < items.len()
                    invariant
                        index <= items@.len(),
                        *self == Json::Array(*items),
                        copied@.len() == index,
                        forall|i: int|
                            0 <= i < index ==> (#[trigger] copied@[i]).value()
                                == items@[i].value(),
                    decreases items@.len() - index,
                {
                    assert(decreases_to!(*self => self->Array_0));
                    assert(decreases_to!(*items => items@));
                    assert(decreases_to!(items@ => items@[index as int]));
                    copied.push(items[index].duplicate());
                    index = index + 1;
                }
                proof {
                    array_value(*items);
                    array_value(copied);
                    assert(item_values(copied@) =~= item_values(items@));
                }
                Json::Array(copied)
            },
            Json::Object(members) => {
                let mut copied: Vec<(String, Json)> = Vec::new();
                let mut index: usize = 0;
                while index < members.len()
                    invariant
                        index <= members@.len(),
                        *self == Json::Object(*members),
                        copied@.len() == index,
                        forall|i: int|
                            0 <= i < index ==> (#[trigger] copied@[i]).0@ == members@[i].0@
                                && copied@[i].1.value() == members@[i].1.value(),
                    decreases members@.len() - index,
                {
                    assert(decreases_to!(*self => self->Object_0));
                    assert(decreases_to!(*members => members@));
                    assert(decreases_to!(members@ => members@[index as int]));
                    assert(decreases_to!(members@[index as int] => members@[index as int].1));
                    copied.push(
                        (members[index].0.as_str().to_owned(), members[index].1.duplicate()),
                    );
                    index = index + 1;
                }
                proof {
                    object_value(*members);
                    object_value(copied);
                    assert(member_values(copied@) =~= member_values(members@));
                }
                Json::Object(copied)
            },
        }
    }

    /// Returns the text that the value is.
    pub fn as_str(&self) -> (text: Option<&str>)
        ensures
            match text {
                Some(found) => self.value().text() == Some(found@),
                None => self.value().text() is None,
            },
    {
        match self {
            Json::Text(text) => Some(text.as_str()),
            _ => None,
        }
    }

    /// Returns the items of an array.
    pub fn as_array(&self) -> (items: Option<&Vec<Json>>)
        ensures
            match items {
                Some(found) => self.value() == JsonValue::Array(item_values(found@)),
                None => !(self.value() is Array),
            },
    {
        match self {
            Json::Array(items) => {
                proof {
                    array_value(*items);
                }
                Some(items)
            },
            _ => None,
        }
    }

    /// Returns the nonnegative integer in the member with this name.
    pub fn u64_member(&self, name: &str) -> (number: Option<u64>)
        ensures
            number == self.value().unsigned_member(name@),
    {
        match self.get(name) {
            Some(json) => json.as_u64(),
            None => None,
        }
    }
}

/// The value of an array is the row of its items' values.
pub proof fn array_value(items: Vec<Json>)
    ensures
        Json::Array(items).value() == JsonValue::Array(item_values(items@)),
{
    assert(Json::Array(items).value()->Array_0 =~= item_values(items@));
}

/// The value of an object is the row of its members' names and values.
pub proof fn object_value(members: Vec<(String, Json)>)
    ensures
        Json::Object(members).value() == JsonValue::Object(member_values(members@)),
{
    assert(Json::Object(members).value()->Object_0 =~= member_values(members@));
}

/// Adds a member to an object under construction.
pub fn push_member(members: &mut Vec<(String, Json)>, name: &str, json: Json)
    ensures
        member_values(final(members)@) == member_values(old(members)@).push(
            (name@, json.value()),
        ),
{
    members.push((name.to_owned(), json));
    assert(member_values(members@) =~= member_values(old(members)@).push((name@, json.value())));
}

/// Starts an object.
pub fn no_members() -> (members: Vec<(String, Json)>)
    ensures
        member_values(members@) == Seq::<(Seq<char>, JsonValue)>::empty(),
{
    let members: Vec<(String, Json)> = Vec::new();
    assert(member_values(members@) =~= Seq::<(Seq<char>, JsonValue)>::empty());
    members
}

/// Finishes an object.
pub fn object(members: Vec<(String, Json)>) -> (json: Json)
    ensures
        json.value() == JsonValue::Object(member_values(members@)),
{
    proof {
        object_value(members);
    }
    Json::Object(members)
}

/// A member is found by its name among the members of an object: the first one with the
/// name, wherever it stands. Nothing else has members.
pub proof fn members_are_found_by_name(
    front: Seq<(Seq<char>, JsonValue)>,
    name: Seq<char>,
    value: JsonValue,
    behind: Seq<(Seq<char>, JsonValue)>,
)
    requires
        forall|i: int| 0 <= i < front.len() ==> (#[trigger] front[i]).0 != name,
    ensures
        JsonValue::Object(front + seq![(name, value)] + behind).member(name) == Some(value),
        JsonValue::Object(front).member(name) is None,
        JsonValue::Null.member(name) is None,
    decreases front.len(),
{
    let members = front + seq![(name, value)] + behind;
    if front.len() > 0 {
        assert(front[0].0 != name);
        let rest = front.skip(1);
        assert forall|i: int| 0 <= i < rest.len() implies (#[trigger] rest[i]).0 != name by {
            assert(rest[i] == front[i + 1]);
        }
        members_are_found_by_name(rest, name, value, behind);
        assert(members[0] == front[0]);
        assert(members.skip(1) =~= rest + seq![(name, value)] + behind);
    } else {
        assert(members[0] == (name, value));
    }
}

/// A whole number is read with a sign where it fits into 64 bits with one, and without a
/// sign where it is not negative; a text is read as a text. Nothing is read as another kind.
pub proof fn values_are_read_by_their_kind(number: u64, below: i64, text: Seq<char>)
    ensures
        JsonValue::Unsigned(number).unsigned() == Some(number),
        JsonValue::Unsigned(number).signed() is Some <==> number <= 0x7FFF_FFFF_FFFF_FFFF,
        JsonValue::Unsigned(number).signed() matches Some(read) ==> read == number,
        JsonValue::Unsigned(number).text() is None,
        JsonValue::Negative(below).signed() == Some(below),
        JsonValue::Negative(below).unsigned() is None,
        JsonValue::Text(text).text() == Some(text),
        JsonValue::Text(text).unsigned() is None,
        JsonValue::Text(text).signed() is None,
        JsonValue::Float.unsigned() is None,
        JsonValue::Float.signed() is None,
{
}

} // verus!
