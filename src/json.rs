use vstd::prelude::*;
use crate::text::same_text;

verus! {

/// A JSON value as the transports see it. A number is kept either as a
/// 64-bit integer or, when it is not one, as its literal text.
#[derive(Debug, PartialEq)]
pub enum JsonValue {
    Null,
    Bool(bool),
    Int(i64),
    Num(String),
    Str(String),
    Array(Vec<JsonValue>),
    Object(Vec<(String, JsonValue)>),
}

/// The value stored under `key` in an object's fields: the first field with
/// that name wins.
pub open spec fn field_of(fields: Seq<(String, JsonValue)>, key: Seq<char>) -> Option<JsonValue>
    decreases fields.len(),
{
    if fields.len() == 0 {
        None
    } else if fields[0].0@ == key {
        Some(fields[0].1)
    } else {
        field_of(fields.drop_first(), key)
    }
}

/// Position of the first field named `key`.
pub open spec fn first_index_of(fields: Seq<(String, JsonValue)>, key: Seq<char>) -> Option<int>
    decreases fields.len(),
{
    if fields.len() == 0 {
        None
    } else if fields[0].0@ == key {
        Some(0)
    } else {
        match first_index_of(fields.drop_first(), key) {
            Some(i) => Some(i + 1),
            None => None,
        }
    }
}

proof fn lemma_first_index_of(fields: Seq<(String, JsonValue)>, key: Seq<char>)
    ensures
        match first_index_of(fields, key) {
            Some(i) => 0 <= i < fields.len() && fields[i].0@ == key && field_of(fields, key)
                == Some(fields[i].1) && forall|j: int| 0 <= j < i ==> fields[j].0@ != key,
            None => field_of(fields, key) is None && forall|j: int|
                0 <= j < fields.len() ==> fields[j].0@ != key,
        },
    decreases fields.len(),
{
    if fields.len() > 0 && fields[0].0@ != key {
        lemma_first_index_of(fields.drop_first(), key);
        match first_index_of(fields.drop_first(), key) {
            Some(i) => {
                assert forall|j: int| 0 <= j < i + 1 implies fields[j].0@ != key by {
                    if j > 0 {
                        assert(fields[j] == fields.drop_first()[j - 1]);
                    }
                }
            },
            None => {
                assert forall|j: int| 0 <= j < fields.len() implies fields[j].0@ != key by {
                    if j > 0 {
                        assert(fields[j] == fields.drop_first()[j - 1]);
                    }
                }
            },
        }
    }
}

/// Index of the first field named `key`.
pub fn find_field(fields: &Vec<(String, JsonValue)>, key: &str) -> (r: Option<usize>)
    ensures
        match r {
            Some(i) => first_index_of(fields@, key@) == Some(i as int),
            None => first_index_of(fields@, key@) is None,
        },
{
    let mut i: usize = 0;
    proof {
        lemma_first_index_of(fields@, key@);
    }
    while i < fields.len()
        invariant
            i <= fields.len(),
            forall|j: int| 0 <= j < i ==> fields@[j].0@ != key@,
        decreases fields.len() - i,
    {
        if same_text(fields[i].0.as_str(), key) {
            proof {
                lemma_first_index_agrees(fields@, key@, i as int);
            }
            return Some(i);
        }
        i = i + 1;
    }
    proof {
        lemma_first_index_none(fields@, key@);
    }
    None
}

proof fn lemma_first_index_agrees(fields: Seq<(String, JsonValue)>, key: Seq<char>, i: int)
    requires
        0 <= i < fields.len(),
        fields[i].0@ == key,
        forall|j: int| 0 <= j < i ==> fields[j].0@ != key,
    ensures
        first_index_of(fields, key) == Some(i),
    decreases i,
{
    if i > 0 {
        let rest = fields.drop_first();
        assert forall|j: int| 0 <= j < i - 1 implies rest[j].0@ != key by {
            assert(rest[j] == fields[j + 1]);
        }
        lemma_first_index_agrees(rest, key, i - 1);
    }
}

proof fn lemma_first_index_none(fields: Seq<(String, JsonValue)>, key: Seq<char>)
    requires
        forall|j: int| 0 <= j < fields.len() ==> fields[j].0@ != key,
    ensures
        first_index_of(fields, key) is None,
    decreases fields.len(),
{
    if fields.len() > 0 {
        let rest = fields.drop_first();
        assert forall|j: int| 0 <= j < rest.len() implies rest[j].0@ != key by {
            assert(rest[j] == fields[j + 1]);
        }
        lemma_first_index_none(rest, key);
    }
}

/// Removing a field whose name is not `key` leaves what `key` finds unchanged.
proof fn lemma_field_of_remove(fields: Seq<(String, JsonValue)>, i: int, key: Seq<char>)
    requires
        0 <= i < fields.len(),
        fields[i].0@ != key,
    ensures
        field_of(fields.remove(i), key) == field_of(fields, key),
    decreases i,
{
    if i == 0 {
        assert(fields.remove(0) == fields.drop_first());
    } else {
        let rest = fields.remove(i);
        assert(rest[0] == fields[0]);
        if fields[0].0@ != key {
            assert(rest.drop_first() == fields.drop_first().remove(i - 1));
            lemma_field_of_remove(fields.drop_first(), i - 1, key);
        }
    }
}

/// Takes the first field named `key` out of an object's fields.
pub fn take_field(fields: &mut Vec<(String, JsonValue)>, key: &str) -> (r: Option<JsonValue>)
    ensures
        r == field_of(old(fields)@, key@),
        forall|k: Seq<char>|
            k != key@ ==> #[trigger] field_of(final(fields)@, k) == field_of(old(fields)@, k),
{
    proof {
        lemma_first_index_of(fields@, key@);
    }
    match find_field(fields, key) {
        Some(i) => {
            let ghost before = fields@;
            let (_, value) = fields.remove(i);
            proof {
                assert forall|k: Seq<char>| k != key@ implies #[trigger] field_of(fields@, k)
                    == field_of(before, k) by {
                    lemma_field_of_remove(before, i as int, k);
                }
            }
            Some(value)
        },
        None => None,
    }
}

} // verus!
