use vstd::prelude::*;

verus! {

/// A JSON value: the shape in which requests arrive, events leave and the
/// state is saved. An object keeps its members in order.
#[derive(Debug, PartialEq)]
pub enum JsonValue {
    Null,
    Bool(bool),
    /// A number, as its JSON text.
    Number(String),
    String(String),
    Array(Vec<JsonValue>),
    Object(Vec<(String, JsonValue)>),
}

/// The value of the first member of `members`, from index `i` on, whose key is
/// `key`.
pub open spec fn member_from(members: Seq<(String, JsonValue)>, key: Seq<char>, i: int) -> Option<
    JsonValue,
>
    decreases members.len() - i,
{
    if i < 0 || i >= members.len() {
        None
    } else if members[i].0@ == key {
        Some(members[i].1)
    } else {
        member_from(members, key, i + 1)
    }
}

/// The value of the first member of `members` whose key is `key`.
pub open spec fn member(members: Seq<(String, JsonValue)>, key: Seq<char>) -> Option<JsonValue> {
    member_from(members, key, 0)
}

/// The member at index `i` is the first whose key is `key`.
pub proof fn lemma_member_at(members: Seq<(String, JsonValue)>, key: Seq<char>, i: int)
    requires
        0 <= i < members.len(),
        members[i].0@ == key,
        forall|j: int| 0 <= j < i ==> members[j].0@ != key,
    ensures
        member(members, key) == Some(members[i].1),
    decreases i,
{
    lemma_member_from_at(members, key, 0, i);
}

proof fn lemma_member_from_at(members: Seq<(String, JsonValue)>, key: Seq<char>, s: int, i: int)
    requires
        0 <= s <= i < members.len(),
        members[i].0@ == key,
        forall|j: int| s <= j < i ==> members[j].0@ != key,
    ensures
        member_from(members, key, s) == Some(members[i].1),
    decreases i - s,
{
    if s < i {
        lemma_member_from_at(members, key, s + 1, i);
    }
}

/// The value of the first member of `members` whose key is `key`, if any.
pub fn find_member<'a>(members: &'a Vec<(String, JsonValue)>, key: &str) -> (r: Option<
    &'a JsonValue,
>)
    ensures
        match r {
            Some(v) => member(members@, key@) == Some(*v),
            None => member(members@, key@) is None,
        },
{
    let target = key.to_string();
    let mut i: usize = 0;
    while i < members.len()
        invariant
            target@ == key@,
            i <= members@.len(),
            member(members@, key@) == member_from(members@, key@, i as int),
        decreases members@.len() - i,
    {
        if members[i].0 == target {
            return Some(&members[i].1);
        }
        i = i + 1;
    }
    None
}

} // verus!
