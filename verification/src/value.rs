//! The tree of JSON values that a forecast is decoded from.

use vstd::prelude::*;
use vstd::string::StringExecFns;
use crate::number::Number;

verus! {

/// A JSON value. An object keeps its members in the order of the
/// document, a name that the document repeats included.
#[derive(Debug, PartialEq, Eq)]
pub enum Value {
    Null,
    Bool(bool),
    Number(Number),
    Text(String),
    Array(Vec<Value>),
    Object(Vec<Member>),
}

/// One member of an object.
#[derive(Debug, PartialEq, Eq)]
pub struct Member {
    pub name: String,
    pub value: Value,
}

/// What a search of an object for a name comes to.
#[derive(Clone, Copy, Debug, PartialEq, Eq, Structural)]
pub enum Lookup {
    /// No member has the name.
    Absent,
    /// Exactly one member has the name: the one at this index.
    Once(usize),
    /// More than one member has the name.
    Repeated,
}

/// Whether the member at `index` has the name `name`.
pub open spec fn named(members: Seq<Member>, index: int, name: Seq<char>) -> bool {
    0 <= index < members.len() && members[index].name@ == name
}

/// The outcome of searching `members` for `name`.
pub open spec fn lookup(members: Seq<Member>, name: Seq<char>) -> Lookup
    decreases members.len(),
{
    if members.len() == 0 {
        Lookup::Absent
    } else {
        let earlier = lookup(members.drop_last(), name);
        if members.last().name@ != name {
            earlier
        } else if earlier is Absent {
            Lookup::Once((members.len() - 1) as usize)
        } else {
            Lookup::Repeated
        }
    }
}

/// Searches an object's members for a name, compared letter for letter.
pub fn find(members: &Vec<Member>, name: &str) -> (found: Lookup)
    ensures
        found == lookup(members@, name@),
        found matches Lookup::Once(k) ==> k < members.len(),
{
    let wanted = String::from_str(name);
    let mut found = Lookup::Absent;
    let mut i: usize = 0;
    while i < members.len()
        invariant
            i <= members.len(),
            wanted@ == name@,
            found == lookup(members@.take(i as int), name@),
            found matches Lookup::Once(k) ==> k < i,
        decreases members.len() - i,
    {
        proof {
            assert(members@.take(i + 1).drop_last() == members@.take(i as int));
        }
        if members[i].name == wanted {
            found = match found {
                Lookup::Absent => Lookup::Once(i),
                _ => Lookup::Repeated,
            };
        }
        i += 1;
    }
    proof {
        assert(members@.take(i as int) == members@);
    }
    found
}

/// What each outcome of a search says of the members of an object that
/// fits in memory: `Absent`, that none
/// has the name; `Once`, that the member at the index has it and no other;
/// `Repeated`, that two different members have it.
pub proof fn lemma_lookup_meaning(members: Seq<Member>, name: Seq<char>)
    requires
        members.len() <= usize::MAX,
    ensures
        match lookup(members, name) {
            Lookup::Absent => forall|i: int| !named(members, i, name),
            Lookup::Once(k) => named(members, k as int, name) && forall|i: int|
                named(members, i, name) ==> i == k,
            Lookup::Repeated => exists|i: int, j: int|
                i != j && named(members, i, name) && named(members, j, name),
        },
    decreases members.len(),
{
    if members.len() > 0 {
        let front = members.drop_last();
        let last = members.len() - 1;
        lemma_lookup_meaning(front, name);
        assert forall|i: int| named(front, i, name) implies named(members, i, name) by {}
        assert forall|i: int| named(members, i, name) && i != last implies named(
            front,
            i,
            name,
        ) by {}
        match lookup(front, name) {
            Lookup::Absent => {},
            Lookup::Once(k) => {
                if members.last().name@ == name {
                    assert(named(members, k as int, name) && named(members, last, name));
                }
            },
            Lookup::Repeated => {
                let (i, j) = choose|i: int, j: int|
                    i != j && named(front, i, name) && named(front, j, name);
                assert(named(members, i, name) && named(members, j, name));
            },
        }
    }
}

} // verus!
