use vstd::prelude::*;

verus! {

/// A JSON value as the thread schema reads it. Numbers that are not
/// unsigned integers (negative or fractional ones) are all `OtherNumber`:
/// no field of the schema accepts them.
#[derive(Debug, PartialEq)]
pub enum JsonValue {
    Null,
    Bool(bool),
    UInt(u64),
    OtherNumber,
    Str(String),
    Array(Vec<JsonValue>),
    Object(Vec<(String, JsonValue)>),
}

/// The value stored under `key` in an object's entries: the first entry
/// with that key wins.
#[verifier::opaque]
pub open spec fn lookup(entries: Seq<(String, JsonValue)>, key: Seq<char>) -> Option<JsonValue>
    decreases entries.len(),
{
    if entries.len() == 0 {
        None
    } else {
        let prior = lookup(entries.drop_last(), key);
        if prior is Some {
            prior
        } else if entries.last().0@ == key {
            Some(entries.last().1)
        } else {
            None
        }
    }
}

/// An object without entries holds no key.
pub proof fn lemma_lookup_empty()
    ensures
        forall|key: Seq<char>| #[trigger] lookup(Seq::<(String, JsonValue)>::empty(), key) is None,
{
    reveal(lookup);
}

/// Appending an entry leaves every earlier lookup alone and answers for its
/// key only where nothing earlier did.
pub proof fn lemma_lookup_push(entries: Seq<(String, JsonValue)>, e: (String, JsonValue), key: Seq<char>)
    ensures
        lookup(entries.push(e), key) == (if lookup(entries, key) is Some {
            lookup(entries, key)
        } else if e.0@ == key {
            Some(e.1)
        } else {
            None
        }),
{
    reveal(lookup);
    assert(entries.push(e).drop_last() =~= entries);
}

/// A lookup that succeeds on a prefix gives the same answer on the whole.
pub proof fn lemma_lookup_prefix(entries: Seq<(String, JsonValue)>, n: int, key: Seq<char>)
    requires
        0 <= n <= entries.len(),
        lookup(entries.subrange(0, n), key) is Some,
    ensures
        lookup(entries, key) == lookup(entries.subrange(0, n), key),
    decreases entries.len() - n,
{
    reveal(lookup);
    if n < entries.len() {
        let longer = entries.subrange(0, n + 1);
        assert(longer.drop_last() =~= entries.subrange(0, n));
        lemma_lookup_prefix(entries, n + 1, key);
    } else {
        assert(entries.subrange(0, n) =~= entries);
    }
}

/// The index of the entry that `lookup` answers from, if any.
pub fn find_entry(entries: &Vec<(String, JsonValue)>, key: &str) -> (r: Option<usize>)
    ensures
        r is None <==> lookup(entries@, key@) is None,
        r matches Some(i) ==> i < entries@.len() && lookup(entries@, key@) == Some(entries@[i as int].1),
{
    proof {
        reveal(lookup);
    }
    let wanted = key.to_owned();
    let mut i: usize = 0;
    while i < entries.len()
        invariant
            i <= entries@.len(),
            wanted@ == key@,
            lookup(entries@.subrange(0, i as int), key@) is None,
        decreases entries@.len() - i,
    {
        let ghost prefix = entries@.subrange(0, i as int + 1);
        proof {
            reveal(lookup);
            assert(prefix.drop_last() =~= entries@.subrange(0, i as int));
        }
        if entries[i].0 == wanted {
            proof {
                lemma_lookup_prefix(entries@, i as int + 1, key@);
            }
            return Some(i);
        }
        i = i + 1;
    }
    proof {
        assert(entries@.subrange(0, i as int) =~= entries@);
    }
    None
}

} // verus!
