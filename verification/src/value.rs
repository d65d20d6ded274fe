//! The host's message-codec values, as far as this service reads or writes
//! them: request payloads arrive as maps, replies carry a string or null.

use vstd::prelude::*;

verus! {

/// One value of the host's message codec. A request's arguments are a `Dict`;
/// a success reply carries a `Str` (the chosen path) or `Null` (no
/// selection).
#[derive(Debug, PartialEq)]
pub enum MessageValue {
    Null,
    Bool(bool),
    I64(i64),
    Str(String),
    List(Vec<MessageValue>),
    Dict(Vec<(String, MessageValue)>),
}

/// The value stored under `key`, taking the first entry with that key, or
/// `None` when no entry has it.
pub open spec fn find_key(entries: Seq<(String, MessageValue)>, key: Seq<char>) -> Option<
    MessageValue,
>
    decreases entries.len(),
{
    if entries.len() == 0 {
        None
    } else if entries[0].0@ == key {
        Some(entries[0].1)
    } else {
        find_key(entries.skip(1), key)
    }
}

/// Looks `key` up among `entries`, returning the value of the first entry
/// whose key matches.
pub fn lookup_key<'a>(entries: &'a Vec<(String, MessageValue)>, key: &str) -> (r: Option<
    &'a MessageValue,
>)
    ensures
        match r {
            Some(v) => find_key(entries@, key@) == Some(*v),
            None => find_key(entries@, key@) is None,
        },
{
    let wanted: String = key.to_owned();
    let n = entries.len();
    let mut i: usize = 0;
    proof {
        assert(entries@.skip(0) =~= entries@);
    }
    while i < n
        invariant
            n == entries@.len(),
            i <= n,
            wanted@ == key@,
            find_key(entries@, key@) == find_key(entries@.skip(i as int), key@),
        decreases n - i,
    {
        proof {
            assert(entries@.skip(i as int)[0] == entries@[i as int]);
            assert(entries@.skip(i as int).skip(1) =~= entries@.skip(i as int + 1));
        }
        let entry = &entries[i];
        if entry.0 == wanted {
            return Some(&entry.1);
        }
        i = i + 1;
    }
    proof {
        assert(entries@.skip(n as int) =~= Seq::<(String, MessageValue)>::empty());
    }
    None
}

} // verus!
