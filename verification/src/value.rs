//! The language-neutral shape of values read back from the script engine.
//!
//! The engine's reserved response global is deserialized (outside this
//! library) into this shape, which keeps exactly what the response path
//! reads: unsigned integers, strings, string-keyed objects.  Every other
//! script value (null, booleans, other numbers, arrays) only matters as
//! "not one of these", and is collapsed into `Other`.

use vstd::prelude::*;

verus! {

/// One value produced by the script, as the host reads it.
pub enum ScriptValue {
    /// A number that is an unsigned integer.
    Uns(u64),
    /// A string.
    Text(String),
    /// A string-keyed object, entries in their original order.
    Obj(Vec<(String, ScriptValue)>),
    /// Any other value: null, a boolean, a negative or fractional number,
    /// an array.
    Other,
}

/// The first entry of `entries` whose key reads as `key`, if any.
pub open spec fn spec_lookup(entries: Seq<(String, ScriptValue)>, key: Seq<char>) -> Option<
    ScriptValue,
>
    decreases entries.len(),
{
    if entries.len() == 0 {
        None
    } else if entries[0].0@ == key {
        Some(entries[0].1)
    } else {
        spec_lookup(entries.drop_first(), key)
    }
}

/// Finds the first entry of `entries` whose key equals `key`, returning
/// its index.
pub fn lookup_index(entries: &Vec<(String, ScriptValue)>, key: &String) -> (r: Option<usize>)
    ensures
        match r {
            Some(i) => i < entries@.len() && entries@[i as int].0@ == key@ && spec_lookup(
                entries@,
                key@,
            ) == Some(entries@[i as int].1) && (forall|j: int|
                0 <= j < i ==> entries@[j].0@ != key@),
            None => spec_lookup(entries@, key@) is None,
        },
{
    let n: usize = entries.len();
    let mut i: usize = 0;
    proof {
        assert(entries@.subrange(0, n as int) =~= entries@);
    }
    while i < n
        invariant
            n == entries@.len(),
            i <= n,
            spec_lookup(entries@, key@) == spec_lookup(entries@.subrange(i as int, n as int), key@),
            forall|j: int| 0 <= j < i ==> entries@[j].0@ != key@,
        decreases n - i,
    {
        if entries[i].0 == *key {
            proof {
                assert(entries@.subrange(i as int, n as int)[0] == entries@[i as int]);
            }
            return Some(i);
        }
        proof {
            assert(entries@.subrange(i as int, n as int).drop_first() =~= entries@.subrange(
                i + 1 as int,
                n as int,
            ));
        }
        i = i + 1;
    }
    proof {
        assert(entries@.subrange(n as int, n as int).len() == 0);
    }
    None
}

} // verus!
