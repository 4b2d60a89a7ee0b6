//! The per-call register: the named and positional arguments of one
//! built-in invocation. A register is created fresh for each call, is
//! only ever read afterwards, and is discarded when the call returns.

use vstd::prelude::*;

use crate::value::ContextType;
use crate::value::NaslValue;

verus! {

/// First-match lookup of a key over a sequence of named entries.
pub open spec fn spec_named_entry(entries: Seq<(String, ContextType)>, key: Seq<char>) -> Option<
    ContextType,
>
    decreases entries.len(),
{
    if entries.len() == 0 {
        None
    } else if entries[0].0@ == key {
        Some(entries[0].1)
    } else {
        spec_named_entry(entries.skip(1), key)
    }
}

/// If none of the first `i` entries carries the key, the lookup over the
/// whole sequence equals the lookup over the rest.
proof fn lemma_named_entry_skip(entries: Seq<(String, ContextType)>, key: Seq<char>, i: int)
    requires
        0 <= i <= entries.len(),
        forall|j: int| 0 <= j < i ==> entries[j].0@ != key,
    ensures
        spec_named_entry(entries, key) == spec_named_entry(entries.skip(i), key),
    decreases i,
{
    if i > 0 {
        assert(entries.skip(1).len() == entries.len() - 1);
        assert(forall|j: int|
            0 <= j < i - 1 ==> #[trigger] entries.skip(1)[j].0@ == entries[j + 1].0@);
        lemma_named_entry_skip(entries.skip(1), key, i - 1);
        assert(entries.skip(1).skip(i - 1) =~= entries.skip(i));
    } else {
        assert(entries.skip(0) =~= entries);
    }
}

/// The arguments of one call: named entries, looked up first-match, and
/// the ordered positional values.
#[derive(Debug, PartialEq, Eq)]
pub struct Register {
    named: Vec<(String, ContextType)>,
    positional: Vec<NaslValue>,
}

impl Register {
    /// The named entries, in the order they were given.
    pub closed spec fn spec_named_entries(&self) -> Seq<(String, ContextType)> {
        self.named@
    }

    /// The positional values, in order.
    pub closed spec fn spec_positional(&self) -> Seq<NaslValue> {
        self.positional@
    }

    /// The entry stored under a name, if any.
    pub open spec fn spec_named(&self, key: Seq<char>) -> Option<ContextType> {
        spec_named_entry(self.spec_named_entries(), key)
    }

    /// Builds the register for one call site from the already-evaluated
    /// named and positional arguments.
    pub fn new(named: Vec<(String, ContextType)>, positional: Vec<NaslValue>) -> (r: Register)
        ensures
            r.spec_named_entries() == named@,
            r.spec_positional() == positional@,
    {
        Register { named, positional }
    }

    /// Looks a named argument up, first match first.
    pub fn named<'a>(&'a self, key: &str) -> (r: Option<&'a ContextType>)
        ensures
            match r {
                Some(entry) => self.spec_named(key@) == Some(*entry),
                None => self.spec_named(key@) is None,
            },
    {
        let key_owned = key.to_owned();
        let ghost entries = self.named@;
        let mut i: usize = 0;
        while i < self.named.len()
            invariant
                0 <= i <= entries.len(),
                entries == self.named@,
                key_owned@ == key@,
                forall|j: int| 0 <= j < i ==> entries[j].0@ != key@,
            decreases entries.len() - i,
        {
            if self.named[i].0.eq(&key_owned) {
                proof {
                    lemma_named_entry_skip(entries, key@, i as int);
                    assert(entries.skip(i as int)[0] == entries[i as int]);
                }
                return Some(&self.named[i].1);
            }
            i = i + 1;
        }
        proof {
            lemma_named_entry_skip(entries, key@, i as int);
            assert(entries.skip(i as int).len() == 0);
        }
        None
    }

    /// The positional arguments, in order.
    pub fn positional(&self) -> (r: &Vec<NaslValue>)
        ensures
            r@ == self.spec_positional(),
    {
        &self.positional
    }

    /// How many positional arguments the call carries.
    pub fn positional_len(&self) -> (r: usize)
        ensures
            r == self.spec_positional().len(),
    {
        self.positional.len()
    }
}

} // verus!
