//! The function registry: per-module name-to-callable tables composed
//! into one cascading lookup, fixed at registration order. The registry
//! is built once at startup and only ever read afterwards.

use vstd::prelude::*;

verus! {

/// First-match lookup of a name over a module's entries.
pub open spec fn spec_table_lookup<C>(entries: Seq<(String, C)>, name: Seq<char>) -> Option<C>
    decreases entries.len(),
{
    if entries.len() == 0 {
        None
    } else if entries[0].0@ == name {
        Some(entries[0].1)
    } else {
        spec_table_lookup(entries.skip(1), name)
    }
}

proof fn lemma_table_lookup_skip<C>(entries: Seq<(String, C)>, name: Seq<char>, i: int)
    requires
        0 <= i <= entries.len(),
        forall|j: int| 0 <= j < i ==> entries[j].0@ != name,
    ensures
        spec_table_lookup(entries, name) == spec_table_lookup(entries.skip(i), name),
    decreases i,
{
    if i > 0 {
        assert(forall|j: int|
            0 <= j < i - 1 ==> #[trigger] entries.skip(1)[j].0@ == entries[j + 1].0@);
        lemma_table_lookup_skip(entries.skip(1), name, i - 1);
        assert(entries.skip(1).skip(i - 1) =~= entries.skip(i));
    } else {
        assert(entries.skip(0) =~= entries);
    }
}

/// One built-in module: an ordered table from function name to
/// callable.
#[derive(Debug, PartialEq, Eq)]
pub struct Module<C> {
    entries: Vec<(String, C)>,
}

impl<C> Module<C> {
    /// The module's entries, in definition order.
    pub closed spec fn spec_entries(&self) -> Seq<(String, C)> {
        self.entries@
    }

    /// The callable the module defines under a name, if any.
    pub open spec fn spec_lookup(&self, name: Seq<char>) -> Option<C> {
        spec_table_lookup(self.spec_entries(), name)
    }

    /// An empty module.
    pub fn new() -> (r: Module<C>)
        ensures
            r.spec_entries() == Seq::<(String, C)>::empty(),
    {
        Module { entries: Vec::new() }
    }

    /// Defines one more function, after all defined so far.
    pub fn define(&mut self, name: String, callable: C)
        ensures
            final(self).spec_entries() == old(self).spec_entries().push((name, callable)),
    {
        self.entries.push((name, callable));
    }

    /// Looks a name up in this module, first match first.
    pub fn lookup<'a>(&'a self, name: &str) -> (r: Option<&'a C>)
        ensures
            match r {
                Some(c) => self.spec_lookup(name@) == Some(*c),
                None => self.spec_lookup(name@) is None,
            },
    {
        let name_owned = name.to_owned();
        let ghost entries = self.entries@;
        let mut i: usize = 0;
        while i < self.entries.len()
            invariant
                0 <= i <= entries.len(),
                entries == self.entries@,
                name_owned@ == name@,
                forall|j: int| 0 <= j < i ==> entries[j].0@ != name@,
            decreases entries.len() - i,
        {
            if self.entries[i].0.eq(&name_owned) {
                proof {
                    lemma_table_lookup_skip(entries, name@, i as int);
                    assert(entries.skip(i as int)[0] == entries[i as int]);
                }
                return Some(&self.entries[i].1);
            }
            i = i + 1;
        }
        proof {
            lemma_table_lookup_skip(entries, name@, i as int);
            assert(entries.skip(i as int).len() == 0);
        }
        None
    }
}

/// The cascading lookup over the registered modules: left to right,
/// first match wins.
pub open spec fn spec_cascade_lookup<C>(modules: Seq<Module<C>>, name: Seq<char>) -> Option<C>
    decreases modules.len(),
{
    if modules.len() == 0 {
        None
    } else {
        match modules[0].spec_lookup(name) {
            Some(c) => Some(c),
            None => spec_cascade_lookup(modules.skip(1), name),
        }
    }
}

proof fn lemma_cascade_lookup_skip<C>(modules: Seq<Module<C>>, name: Seq<char>, i: int)
    requires
        0 <= i <= modules.len(),
        forall|j: int| 0 <= j < i ==> modules[j].spec_lookup(name) is None,
    ensures
        spec_cascade_lookup(modules, name) == spec_cascade_lookup(modules.skip(i), name),
    decreases i,
{
    if i > 0 {
        assert(forall|j: int|
            0 <= j < i - 1 ==> #[trigger] modules.skip(1)[j] == modules[j + 1]);
        lemma_cascade_lookup_skip(modules.skip(1), name, i - 1);
        assert(modules.skip(1).skip(i - 1) =~= modules.skip(i));
    } else {
        assert(modules.skip(0) =~= modules);
    }
}

/// The process-wide registry: all modules' lookups composed in
/// registration order. There is no duplicate-name detection: a name
/// defined in two modules resolves to whichever module was registered
/// earlier.
#[derive(Debug, PartialEq, Eq)]
pub struct Registry<C> {
    modules: Vec<Module<C>>,
}

impl<C> Registry<C> {
    /// The registered modules, in registration order.
    pub closed spec fn spec_modules(&self) -> Seq<Module<C>> {
        self.modules@
    }

    /// The callable the composed lookup resolves a name to, if any.
    pub open spec fn spec_lookup(&self, name: Seq<char>) -> Option<C> {
        spec_cascade_lookup(self.spec_modules(), name)
    }

    /// An empty registry.
    pub fn new() -> (r: Registry<C>)
        ensures
            r.spec_modules() == Seq::<Module<C>>::empty(),
    {
        Registry { modules: Vec::new() }
    }

    /// Registers one more module, after all registered so far.
    pub fn register(&mut self, module: Module<C>)
        ensures
            final(self).spec_modules() == old(self).spec_modules().push(module),
    {
        self.modules.push(module);
    }

    /// Resolves a function name through the cascade, left to right,
    /// first match first.
    pub fn lookup<'a>(&'a self, name: &str) -> (r: Option<&'a C>)
        ensures
            match r {
                Some(c) => self.spec_lookup(name@) == Some(*c),
                None => self.spec_lookup(name@) is None,
            },
    {
        let ghost modules = self.modules@;
        let mut i: usize = 0;
        while i < self.modules.len()
            invariant
                0 <= i <= modules.len(),
                modules == self.modules@,
                forall|j: int| 0 <= j < i ==> modules[j].spec_lookup(name@) is None,
            decreases modules.len() - i,
        {
            let found = self.modules[i].lookup(name);
            match found {
                Some(c) => {
                    proof {
                        lemma_cascade_lookup_skip(modules, name@, i as int);
                        assert(modules.skip(i as int)[0] == modules[i as int]);
                    }
                    return Some(c);
                },
                None => {},
            }
            i = i + 1;
        }
        proof {
            lemma_cascade_lookup_skip(modules, name@, i as int);
            assert(modules.skip(i as int).len() == 0);
        }
        None
    }
}

/// First match wins: when a module defines a name and every module
/// registered before it does not, the composed lookup resolves the name
/// to that module's callable — in particular, with two modules that
/// both define a name, registered one after the other, the earlier
/// module's callable is returned.
pub proof fn lemma_cascade_first_match<C>(modules: Seq<Module<C>>, name: Seq<char>, i: int)
    requires
        0 <= i < modules.len(),
        modules[i].spec_lookup(name) is Some,
        forall|j: int| 0 <= j < i ==> modules[j].spec_lookup(name) is None,
    ensures
        spec_cascade_lookup(modules, name) == modules[i].spec_lookup(name),
{
    lemma_cascade_lookup_skip(modules, name, i);
    assert(modules.skip(i)[0] == modules[i]);
}

} // verus!
