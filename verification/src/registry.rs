//! The registry: an immutable mapping from logical name to expected
//! digest and compression kind, the single source of truth for which
//! names are valid.

use vstd::prelude::*;

use crate::test_file::TestFile;

verus! {

/// The set of retrievable assets. Entries are supplied at construction
/// and never change afterwards.
pub struct Registry {
    entries: Vec<TestFile>,
}

/// The first entry of `entries` whose name reads `name`, if any.
pub open spec fn spec_lookup(entries: Seq<TestFile>, name: Seq<char>) -> Option<TestFile>
    decreases entries.len(),
{
    if entries.len() == 0 {
        None
    } else if entries[0].name@ == name {
        Some(entries[0])
    } else {
        spec_lookup(entries.drop_first(), name)
    }
}

/// Does some entry of `entries` carry the name `name`?
pub open spec fn spec_contains_name(entries: Seq<TestFile>, name: Seq<char>) -> bool {
    exists|i: int| 0 <= i < entries.len() && entries[i].name@ == name
}

/// A lookup succeeds exactly on the registered names.
pub proof fn lemma_lookup_some_iff_contains(entries: Seq<TestFile>, name: Seq<char>)
    ensures
        spec_lookup(entries, name) is Some <==> spec_contains_name(entries, name),
    decreases entries.len(),
{
    if entries.len() > 0 {
        if entries[0].name@ == name {
            assert(spec_contains_name(entries, name));
        } else {
            lemma_lookup_some_iff_contains(entries.drop_first(), name);
            if spec_contains_name(entries.drop_first(), name) {
                let i = choose|i: int|
                    0 <= i < entries.drop_first().len() && entries.drop_first()[i].name@ == name;
                assert(entries[i + 1].name@ == name);
            } else if spec_contains_name(entries, name) {
                let i = choose|i: int| 0 <= i < entries.len() && entries[i].name@ == name;
                assert(entries.drop_first()[i - 1].name@ == name);
            }
        }
    }
}

impl View for Registry {
    type V = Seq<TestFile>;

    closed spec fn view(&self) -> Seq<TestFile> {
        self.entries@
    }
}

impl Registry {
    /// Build a registry from its entries.
    pub fn new(entries: Vec<TestFile>) -> (r: Self)
        ensures
            r@ == entries@,
    {
        Registry { entries }
    }

    /// How many assets are registered.
    pub fn len(&self) -> (r: usize)
        ensures
            r == self@.len(),
    {
        self.entries.len()
    }

    /// The first registered entry named `name`, if any.
    pub fn lookup(&self, name: &str) -> (r: Option<&TestFile>)
        ensures
            (r matches Some(t) ==> spec_lookup(self@, name@) == Some(*t)),
            (r matches Some(t) ==> t.name@ == name@),
            (r is Some) == spec_contains_name(self@, name@),
    {
        let needle: String = name.to_owned();
        let n = self.entries.len();
        proof {
            assert(self@.skip(0) =~= self@);
        }
        let mut i: usize = 0;
        while i < n
            invariant
                n == self@.len(),
                i <= n,
                needle@ == name@,
                spec_lookup(self@, name@) == spec_lookup(self@.skip(i as int), name@),
                forall|j: int| 0 <= j < i ==> self@[j].name@ != name@,
            decreases n - i,
        {
            if self.entries[i].name.eq(&needle) {
                proof {
                    assert(self@.skip(i as int)[0] == self@[i as int]);
                    lemma_lookup_some_iff_contains(self@, name@);
                }
                return Some(&self.entries[i]);
            }
            proof {
                assert(self@.skip(i as int).drop_first() =~= self@.skip(i + 1));
                assert(self@.skip(i as int)[0] == self@[i as int]);
            }
            i = i + 1;
        }
        proof {
            assert(self@.skip(n as int).len() == 0);
            if spec_contains_name(self@, name@) {
                let j = choose|j: int| 0 <= j < self@.len() && self@[j].name@ == name@;
                assert(self@[j].name@ != name@);
            }
        }
        None
    }

    /// The names of all registered assets, in registry order.
    pub fn all_names(&self) -> (r: Vec<String>)
        ensures
            r@.len() == self@.len(),
            forall|i: int| 0 <= i < r@.len() ==> r@[i]@ == self@[i].name@,
    {
        let mut v: Vec<String> = Vec::new();
        let mut i: usize = 0;
        while i < self.entries.len()
            invariant
                i <= self@.len(),
                v@.len() == i,
                forall|j: int| 0 <= j < i ==> v@[j]@ == self@[j].name@,
            decreases self@.len() - i,
        {
            v.push(self.entries[i].name.clone());
            i = i + 1;
        }
        v
    }
}

} // verus!
