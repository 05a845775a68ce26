//! Operator configuration: the table of type overrides.
use crate::text::same_text;
use vstd::prelude::*;

verus! {

/// The value stored under `k` in a list of entries: the first entry whose
/// key is `k` wins.
pub open spec fn lookup(entries: Seq<(String, String)>, k: Seq<char>) -> Option<Seq<char>>
    decreases entries.len(),
{
    if entries.len() == 0 {
        None
    } else if entries[0].0@ == k {
        Some(entries[0].1@)
    } else {
        lookup(entries.drop_first(), k)
    }
}

/// A dictionary from a canonical Rust type path (`java::lang::String`) to the
/// type text that replaces it.
pub struct Mapping {
    entries: Vec<(String, String)>,
}

impl Mapping {
    /// The override stored for the path `k`, if any.
    pub closed spec fn spec_get(&self, k: Seq<char>) -> Option<Seq<char>> {
        lookup(self.entries@, k)
    }

    /// An empty table.
    pub fn new() -> (r: Self)
        ensures
            forall|k: Seq<char>| r.spec_get(k) is None,
    {
        Mapping { entries: Vec::new() }
    }

    /// Stores `value` under `key`, replacing what was stored there.
    pub fn insert(&mut self, key: String, value: String)
        ensures
            final(self).spec_get(key@) == Some(value@),
            forall|k: Seq<char>| k != key@ ==> final(self).spec_get(k) == old(self).spec_get(k),
    {
        let ghost before = self.entries@;
        self.entries.insert(0, (key, value));
        assert(self.entries@.drop_first() =~= before);
    }

    /// The override stored for the path `key`, if any.
    pub fn get(&self, key: &str) -> (r: Option<String>)
        ensures
            r is Some <==> self.spec_get(key@) is Some,
            r matches Some(v) ==> self.spec_get(key@) == Some(v@),
    {
        let n = self.entries.len();
        let mut i: usize = 0;
        assert(self.entries@.subrange(0, n as int) =~= self.entries@);
        while i < n
            invariant
                n == self.entries@.len(),
                i <= n,
                lookup(self.entries@, key@) == lookup(self.entries@.subrange(i as int, n as int), key@),
            decreases n - i,
        {
            let ghost rest = self.entries@.subrange(i as int, n as int);
            assert(rest[0] == self.entries@[i as int]);
            if same_text(self.entries[i].0.as_str(), key) {
                return Some(self.entries[i].1.clone());
            }
            assert(rest.drop_first() =~= self.entries@.subrange(i + 1, n as int));
            i = i + 1;
        }
        None
    }
}

/// Settings of the generator.
pub struct Generator {
    /// Overrides from a canonical Rust type path to the type text used in
    /// its place.
    pub mappings: Mapping,
}

/// The whole configuration.
pub struct Config {
    pub generator: Generator,
}

impl Config {
    /// A configuration with an empty override table.
    pub fn empty() -> (r: Self)
        ensures
            forall|k: Seq<char>| r.generator.mappings.spec_get(k) is None,
    {
        Config { generator: Generator { mappings: Mapping::new() } }
    }
}

} // verus!
