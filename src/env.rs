use vstd::prelude::*;
use crate::strings::str_eq;

verus! {

/// The value bound to `key` in a list of bindings: the last binding of a key wins.
pub open spec fn binding_of(entries: Seq<(String, String)>, key: Seq<char>) -> Option<Seq<char>>
    decreases entries.len(),
{
    if entries.len() == 0 {
        None
    } else if entries.last().0@ == key {
        Some(entries.last().1@)
    } else {
        binding_of(entries.drop_last(), key)
    }
}

/// A snapshot of environment variables handed in by the caller.
pub struct Env {
    entries: Vec<(String, String)>,
}

impl Env {
    /// The value of the variable `key`, if it is set.
    pub closed spec fn lookup(&self, key: Seq<char>) -> Option<Seq<char>> {
        binding_of(self.entries@, key)
    }

    /// An environment in which no variable is set.
    pub fn new() -> (r: Env)
        ensures
            forall|k: Seq<char>| r.lookup(k) is None,
    {
        Env { entries: Vec::new() }
    }

    /// Sets `key` to `value`, replacing an earlier value of `key`.
    pub fn set(&mut self, key: String, value: String)
        ensures
            final(self).lookup(key@) == Some(value@),
            forall|k: Seq<char>| k != key@ ==> final(self).lookup(k) == old(self).lookup(k),
    {
        let ghost before = self.entries@;
        let ghost k0 = key@;
        let ghost v0 = value@;
        self.entries.push((key, value));
        assert(self.entries@.drop_last() =~= before);
        assert(self.entries@.last().0@ == k0 && self.entries@.last().1@ == v0);
    }

    /// The value of the variable `key`, if it is set.
    pub fn get(&self, key: &str) -> (r: Option<&String>)
        ensures
            match r {
                Some(v) => self.lookup(key@) == Some(v@),
                None => self.lookup(key@) is None,
            },
    {
        let mut i: usize = self.entries.len();
        assert(self.entries@.subrange(0, i as int) =~= self.entries@);
        while i > 0
            invariant
                i <= self.entries@.len(),
                binding_of(self.entries@, key@) == binding_of(self.entries@.subrange(0, i as int), key@),
            decreases i,
        {
            let ghost prefix = self.entries@.subrange(0, i as int);
            assert(prefix.drop_last() =~= self.entries@.subrange(0, i - 1));
            if str_eq(self.entries[i - 1].0.as_str(), key) {
                return Some(&self.entries[i - 1].1);
            }
            i = i - 1;
        }
        None
    }
}

} // verus!
