//! A hash set of raw output scripts, kept in a `hashbrown::HashSet`.
use vstd::prelude::*;

verus! {

/// A set of raw output scripts.
///
/// The hashbrown set cannot be declared to Verus (its allocator bound is not
/// nameable), so it is held here and its contents are named by
/// `script_set_members`.
#[verifier::external_body]
pub struct ScriptSet {
    inner: hashbrown::HashSet<Vec<u8>>,
}

/// The scripts that a `ScriptSet` holds.
pub uninterp spec fn script_set_members(s: ScriptSet) -> Set<Seq<u8>>;

impl ScriptSet {
    /// Relies on `hashbrown::HashSet::new`: the new set holds nothing.
    #[verifier::external_body]
    pub(crate) fn new() -> (r: ScriptSet)
        ensures
            script_set_members(r) == Set::<Seq<u8>>::empty(),
    {
        ScriptSet { inner: hashbrown::HashSet::new() }
    }

    /// Relies on `hashbrown::HashSet::insert`: the script is added, and
    /// `true` comes back exactly when it was not held before.
    #[verifier::external_body]
    pub(crate) fn insert(&mut self, script: Vec<u8>) -> (r: bool)
        ensures
            script_set_members(*final(self)) == script_set_members(*old(self)).insert(script@),
            r == !script_set_members(*old(self)).contains(script@),
    {
        self.inner.insert(script)
    }

    /// Relies on `hashbrown::HashSet::contains`: membership of the script.
    #[verifier::external_body]
    pub(crate) fn contains(&self, script: &[u8]) -> (r: bool)
        ensures
            r == script_set_members(*self).contains(script@),
    {
        self.inner.contains(script)
    }

    /// Relies on `hashbrown::HashSet::len`: the number of scripts held.
    #[verifier::external_body]
    pub(crate) fn len(&self) -> (r: usize)
        ensures
            r == script_set_members(*self).len(),
    {
        self.inner.len()
    }
}

} // verus!
