//! The unspent-output set: raw output scripts loaded once from a snapshot,
//! then queried for membership.
use vstd::prelude::*;

use crate::script_set::{script_set_members, ScriptSet};

verus! {

/// Where a set stands in its single load.
#[derive(Debug, Clone, Copy, PartialEq, Eq, Structural)]
pub enum UspkSetStatus {
    Empty,
    Populating,
    Ready,
}

/// Why a load could not begin or did not complete.
#[derive(Debug, Clone, Copy, PartialEq, Eq, Structural)]
pub enum LoadError {
    /// The snapshot file is not where it was expected.
    NoSnapshotFile,
    /// The snapshot is malformed or truncated.
    SnapshotDecodeError,
    /// A load of this set is already running.
    LoadInProgress,
    /// This set was already loaded; a reload builds a fresh set.
    AlreadyLoaded,
}

/// The scripts of every unspent output of a snapshot.
pub struct UnspentScriptPubKeysSet {
    set: ScriptSet,
    status: UspkSetStatus,
}

impl View for UnspentScriptPubKeysSet {
    type V = Set<Seq<u8>>;

    closed spec fn view(&self) -> Set<Seq<u8>> {
        script_set_members(self.set)
    }
}

impl UnspentScriptPubKeysSet {
    /// The status of the set, as a spec value.
    pub closed spec fn status_spec(&self) -> UspkSetStatus {
        self.status
    }

    /// The set holds finitely many scripts, and none before a load begins.
    pub closed spec fn wf(&self) -> bool {
        &&& self@.finite()
        &&& self.status == UspkSetStatus::Empty ==> self@.is_empty()
    }

    /// A set with no scripts, whose load has not begun.
    pub fn new() -> (r: Self)
        ensures
            r.wf(),
            r@ == Set::<Seq<u8>>::empty(),
            r.status_spec() == UspkSetStatus::Empty,
    {
        UnspentScriptPubKeysSet { set: ScriptSet::new(), status: UspkSetStatus::Empty }
    }

    pub fn get_status(&self) -> (r: UspkSetStatus)
        ensures
            r == self.status_spec(),
    {
        self.status
    }

    /// Whether the set holds no script.
    pub fn is_empty(&self) -> (r: bool)
        requires
            self.wf(),
        ensures
            r == (self@.len() == 0),
    {
        self.set.len() == 0
    }

    /// The number of distinct scripts held.
    pub fn len(&self) -> (r: usize)
        requires
            self.wf(),
        ensures
            r == self@.len(),
    {
        self.set.len()
    }

    /// Whether `script` is the script of some unspent output.
    pub fn contains(&self, script: &[u8]) -> (r: bool)
        ensures
            r == self@.contains(script@),
    {
        self.set.contains(script)
    }

    /// Starts the load: `Empty` becomes `Populating`. A set that is loading or
    /// loaded is left as it is.
    pub fn begin_populating(&mut self) -> (r: Result<(), LoadError>)
        requires
            old(self).wf(),
        ensures
            final(self).wf(),
            final(self)@ == old(self)@,
            old(self).status_spec() == UspkSetStatus::Empty ==> r == Ok::<(), LoadError>(())
                && final(self).status_spec() == UspkSetStatus::Populating,
            old(self).status_spec() == UspkSetStatus::Populating ==> r == Err::<(), LoadError>(
                LoadError::LoadInProgress,
            ) && final(self).status_spec() == UspkSetStatus::Populating,
            old(self).status_spec() == UspkSetStatus::Ready ==> r == Err::<(), LoadError>(
                LoadError::AlreadyLoaded,
            ) && final(self).status_spec() == UspkSetStatus::Ready,
    {
        match self.status {
            UspkSetStatus::Empty => {
                self.status = UspkSetStatus::Populating;
                Ok(())
            },
            UspkSetStatus::Populating => Err(LoadError::LoadInProgress),
            UspkSetStatus::Ready => Err(LoadError::AlreadyLoaded),
        }
    }

    /// Adds the script of one snapshot record to a set that is loading.
    pub fn insert_script(&mut self, script: Vec<u8>)
        requires
            old(self).wf(),
            old(self).status_spec() == UspkSetStatus::Populating,
        ensures
            final(self).wf(),
            final(self)@ == old(self)@.insert(script@),
            final(self).status_spec() == UspkSetStatus::Populating,
    {
        self.set.insert(script);
    }

    /// Ends a load that ran to the end of the snapshot or was cancelled: the
    /// scripts gathered so far stay, and the set is `Ready`.
    pub fn finish_populating(&mut self)
        requires
            old(self).wf(),
            old(self).status_spec() == UspkSetStatus::Populating,
        ensures
            final(self).wf(),
            final(self)@ == old(self)@,
            final(self).status_spec() == UspkSetStatus::Ready,
    {
        self.status = UspkSetStatus::Ready;
    }

    /// Ends a load that failed: the set is emptied and back to `Empty`, so
    /// that the load can be tried again.
    pub fn fail_populating(&mut self)
        ensures
            final(self).wf(),
            final(self)@ == Set::<Seq<u8>>::empty(),
            final(self).status_spec() == UspkSetStatus::Empty,
    {
        self.set = ScriptSet::new();
        self.status = UspkSetStatus::Empty;
    }
}

impl Default for UnspentScriptPubKeysSet {
    fn default() -> (r: Self)
        ensures
            r.wf(),
            r@ == Set::<Seq<u8>>::empty(),
            r.status_spec() == UspkSetStatus::Empty,
    {
        Self::new()
    }
}

} // verus!
