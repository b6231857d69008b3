//! The recording registry: the mapping from caller-assigned recording
//! ids to live subprocess handles. The runner holds the OS processes;
//! here each is an opaque handle token, and every decision about who is
//! registered, inserted or removed is made and proved over a map model.
//!
//! An id is removed exactly once: a stop that finds the handle leaves
//! the registry without the id, so a duplicate stop reports not-found.

use vstd::prelude::*;

use crate::types::ErrorEnvelope;

verus! {

/// One live recording: the caller-assigned id and the runner's token
/// for the subprocess it spawned.
#[derive(Debug)]
pub struct RecordingEntry {
    pub id: String,
    pub handle: u64,
}

/// No two entries share an id.
pub open spec fn unique_ids(es: Seq<RecordingEntry>) -> bool {
    forall|i: int, j: int| 0 <= i < j < es.len() ==> es[i].id@ != es[j].id@
}

/// The entries read as a map from id to handle.
pub open spec fn entries_map(es: Seq<RecordingEntry>) -> Map<Seq<char>, u64>
    decreases es.len(),
{
    if es.len() == 0 {
        Map::empty()
    } else {
        entries_map(es.drop_last()).insert(es.last().id@, es.last().handle)
    }
}

/// An id is in the map exactly when some entry carries it.
pub proof fn lemma_entries_map_contains(es: Seq<RecordingEntry>, x: Seq<char>)
    ensures
        entries_map(es).contains_key(x) <==> (exists|k: int|
            0 <= k < es.len() && es[k].id@ == x),
    decreases es.len(),
{
    if es.len() > 0 {
        lemma_entries_map_contains(es.drop_last(), x);
        if es.last().id@ == x {
            assert(es[es.len() - 1].id@ == x);
        } else if entries_map(es).contains_key(x) {
            let k = choose|k: int| 0 <= k < es.drop_last().len() && es.drop_last()[k].id@ == x;
            assert(es[k].id@ == x);
        } else {
            if exists|k: int| 0 <= k < es.len() && es[k].id@ == x {
                let k = choose|k: int| 0 <= k < es.len() && es[k].id@ == x;
                assert(es.drop_last()[k].id@ == x);
            }
        }
    }
}

/// With unique ids, each entry's handle is what the map holds for it.
pub proof fn lemma_entries_map_index(es: Seq<RecordingEntry>, k: int)
    requires
        unique_ids(es),
        0 <= k < es.len(),
    ensures
        entries_map(es).contains_key(es[k].id@),
        entries_map(es)[es[k].id@] == es[k].handle,
    decreases es.len(),
{
    if k < es.len() - 1 {
        assert(forall|i: int|
            0 <= i < es.drop_last().len() ==> es.drop_last()[i] == #[trigger] es[i]);
        assert(unique_ids(es.drop_last()));
        lemma_entries_map_index(es.drop_last(), k);
        assert(es[k].id@ != es.last().id@);
    }
}

/// With unique ids, removing entry `k` removes exactly its id from the map.
pub proof fn lemma_entries_map_remove(es: Seq<RecordingEntry>, k: int)
    requires
        unique_ids(es),
        0 <= k < es.len(),
    ensures
        entries_map(es.remove(k)) =~= entries_map(es).remove(es[k].id@),
    decreases es.len(),
{
    assert(forall|i: int| 0 <= i < es.drop_last().len() ==> es.drop_last()[i] == #[trigger] es[i]);
    assert(unique_ids(es.drop_last()));
    if k == es.len() - 1 {
        assert(es.remove(k) =~= es.drop_last());
        assert(!entries_map(es.drop_last()).contains_key(es[k].id@)) by {
            lemma_entries_map_contains(es.drop_last(), es[k].id@);
        }
        assert(entries_map(es.drop_last()).insert(es.last().id@, es.last().handle).remove(
            es[k].id@,
        ) =~= entries_map(es.drop_last()));
    } else {
        lemma_entries_map_remove(es.drop_last(), k);
        assert(es.remove(k).drop_last() =~= es.drop_last().remove(k));
        assert(es.remove(k).last() == es.last());
        assert(es[k].id@ != es.last().id@);
        assert(es[k] == es.drop_last()[k]);
        assert(entries_map(es.drop_last()).remove(es[k].id@).insert(
            es.last().id@,
            es.last().handle,
        ) =~= entries_map(es.drop_last()).insert(es.last().id@, es.last().handle).remove(
            es[k].id@,
        ));
    }
}

/// The registry of live recordings. The map it models is the only
/// shared mutable state of the core; the runner serializes access.
#[derive(Debug)]
pub struct RecordingRegistry {
    pub entries: Vec<RecordingEntry>,
}

impl View for RecordingRegistry {
    type V = Map<Seq<char>, u64>;

    open spec fn view(&self) -> Map<Seq<char>, u64> {
        entries_map(self.entries@)
    }
}

impl RecordingRegistry {
    /// Ids stay unique, so the entry list and the map agree.
    pub open spec fn wf(self) -> bool {
        unique_ids(self.entries@)
    }

    /// An empty registry.
    pub fn new() -> (r: Self)
        ensures
            r.wf(),
            r@ == Map::<Seq<char>, u64>::empty(),
    {
        RecordingRegistry { entries: Vec::new() }
    }

    /// Whether an id is currently registered.
    pub fn contains(&self, id: &String) -> (r: bool)
        requires
            self.wf(),
        ensures
            r == self@.contains_key(id@),
    {
        let n = self.entries.len();
        let mut i: usize = 0;
        while i < n
            invariant
                n == self.entries@.len(),
                0 <= i <= n,
                forall|j: int| 0 <= j < i ==> self.entries@[j].id@ != id@,
            decreases n - i,
        {
            if self.entries[i].id == *id {
                proof {
                    lemma_entries_map_contains(self.entries@, id@);
                }
                return true;
            }
            i = i + 1;
        }
        proof {
            lemma_entries_map_contains(self.entries@, id@);
        }
        false
    }

    /// Remove an id, handing back its handle when it was registered.
    pub fn remove(&mut self, id: &String) -> (r: Option<u64>)
        requires
            old(self).wf(),
        ensures
            final(self).wf(),
            final(self)@ == old(self)@.remove(id@),
            r == (if old(self)@.contains_key(id@) {
                Some(old(self)@[id@])
            } else {
                None::<u64>
            }),
    {
        let n = self.entries.len();
        let mut i: usize = 0;
        while i < n
            invariant
                n == self.entries@.len(),
                self.wf(),
                self == old(self),
                0 <= i <= n,
                forall|j: int| 0 <= j < i ==> self.entries@[j].id@ != id@,
            decreases n - i,
        {
            if self.entries[i].id == *id {
                let ghost es0 = self.entries@;
                proof {
                    lemma_entries_map_index(es0, i as int);
                    lemma_entries_map_remove(es0, i as int);
                }
                let entry = self.entries.remove(i);
                proof {
                    assert(forall|a: int| 0 <= a < i ==> self.entries@[a] == #[trigger] es0[a]);
                    assert(forall|a: int|
                        i <= a < self.entries@.len() ==> self.entries@[a] == #[trigger] es0[a
                            + 1]);
                    assert(unique_ids(self.entries@));
                }
                return Some(entry.handle);
            }
            i = i + 1;
        }
        proof {
            lemma_entries_map_contains(self.entries@, id@);
            assert(self@.remove(id@) =~= self@);
        }
        None
    }

    /// Register a handle under an id. An id already present is silently
    /// overwritten, as the map model's insert says; whoever owned the
    /// displaced handle is the runner's concern.
    pub fn insert(&mut self, id: String, handle: u64)
        requires
            old(self).wf(),
        ensures
            final(self).wf(),
            final(self)@ == old(self)@.insert(id@, handle),
    {
        let _displaced = self.remove(&id);
        proof {
            lemma_entries_map_contains(self.entries@, id@);
        }
        let ghost before = self.entries@;
        self.entries.push(RecordingEntry { id, handle });
        proof {
            assert(self.entries@.drop_last() =~= before);
            assert(final(self)@ =~= old(self)@.insert(self.entries@.last().id@, handle));
        }
    }

    /// Decide a stop request: remove the handle under the lock's scope
    /// and hand it to the runner for shutdown, or report that no such
    /// recording is live. Once a handle is found, stopping never fails:
    /// the runner only logs whatever its wait or kill returns.
    pub fn stop(&mut self, id: &String) -> (r: Result<u64, ErrorEnvelope>)
        requires
            old(self).wf(),
        ensures
            final(self).wf(),
            final(self)@ == old(self)@.remove(id@),
            old(self)@.contains_key(id@) ==> (r matches Ok(h) && h == old(self)@[id@]),
            !old(self)@.contains_key(id@) ==> (r matches Err(e) && e.code@
                == "RECORDING_NOT_FOUND"@ && e.message@ == "No active recording with ID: "@ + id@
                && e.hint@ == "Recording may have already stopped"@),
    {
        match self.remove(id) {
            Some(handle) => Ok(handle),
            None => {
                let mut msg = String::new();
                msg.append("No active recording with ID: ");
                msg.append(id.as_str());
                Err(
                    ErrorEnvelope::new(
                        "RECORDING_NOT_FOUND",
                        msg.as_str(),
                        "Recording may have already stopped",
                    ),
                )
            },
        }
    }
}

/// A stop that found its handle leaves the registry without the id, so
/// of two duplicate stop requests only the first can succeed: whichever
/// order the runner serializes them in, the second observes not-found.
pub proof fn lemma_stop_removes_once(m: Map<Seq<char>, u64>, id: Seq<char>)
    ensures
        !m.remove(id).contains_key(id),
{
}

} // verus!
