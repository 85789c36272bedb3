//! The session broker's registry: one live worker per resource
//! identity.
//!
//! A resource identity is the canonicalized pair of storage paths. The
//! registry maps each identity to its dedicated worker together with a
//! reference count of the handles sharing it. The application layer
//! holds the registry behind one short-held lock, spawns the worker
//! thread on `register`, and performs the shutdown a `release` asks
//! for; the decisions — reuse or create, keep alive or shut down — are
//! made here.

use vstd::prelude::*;

verus! {

/// Stack size for the dedicated worker thread (64 MB): the native
/// engine's call depth routinely exceeds default stack budgets.
pub const FFI_THREAD_STACK_SIZE: usize = 64 * 1024 * 1024;

/// The canonicalized pair of storage locations a session is keyed by.
#[derive(Debug, Clone)]
pub struct ResourceId {
    pub primary: String,
    pub secondary: String,
}

/// Two identities denote the same resource: both paths read alike.
pub open spec fn id_eq(a: ResourceId, b: ResourceId) -> bool {
    a.primary@ == b.primary@ && a.secondary@ == b.secondary@
}

/// Whether two identities denote the same resource.
pub fn same_identity(a: &ResourceId, b: &ResourceId) -> (r: bool)
    ensures
        r == id_eq(*a, *b),
{
    a.primary == b.primary && a.secondary == b.secondary
}

/// Forms the identity from each path's canonicalization, falling back
/// to the literal input where the path could not be canonicalized.
pub fn resource_identity(
    primary_raw: &str,
    primary_canon: Option<String>,
    secondary_raw: &str,
    secondary_canon: Option<String>,
) -> (r: ResourceId)
    ensures
        r.primary@ == (match primary_canon {
            Some(c) => c@,
            None => primary_raw@,
        }),
        r.secondary@ == (match secondary_canon {
            Some(c) => c@,
            None => secondary_raw@,
        }),
{
    ResourceId {
        primary: match primary_canon {
            Some(c) => c,
            None => primary_raw.to_owned(),
        },
        secondary: match secondary_canon {
            Some(c) => c,
            None => secondary_raw.to_owned(),
        },
    }
}

/// One registered worker: its identity, its number, and how many
/// handles currently share it.
pub struct WorkerEntry {
    pub key: ResourceId,
    pub worker: u64,
    pub refs: u64,
}

/// What a release decided: the worker stays because other handles
/// still share it, or the last handle left and the worker must be shut
/// down and joined.
#[derive(Debug, Clone, Copy, PartialEq, Eq, Structural)]
pub enum ReleaseAction {
    KeepAlive,
    ShutDown(u64),
}

/// The registry of live workers, keyed by resource identity.
pub struct Broker {
    entries: Vec<WorkerEntry>,
    next_worker: u64,
}

impl Broker {
    /// The registered workers, one entry per live identity.
    pub closed spec fn table(&self) -> Seq<WorkerEntry> {
        self.entries@
    }

    /// The number the next registered worker will get.
    pub closed spec fn next_id(&self) -> u64 {
        self.next_worker
    }

    /// The registry's invariant: identities are registered at most
    /// once, worker numbers are unique and below the counter, and every
    /// registered worker is shared by at least one handle.
    pub open spec fn wf(&self) -> bool {
        &&& forall|i: int, j: int|
            0 <= i < j < self.table().len() ==> !id_eq(self.table()[i].key, self.table()[j].key)
        &&& forall|i: int, j: int|
            0 <= i < j < self.table().len() ==> self.table()[i].worker != self.table()[j].worker
        &&& forall|i: int| 0 <= i < self.table().len() ==> self.table()[i].worker < self.next_id()
        &&& forall|i: int| 0 <= i < self.table().len() ==> self.table()[i].refs >= 1
    }

    /// Some live worker is registered under this identity.
    pub open spec fn has_key(&self, key: ResourceId) -> bool {
        exists|i: int| 0 <= i < self.table().len() && id_eq(self.table()[i].key, key)
    }

    /// An empty registry.
    pub fn new() -> (r: Self)
        ensures
            r.wf(),
            r.table().len() == 0,
            r.next_id() == 0,
    {
        Broker { entries: Vec::new(), next_worker: 0 }
    }

    /// How many workers are registered.
    pub fn live_workers(&self) -> (n: usize)
        ensures
            n == self.table().len(),
    {
        self.entries.len()
    }

    /// The worker number registered at `i`.
    pub fn worker_at(&self, i: usize) -> (w: u64)
        requires
            i < self.table().len(),
        ensures
            w == self.table()[i as int].worker,
    {
        self.entries[i].worker
    }

    /// How many handles share the worker registered at `i`.
    pub fn refs_at(&self, i: usize) -> (n: u64)
        requires
            i < self.table().len(),
        ensures
            n == self.table()[i as int].refs,
    {
        self.entries[i].refs
    }

    /// Whether another worker number can still be handed out.
    pub fn can_register(&self) -> (b: bool)
        ensures
            b == (self.next_id() < u64::MAX),
    {
        self.next_worker < u64::MAX
    }

    /// Looks an identity up: the position of its live worker's entry,
    /// or nothing when no worker is registered for it.
    pub fn lookup(&self, key: &ResourceId) -> (r: Option<usize>)
        ensures
            match r {
                Some(i) => i < self.table().len() && id_eq(self.table()[i as int].key, *key),
                None => !self.has_key(*key),
            },
    {
        let mut i: usize = 0;
        while i < self.entries.len()
            invariant
                i <= self.table().len(),
                forall|j: int| 0 <= j < i ==> !id_eq(self.table()[j].key, *key),
            decreases self.table().len() - i,
        {
            if same_identity(&self.entries[i].key, key) {
                return Some(i);
            }
            i = i + 1;
        }
        None
    }

    /// Takes one more reference to the worker registered at `i`,
    /// returning its number: the reuse path of an acquisition — no new
    /// isolate, no new thread.
    pub fn retain_at(&mut self, i: usize) -> (w: u64)
        requires
            old(self).wf(),
            i < old(self).table().len(),
            old(self).table()[i as int].refs < u64::MAX,
        ensures
            final(self).wf(),
            w == old(self).table()[i as int].worker,
            final(self).next_id() == old(self).next_id(),
            final(self).table() == old(self).table().update(
                i as int,
                WorkerEntry {
                    key: old(self).table()[i as int].key,
                    worker: w,
                    refs: (old(self).table()[i as int].refs + 1) as u64,
                },
            ),
    {
        let w = self.entries[i].worker;
        let refs = self.entries[i].refs;
        let key = ResourceId {
            primary: self.entries[i].key.primary.clone(),
            secondary: self.entries[i].key.secondary.clone(),
        };
        let ghost before = self.entries@;
        self.entries[i] = WorkerEntry { key, worker: w, refs: refs + 1 };
        proof {
            assert forall|a: int, b: int|
                0 <= a < b < self.table().len() implies !id_eq(
                self.table()[a].key,
                self.table()[b].key,
            ) && self.table()[a].worker != self.table()[b].worker by {
                assert(before[a].key == self.table()[a].key || a == i as int);
                assert(before[b].key == self.table()[b].key || b == i as int);
            }
        }
        w
    }

    /// Registers a fresh worker for an identity no live worker serves,
    /// returning its number; the first handle holds the one reference.
    /// The caller registers only after the worker's native open
    /// succeeded, so a failed startup never leaves an entry behind.
    pub fn register(&mut self, key: ResourceId) -> (w: u64)
        requires
            old(self).wf(),
            !old(self).has_key(key),
            old(self).next_id() < u64::MAX,
        ensures
            final(self).wf(),
            w == old(self).next_id(),
            final(self).next_id() == old(self).next_id() + 1,
            final(self).table() == old(self).table().push(WorkerEntry { key, worker: w, refs: 1u64 }),
            final(self).has_key(key),
    {
        let w = self.next_worker;
        let ghost before = self.entries@;
        self.entries.push(WorkerEntry { key, worker: w, refs: 1 });
        self.next_worker = self.next_worker + 1;
        proof {
            let ghost n = before.len() as int;
            assert forall|a: int, b: int|
                0 <= a < b < self.table().len() implies !id_eq(
                self.table()[a].key,
                self.table()[b].key,
            ) by {
                assert(self.table()[a] == before[a]);
                assert(before[a] == old(self).table()[a]);
                if b == n {
                    if id_eq(self.table()[a].key, self.table()[b].key) {
                        assert(id_eq(old(self).table()[a].key, key));
                        assert(old(self).has_key(key));
                        assert(false);
                    }
                } else {
                    assert(self.table()[b] == before[b]);
                    assert(before[b] == old(self).table()[b]);
                }
            }
            assert forall|a: int, b: int|
                0 <= a < b < self.table().len() implies self.table()[a].worker != self.table()[b].worker by {
                assert(self.table()[a] == before[a]);
                assert(before[a] == old(self).table()[a]);
                if b == n {
                    assert(self.table()[b].worker == w);
                    assert(old(self).table()[a].worker < old(self).next_id());
                } else {
                    assert(self.table()[b] == before[b]);
                    assert(before[b] == old(self).table()[b]);
                }
            }
            assert forall|a: int|
                0 <= a < self.table().len() implies self.table()[a].worker < self.next_id() by {
                if a < n {
                    assert(self.table()[a] == before[a]);
                    assert(before[a] == old(self).table()[a]);
                    assert(old(self).table()[a].worker < old(self).next_id());
                }
            }
            assert forall|a: int|
                0 <= a < self.table().len() implies self.table()[a].refs >= 1 by {
                if a < n {
                    assert(self.table()[a] == before[a]);
                    assert(before[a] == old(self).table()[a]);
                }
            }
            assert(id_eq(self.table()[n].key, self.table()[n].key));
        }
        w
    }

    /// Gives up one reference to the worker registered at `i`. While
    /// other handles still share it nothing else happens; when the last
    /// reference goes, the entry leaves the registry — before any new
    /// lookup could observe it — and the caller must shut the worker
    /// down and join it.
    pub fn release(&mut self, i: usize) -> (r: ReleaseAction)
        requires
            old(self).wf(),
            i < old(self).table().len(),
        ensures
            final(self).wf(),
            final(self).next_id() == old(self).next_id(),
            if old(self).table()[i as int].refs > 1 {
                r == ReleaseAction::KeepAlive && same_worker_assignment(
                    old(self).table(),
                    final(self).table(),
                ) && final(self).table() == old(self).table().update(
                    i as int,
                    WorkerEntry {
                        key: old(self).table()[i as int].key,
                        worker: old(self).table()[i as int].worker,
                        refs: (old(self).table()[i as int].refs - 1) as u64,
                    },
                )
            } else {
                r == ReleaseAction::ShutDown(old(self).table()[i as int].worker)
                    && final(self).table() == old(self).table().remove(i as int)
            },
    {
        let refs = self.entries[i].refs;
        if refs > 1 {
            let w = self.entries[i].worker;
            let key = ResourceId {
                primary: self.entries[i].key.primary.clone(),
                secondary: self.entries[i].key.secondary.clone(),
            };
            let ghost before = self.entries@;
            self.entries[i] = WorkerEntry { key, worker: w, refs: refs - 1 };
            proof {
                assert forall|a: int, b: int|
                    0 <= a < b < self.table().len() implies !id_eq(
                    self.table()[a].key,
                    self.table()[b].key,
                ) && self.table()[a].worker != self.table()[b].worker by {
                    assert(before[a].key == self.table()[a].key || a == i as int);
                    assert(before[b].key == self.table()[b].key || b == i as int);
                }
            }
            ReleaseAction::KeepAlive
        } else {
            let entry = self.entries.remove(i);
            ReleaseAction::ShutDown(entry.worker)
        }
    }
}

/// One live worker per identity: a well-formed registry never holds
/// two entries whose identities canonicalize alike, so any two lookups
/// of the same identity name the same entry and the same worker — an
/// acquisition never creates a duplicate isolate for a live identity.
pub proof fn lemma_one_worker_per_identity(b: Broker, key: ResourceId, i: int, j: int)
    requires
        b.wf(),
        0 <= i < b.table().len(),
        0 <= j < b.table().len(),
        id_eq(b.table()[i].key, key),
        id_eq(b.table()[j].key, key),
    ensures
        i == j,
        b.table()[i].worker == b.table()[j].worker,
{
    if i < j {
        assert(id_eq(b.table()[i].key, b.table()[j].key));
        assert(false);
    }
    if j < i {
        assert(id_eq(b.table()[j].key, b.table()[i].key));
        assert(false);
    }
}

/// Two acquisitions of one resource share one worker: once a worker is
/// registered for an identity, every later lookup of an identity that
/// canonicalizes alike names exactly the registered entry, so the
/// second acquisition is backed by the same worker and no second
/// isolate is created.
pub proof fn lemma_second_acquire_reuses_worker(
    b0: Broker,
    b1: Broker,
    key: ResourceId,
    again: ResourceId,
    w: u64,
    j: int,
)
    requires
        b1.wf(),
        b1.table() == b0.table().push(WorkerEntry { key, worker: w, refs: 1u64 }),
        id_eq(again, key),
        0 <= j < b1.table().len(),
        id_eq(b1.table()[j].key, again),
    ensures
        j == b0.table().len(),
        b1.table()[j].worker == w,
{
    let n = b0.table().len() as int;
    assert(b1.table()[n].key == key);
    assert(id_eq(b1.table()[j].key, key));
    lemma_one_worker_per_identity(b1, key, j, n);
}

/// Two registries assign workers alike: same entries, same identities,
/// same worker numbers; only the reference counts may differ.
pub open spec fn same_worker_assignment(a: Seq<WorkerEntry>, b: Seq<WorkerEntry>) -> bool {
    a.len() == b.len() && forall|m: int|
        0 <= m < a.len() ==> a[m].key == b[m].key && a[m].worker == b[m].worker
}

/// Dropping one of several handles does not disturb the others: a
/// release that keeps the worker alive changes no entry's identity or
/// worker, so every identity that resolved to a worker before resolves
/// to the same worker after, and every operation in flight on another
/// handle still reaches it.
pub proof fn lemma_keep_alive_preserves_workers(b1: Broker, b2: Broker, key: ResourceId, i: int)
    requires
        same_worker_assignment(b1.table(), b2.table()),
        0 <= i < b1.table().len(),
        id_eq(b1.table()[i].key, key),
    ensures
        b2.has_key(key),
        id_eq(b2.table()[i].key, key),
        b2.table()[i].worker == b1.table()[i].worker,
{
    assert(b2.table()[i].key == b1.table()[i].key);
}

} // verus!
