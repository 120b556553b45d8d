//! In-memory live fleet state, keyed by drone id and updated on every
//! telemetry frame. `T` is the telemetry frame.

use vstd::prelude::*;

verus! {

proof fn lemma_index_of_unique<A>(s: Seq<A>, k: A, i: int)
    requires
        s.no_duplicates(),
        0 <= i < s.len(),
        s[i] == k,
    ensures
        s.index_of(k) == i,
{
    let j = s.index_of(k);
    assert(s.contains(k));
    assert(0 <= j < s.len() && s[j] == k);
}

/// The latest telemetry of one drone and whether it has gone stale.
#[derive(Debug, Clone)]
pub struct DroneStateSnapshot<T> {
    pub last_telemetry: Option<T>,
    pub is_stale: bool,
}

/// The live fleet: one entry per drone id, in first-seen order.
#[derive(Debug)]
pub struct FleetTable<T> {
    entries: Vec<(String, DroneStateSnapshot<T>)>,
}

impl<T> FleetTable<T> {
    /// The drone ids in first-seen order.
    pub closed spec fn ids(&self) -> Seq<Seq<char>> {
        self.entries@.map_values(|e: (String, DroneStateSnapshot<T>)| e.0@)
    }

    /// The table as a map from drone id to its snapshot.
    pub closed spec fn view_map(&self) -> Map<Seq<char>, DroneStateSnapshot<T>> {
        Map::new(
            |k: Seq<char>| self.ids().contains(k),
            |k: Seq<char>| self.entries@[self.ids().index_of(k)].1,
        )
    }

    /// No drone id appears twice.
    pub closed spec fn wf(&self) -> bool {
        self.ids().no_duplicates()
    }

    /// An empty table.
    pub fn new() -> (r: FleetTable<T>)
        ensures
            r.wf(),
            r.view_map() == Map::<Seq<char>, DroneStateSnapshot<T>>::empty(),
    {
        let r = FleetTable { entries: Vec::new() };
        assert(r.view_map() =~= Map::<Seq<char>, DroneStateSnapshot<T>>::empty());
        r
    }

    fn find(&self, drone_id: &str) -> (r: Option<usize>)
        requires
            self.wf(),
        ensures
            match r {
                Some(i) => i < self.entries@.len() && self.entries@[i as int].0@ == drone_id@
                    && self.ids().index_of(drone_id@) == i,
                None => !self.ids().contains(drone_id@),
            },
    {
        let n = self.entries.len();
        for i in 0..n
            invariant
                n == self.entries@.len(),
                self.wf(),
                forall|j: int| 0 <= j < i ==> self.entries@[j].0@ != drone_id@,
        {
            if crate::text::str_eq(self.entries[i].0.as_str(), drone_id) {
                proof {
                    assert(self.ids()[i as int] == drone_id@);
                    lemma_index_of_unique(self.ids(), drone_id@, i as int);
                }
                return Some(i);
            }
        }
        proof {
            if self.ids().contains(drone_id@) {
                let j = self.ids().index_of(drone_id@);
                assert(self.ids()[j] == self.entries@[j].0@);
            }
        }
        None
    }

    /// Record a telemetry frame: the drone's latest telemetry becomes `t`
    /// and it is no longer stale; every other drone is unchanged.
    pub fn record_telemetry(&mut self, drone_id: &str, t: T)
        requires
            old(self).wf(),
        ensures
            final(self).wf(),
            final(self).view_map() == old(self).view_map().insert(
                drone_id@,
                DroneStateSnapshot { last_telemetry: Some(t), is_stale: false },
            ),
    {
        let ghost old_ids = self.ids();
        match self.find(drone_id) {
            Some(i) => {
                let id = self.entries[i].0.clone();
                self.entries.set(i, (id, DroneStateSnapshot { last_telemetry: Some(t), is_stale: false }));
                proof {
                    assert(self.ids() =~= old_ids);
                    let snap = DroneStateSnapshot { last_telemetry: Some(t), is_stale: false };
                    let want = old(self).view_map().insert(drone_id@, snap);
                    assert(old_ids[i as int] == drone_id@);
                    assert(old_ids.contains(drone_id@));
                    assert(self.view_map().dom() =~= want.dom());
                    assert forall|k: Seq<char>| want.dom().contains(k) implies self.view_map()[k]
                        == want[k] by {
                        let j = old_ids.index_of(k);
                        if k == drone_id@ {
                            assert(j == i);
                        } else {
                            assert(old_ids[j] == k);
                            assert(j != i);
                        }
                    }
                }
                assert(self.view_map() =~= old(self).view_map().insert(
                    drone_id@,
                    DroneStateSnapshot { last_telemetry: Some(t), is_stale: false },
                ));
            },
            None => {
                self.entries.push(
                    (
                        crate::text::owned(drone_id),
                        DroneStateSnapshot { last_telemetry: Some(t), is_stale: false },
                    ),
                );
                proof {
                    assert(self.ids() =~= old_ids.push(drone_id@));
                    assert forall|k: Seq<char>| old_ids.contains(k) implies self.ids().index_of(k)
                        == old_ids.index_of(k) by {
                        let j = old_ids.index_of(k);
                        assert(old_ids[j] == k);
                        assert(self.ids()[j] == k);
                        lemma_index_of_unique(self.ids(), k, j);
                    }
                    let n = old_ids.len() as int;
                    assert(self.ids()[n] == drone_id@);
                    lemma_index_of_unique(self.ids(), drone_id@, n);
                    let snap = DroneStateSnapshot { last_telemetry: Some(t), is_stale: false };
                    let want = old(self).view_map().insert(drone_id@, snap);
                    assert forall|k: Seq<char>| #[trigger] self.ids().contains(k) == (old_ids.contains(k)
                        || k == drone_id@) by {
                        if old_ids.contains(k) {
                            let j = old_ids.index_of(k);
                            assert(self.ids()[j] == k);
                        }
                        if self.ids().contains(k) && k != drone_id@ {
                            let j = self.ids().index_of(k);
                            assert(j < n);
                            assert(old_ids[j] == k);
                        }
                    }
                    assert(self.view_map().dom() =~= want.dom());
                    assert forall|k: Seq<char>| want.dom().contains(k) implies self.view_map()[k]
                        == want[k] by {
                        if k != drone_id@ {
                            let j = old_ids.index_of(k);
                            assert(old_ids[j] == k);
                        }
                    }
                }
                assert(self.view_map() =~= old(self).view_map().insert(
                    drone_id@,
                    DroneStateSnapshot { last_telemetry: Some(t), is_stale: false },
                ));
            },
        }
    }

    /// Mark a known drone stale, keeping its last telemetry; an unknown id
    /// leaves the table as it was.
    pub fn mark_stale(&mut self, drone_id: &str)
        requires
            old(self).wf(),
        ensures
            final(self).wf(),
            final(self).view_map() == (if old(self).view_map().dom().contains(drone_id@) {
                old(self).view_map().insert(
                    drone_id@,
                    DroneStateSnapshot {
                        last_telemetry: old(self).view_map()[drone_id@].last_telemetry,
                        is_stale: true,
                    },
                )
            } else {
                old(self).view_map()
            }),
    {
        let ghost old_ids = self.ids();
        match self.find(drone_id) {
            Some(i) => {
                let (id, snap) = self.entries.remove(i);
                let fresh = DroneStateSnapshot { last_telemetry: snap.last_telemetry, is_stale: true };
                self.entries.insert(i, (id, fresh));
                proof {
                    assert(self.ids() =~= old_ids);
                    assert(old_ids[i as int] == drone_id@);
                    assert(old_ids.contains(drone_id@));
                    let want = old(self).view_map().insert(
                        drone_id@,
                        DroneStateSnapshot {
                            last_telemetry: old(self).view_map()[drone_id@].last_telemetry,
                            is_stale: true,
                        },
                    );
                    assert(self.view_map().dom() =~= want.dom());
                    assert forall|k: Seq<char>| want.dom().contains(k) implies self.view_map()[k]
                        == want[k] by {
                        let j = old_ids.index_of(k);
                        if k == drone_id@ {
                            assert(j == i);
                        } else {
                            assert(old_ids[j] == k);
                            assert(j != i);
                        }
                    }
                    assert(self.view_map() =~= want);
                }
            },
            None => {
                assert(self.view_map() =~= old(self).view_map());
            },
        }
    }

    /// Every drone with its snapshot, in first-seen order.
    pub fn snapshot(&self) -> (r: Vec<(String, DroneStateSnapshot<T>)>)
        where T: Clone,
        requires
            self.wf(),
        ensures
            r@.len() == self.ids().len(),
            forall|i: int|
                0 <= i < r@.len() ==> {
                    let (id, snap) = #[trigger] r@[i];
                    let orig = self.view_map()[self.ids()[i]];
                    &&& id@ == self.ids()[i]
                    &&& snap.is_stale == orig.is_stale
                    &&& snap.last_telemetry.is_some() == orig.last_telemetry.is_some()
                    &&& orig.last_telemetry.is_some() ==> cloned::<T>(
                        orig.last_telemetry.unwrap(),
                        snap.last_telemetry.unwrap(),
                    )
                },
    {
        let mut r: Vec<(String, DroneStateSnapshot<T>)> = Vec::new();
        let n = self.entries.len();
        for i in 0..n
            invariant
                n == self.entries@.len(),
                self.wf(),
                r@.len() == i,
                forall|j: int|
                    0 <= j < i ==> {
                        let (id, snap) = #[trigger] r@[j];
                        let orig = self.entries@[j].1;
                        &&& id@ == self.entries@[j].0@
                        &&& snap.is_stale == orig.is_stale
                        &&& snap.last_telemetry.is_some() == orig.last_telemetry.is_some()
                        &&& orig.last_telemetry.is_some() ==> cloned::<T>(
                            orig.last_telemetry.unwrap(),
                            snap.last_telemetry.unwrap(),
                        )
                    },
        {
            let e = &self.entries[i];
            let t = e.1.last_telemetry.clone();
            r.push((e.0.clone(), DroneStateSnapshot { last_telemetry: t, is_stale: e.1.is_stale }));
        }
        proof {
            assert forall|i: int| 0 <= i < r@.len() implies self.ids().index_of(
                #[trigger] self.ids()[i],
            ) == i by {
                lemma_index_of_unique(self.ids(), self.ids()[i], i);
            }
        }
        r
    }
}

} // verus!
