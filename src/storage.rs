//! The Entity Store: encoded records keyed by identifier.
use vstd::prelude::*;
use std::collections::BTreeMap;
use crate::kitty::KittyId;
use crate::migrations::LayoutStep;

verus! {

/// Encoded records keyed by identifier, with the keys also kept in order of first
/// insertion so that every record can be visited.
pub struct RawStore {
    map: BTreeMap<KittyId, Vec<u8>>,
    keys: Vec<KittyId>,
}

impl View for RawStore {
    type V = Map<KittyId, Seq<u8>>;

    closed spec fn view(&self) -> Map<KittyId, Seq<u8>> {
        self.map@.map_values(|v: Vec<u8>| v@)
    }
}

impl RawStore {
    /// The list of keys names each stored key exactly once.
    pub closed spec fn wf(&self) -> bool {
        &&& self.keys@.no_duplicates()
        &&& self.keys@.to_set() == self.map@.dom()
    }

    /// An empty store.
    pub fn new() -> (s: RawStore)
        ensures
            s.wf(),
            s@ == Map::<KittyId, Seq<u8>>::empty(),
    {
        let s = RawStore { map: BTreeMap::new(), keys: Vec::new() };
        assert(s.keys@.to_set() =~= s.map@.dom());
        assert(s@ =~= Map::<KittyId, Seq<u8>>::empty());
        s
    }

    /// Whether a record is stored under `k`.
    pub fn contains_key(&self, k: KittyId) -> (r: bool)
        ensures
            r == self@.contains_key(k),
    {
        self.map.contains_key(&k)
    }

    /// The record stored under `k`.
    pub fn get(&self, k: KittyId) -> (r: Option<&Vec<u8>>)
        ensures
            match r {
                Some(v) => self@.contains_key(k) && v@ == self@[k],
                None => !self@.contains_key(k),
            },
    {
        self.map.get(&k)
    }

    /// Stores `v` under `k`, replacing any earlier record.
    pub fn insert(&mut self, k: KittyId, v: Vec<u8>)
        requires
            old(self).wf(),
        ensures
            final(self).wf(),
            final(self)@ == old(self)@.insert(k, v@),
    {
        let ghost v_view = v@;
        if !self.map.contains_key(&k) {
            proof {
                self.keys@.lemma_push_to_set_commute(k);
            }
            self.keys.push(k);
        }
        self.map.insert(k, v);
        assert(self.keys@.to_set() =~= self.map@.dom());
        assert(self@ =~= old(self)@.insert(k, v_view));
    }

    /// Applies a layout step to every stored record; returns how many records were
    /// visited.
    pub fn upgrade_all(&mut self, step: LayoutStep) -> (n: usize)
        requires
            old(self).wf(),
        ensures
            final(self).wf(),
            final(self)@ == old(self)@.map_values(|b: Seq<u8>| step.upgraded(b)),
            n == old(self)@.dom().len(),
    {
        let ghost orig = self@;
        let ghost keys = self.keys@;
        let mut i: usize = 0;
        while i < self.keys.len()
            invariant
                self.wf(),
                self.keys@ == keys,
                keys.to_set() == orig.dom(),
                keys.no_duplicates(),
                0 <= i <= keys.len(),
                self@.dom() == orig.dom(),
                forall|k: KittyId|
                    #![trigger self@[k]]
                    orig.contains_key(k) ==> self@[k] == (if exists|j: int|
                        0 <= j < i && #[trigger] keys[j] == k {
                        step.upgraded(orig[k])
                    } else {
                        orig[k]
                    }),
            decreases keys.len() - i,
        {
            let k = self.keys[i];
            assert(keys.to_set().contains(k));
            assert(!(exists|j: int| 0 <= j < i && #[trigger] keys[j] == k));
            let ghost before = self@;
            assert(before[k] == orig[k]);
            let upgraded = match self.get(k) {
                Some(bytes) => step.upgrade(bytes.as_slice()),
                None => None,
            };
            match upgraded {
                Some(v) => {
                    self.map.insert(k, v);
                },
                None => {},
            }
            assert(self@[k] == step.upgraded(orig[k]));
            assert(forall|k2: KittyId|
                k2 != k && orig.contains_key(k2) ==> self@[k2] == #[trigger] before[k2]);
            proof {
                assert forall|k2: KittyId| #![trigger self@[k2]] orig.contains_key(k2) implies self@[k2]
                    == (if exists|j: int| 0 <= j < i + 1 && #[trigger] keys[j] == k2 {
                    step.upgraded(orig[k2])
                } else {
                    orig[k2]
                }) by {
                    if k2 == k {
                        assert(keys[i as int] == k);
                    } else {
                        assert(self@[k2] == before[k2]);
                        if exists|j: int| 0 <= j < i + 1 && #[trigger] keys[j] == k2 {
                            let j = choose|j: int| 0 <= j < i + 1 && #[trigger] keys[j] == k2;
                            assert(j < i);
                            assert(exists|j: int| 0 <= j < i && #[trigger] keys[j] == k2);
                        }
                        if exists|j: int| 0 <= j < i && #[trigger] keys[j] == k2 {
                            let j = choose|j: int| 0 <= j < i && #[trigger] keys[j] == k2;
                            assert(exists|j: int| 0 <= j < i + 1 && #[trigger] keys[j] == k2);
                        }
                    }
                }
                assert(self@.dom() =~= orig.dom());
                assert(self.keys@.to_set() =~= self.map@.dom());
            }
            i = i + 1;
        }
        proof {
            assert forall|k: KittyId| orig.contains_key(k) implies exists|j: int|
                0 <= j < i && #[trigger] keys[j] == k by {
                assert(keys.to_set().contains(k));
                let j = choose|j: int| 0 <= j < keys.len() && keys[j] == k;
                assert(keys[j] == k);
            }
            assert(self@ =~= orig.map_values(|b: Seq<u8>| step.upgraded(b)));
            keys.unique_seq_to_set();
        }
        i
    }
}

} // verus!
