use vstd::prelude::*;
use crate::principal::Principal;

verus! {

/// One participant's committed randomness.
#[derive(Clone, Copy, Debug)]
pub struct LedgerEntry {
    pub player: Principal,
    pub randomness: u8,
}

/// Mapping from participant to the randomness committed for the active round.
pub struct RandomnessLedger {
    entries: Vec<LedgerEntry>,
    contents: Ghost<Map<Principal, u8>>,
}

impl View for RandomnessLedger {
    type V = Map<Principal, u8>;

    closed spec fn view(&self) -> Map<Principal, u8> {
        self.contents@
    }
}

impl RandomnessLedger {
    /// The entries hold each participant at most once, and agree with the view.
    pub closed spec fn wf(&self) -> bool {
        &&& forall|i: int, j: int|
            0 <= i < j < self.entries@.len() ==> self.entries@[i].player != self.entries@[j].player
        &&& forall|p: Principal|
            self.contents@.contains_key(p) <==> exists|i: int|
                0 <= i < self.entries@.len() && #[trigger] self.entries@[i].player == p
        &&& forall|i: int|
            0 <= i < self.entries@.len() ==> self.contents@[#[trigger] self.entries@[i].player]
                == self.entries@[i].randomness
        &&& self.contents@.dom().finite()
        &&& self.contents@.dom().len() == self.entries@.len()
    }

    /// An empty ledger.
    pub fn new() -> (r: RandomnessLedger)
        ensures
            r.wf(),
            r@ == Map::<Principal, u8>::empty(),
    {
        RandomnessLedger { entries: Vec::new(), contents: Ghost(Map::empty()) }
    }

    /// Number of participants held.
    pub fn len(&self) -> (r: usize)
        requires
            self.wf(),
        ensures
            r == self@.dom().len(),
    {
        self.entries.len()
    }

    /// Some entry of the ledger, if it holds any.
    pub fn first(&self) -> (r: Option<LedgerEntry>)
        requires
            self.wf(),
        ensures
            r is None <==> self@.dom().len() == 0,
            r matches Some(e) ==> self@.contains_key(e.player) && self@[e.player] == e.randomness,
    {
        if self.entries.len() == 0 {
            None
        } else {
            Some(self.entries[0])
        }
    }

    /// Position of `p` among the entries, if it is held.
    fn position(&self, p: &Principal) -> (r: Option<usize>)
        requires
            self.wf(),
        ensures
            match r {
                Some(i) => i < self.entries@.len() && self.entries@[i as int].player == *p,
                None => !self@.contains_key(*p),
            },
    {
        let mut i: usize = 0;
        while i < self.entries.len()
            invariant
                self.wf(),
                0 <= i <= self.entries@.len(),
                forall|j: int| 0 <= j < i ==> self.entries@[j].player != *p,
            decreases self.entries@.len() - i,
        {
            if self.entries[i].player.same_as(p) {
                return Some(i);
            }
            i = i + 1;
        }
        None
    }

    /// The randomness committed by `p`, if any.
    pub fn get(&self, p: &Principal) -> (r: Option<u8>)
        requires
            self.wf(),
        ensures
            r == (if self@.contains_key(*p) {
                Some(self@[*p])
            } else {
                None::<u8>
            }),
    {
        match self.position(p) {
            Some(i) => Some(self.entries[i].randomness),
            None => None,
        }
    }

    /// Records `v` as the randomness of `p`, replacing any earlier value.
    pub fn insert(&mut self, p: Principal, v: u8)
        requires
            old(self).wf(),
            old(self)@.dom().len() < usize::MAX,
        ensures
            final(self).wf(),
            final(self)@ == old(self)@.insert(p, v),
    {
        let ghost before = self.contents@;
        match self.position(&p) {
            Some(i) => {
                self.entries.set(i, LedgerEntry { player: p, randomness: v });
                self.contents = Ghost(before.insert(p, v));
                assert(before.dom().insert(p) =~= before.dom());
                assert forall|q: Principal|
                    self.contents@.contains_key(q) implies exists|j: int|
                        0 <= j < self.entries@.len() && #[trigger] self.entries@[j].player == q by {
                    if q != p {
                        let j = choose|j: int|
                            0 <= j < old(self).entries@.len() && #[trigger] old(self).entries@[j].player == q;
                        assert(self.entries@[j].player == q);
                    } else {
                        assert(self.entries@[i as int].player == q);
                    }
                }
            },
            None => {
                self.entries.push(LedgerEntry { player: p, randomness: v });
                self.contents = Ghost(before.insert(p, v));
                let ghost n: int = self.entries@.len() - 1;
                assert forall|q: Principal|
                    self.contents@.contains_key(q) implies exists|j: int|
                        0 <= j < self.entries@.len() && #[trigger] self.entries@[j].player == q by {
                    if q != p {
                        let j = choose|j: int|
                            0 <= j < old(self).entries@.len() && #[trigger] old(self).entries@[j].player == q;
                        assert(self.entries@[j].player == q);
                    } else {
                        assert(self.entries@[n].player == q);
                    }
                }
            },
        }
    }

    /// Drops the entry of `p`, if any.
    pub fn remove(&mut self, p: &Principal)
        requires
            old(self).wf(),
        ensures
            final(self).wf(),
            final(self)@ == old(self)@.remove(*p),
    {
        let ghost before = self.contents@;
        match self.position(p) {
            Some(i) => {
                let ghost old_entries = self.entries@;
                self.entries.remove(i);
                self.contents = Ghost(before.remove(*p));
                assert forall|q: Principal|
                    self.contents@.contains_key(q) implies exists|j: int|
                        0 <= j < self.entries@.len() && #[trigger] self.entries@[j].player == q by {
                    let j = choose|j: int|
                        0 <= j < old_entries.len() && #[trigger] old_entries[j].player == q;
                    if j < i {
                        assert(self.entries@[j].player == q);
                    } else {
                        assert(j != i);
                        assert(self.entries@[j - 1].player == q);
                    }
                }
            },
            None => {
                assert(before.remove(*p) =~= before);
            },
        }
    }
}

} // verus!
