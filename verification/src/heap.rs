use vstd::prelude::*;

use crate::pair::PairInfo;

verus! {

/// `k` is the position the queue serves next: the first position holding
/// the minimal key.
pub open spec fn is_first_min(s: Seq<PairInfo>, k: int) -> bool {
    &&& 0 <= k < s.len()
    &&& forall|j: int| 0 <= j < s.len() ==> s[k].value <= s[j].value
    &&& forall|j: int| 0 <= j < k ==> s[j].value > s[k].value
}

/// At most one position is the first minimum.
pub proof fn lemma_first_min_unique(s: Seq<PairInfo>, k1: int, k2: int)
    requires
        is_first_min(s, k1),
        is_first_min(s, k2),
    ensures
        k1 == k2,
{
    if k1 < k2 {
        assert(s[k1].value > s[k2].value);
        assert(s[k2].value <= s[k1].value);
    }
    if k2 < k1 {
        assert(s[k2].value > s[k1].value);
        assert(s[k1].value <= s[k2].value);
    }
}

/// The priority queue over candidate pairs: entries carry a pair id and a
/// key snapshot, and the entry with the smallest key (the cheapest
/// contraction) is served first. Stale entries are the caller's to filter
/// after popping or peeking.
pub struct PairHeap {
    pub entries: Vec<PairInfo>,
}

impl PairHeap {
    pub fn new() -> (r: PairHeap)
        ensures
            r.entries@ == Seq::<PairInfo>::empty(),
    {
        PairHeap { entries: Vec::new() }
    }

    pub fn len(&self) -> (r: usize)
        ensures
            r == self.entries@.len(),
    {
        self.entries.len()
    }

    pub fn push(&mut self, e: PairInfo)
        ensures
            final(self).entries@ == old(self).entries@.push(e),
    {
        self.entries.push(e);
    }

    /// The position of the entry with the smallest key.
    fn min_pos(&self) -> (r: usize)
        requires
            self.entries@.len() > 0,
        ensures
            is_first_min(self.entries@, r as int),
    {
        let mut best: usize = 0;
        let mut i: usize = 1;
        while i < self.entries.len()
            invariant
                0 <= best < i <= self.entries@.len(),
                forall|j: int| 0 <= j < i ==> self.entries@[best as int].value <= self.entries@[j].value,
                forall|j: int| 0 <= j < best ==> self.entries@[j].value > self.entries@[best as int].value,
            decreases self.entries@.len() - i,
        {
            if self.entries[i].value < self.entries[best].value {
                best = i;
            }
            i = i + 1;
        }
        best
    }

    /// The entry served next, without removing it.
    pub fn peek(&self) -> (r: Option<PairInfo>)
        ensures
            match r {
                None => self.entries@.len() == 0,
                Some(e) => exists|k: int| is_first_min(self.entries@, k) && e == self.entries@[k],
            },
    {
        if self.entries.len() == 0 {
            None
        } else {
            let k = self.min_pos();
            Some(self.entries[k])
        }
    }

    /// Remove and return the entry served next. Among entries it returns
    /// exactly the one `peek` showed: the first position with the minimal
    /// key.
    pub fn pop(&mut self) -> (r: Option<PairInfo>)
        ensures
            match r {
                None => old(self).entries@.len() == 0 && final(self).entries@ == old(self).entries@,
                Some(e) => exists|k: int|
                    is_first_min(old(self).entries@, k) && e == old(self).entries@[k]
                        && final(self).entries@ == old(self).entries@.remove(k),
            },
    {
        if self.entries.len() == 0 {
            None
        } else {
            let k = self.min_pos();
            let e = self.entries.remove(k);
            Some(e)
        }
    }
}

} // verus!
