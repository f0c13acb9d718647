//! A depth-first, pre-order walk of the window tree that visits each window
//! at most once and goes no deeper than a fixed depth, so that a
//! misbehaving server cannot make it loop.
use vstd::prelude::*;
use crate::text::contains_u32;

verus! {

/// How many levels below the starting window the walk goes.
pub const MAX_TREE_DEPTH: u32 = 16;

pub struct TreeWalk {
    /// Windows still to visit, the next one last, each with its depth.
    pub pending: Vec<(u32, u32)>,
    /// Windows already handed out, in order.
    pub visited: Vec<u32>,
    /// The depth of the window handed out last.
    pub depth: u32,
}

/// The position of the next window to hand out: the last pending entry that
/// is a real window not yet visited.
pub open spec fn next_index(p: Seq<(u32, u32)>, visited: Seq<u32>) -> Option<int>
    decreases p.len(),
{
    if p.len() == 0 {
        None
    } else if p.last().0 != 0 && !visited.contains(p.last().0) {
        Some(p.len() - 1)
    } else {
        next_index(p.drop_last(), visited)
    }
}

/// Children to visit, pushed so that the first child comes out first.
pub open spec fn child_entries(children: Seq<u32>, depth: u32) -> Seq<(u32, u32)> {
    Seq::new(children.len(), |i: int| (children[children.len() - 1 - i], depth))
}

proof fn lemma_next_index(p: Seq<(u32, u32)>, visited: Seq<u32>)
    ensures
        next_index(p, visited) matches Some(k) ==> 0 <= k < p.len() && p[k].0 != 0
            && !visited.contains(p[k].0),
    decreases p.len(),
{
    if p.len() > 0 {
        lemma_next_index(p.drop_last(), visited);
    }
}

impl TreeWalk {
    /// Every pending entry is within the depth bound.
    pub open spec fn bounded(self) -> bool {
        &&& self.depth <= MAX_TREE_DEPTH
        &&& forall|i: int| 0 <= i < self.pending@.len() ==> (#[trigger] self.pending@[i]).1 <= MAX_TREE_DEPTH
    }

    /// A walk that starts at `root`.
    pub fn new(root: u32) -> (r: TreeWalk)
        ensures
            r.pending@ == seq![(root, 0u32)],
            r.visited@ == Seq::<u32>::empty(),
            r.depth == 0,
            r.bounded(),
    {
        let mut pending: Vec<(u32, u32)> = Vec::new();
        pending.push((root, 0));
        TreeWalk { pending, visited: Vec::new(), depth: 0 }
    }

    /// The next window: never 0, never one handed out before.
    pub fn next(&mut self) -> (r: Option<u32>)
        requires
            old(self).bounded(),
        ensures
            final(self).bounded(),
            match next_index(old(self).pending@, old(self).visited@) {
                Some(k) => {
                    &&& r == Some(old(self).pending@[k].0)
                    &&& final(self).pending@ == old(self).pending@.take(k)
                    &&& final(self).visited@ == old(self).visited@.push(old(self).pending@[k].0)
                    &&& final(self).depth == old(self).pending@[k].1
                },
                None => r is None && final(self).pending@.len() == 0 && final(self).visited@ == old(
                    self,
                ).visited@,
            },
            r matches Some(w) ==> w != 0 && !old(self).visited@.contains(w),
    {
        let ghost start = self.pending@;
        proof {
            lemma_next_index(start, self.visited@);
        }
        while self.pending.len() > 0
            invariant
                self.visited@ == old(self).visited@,
                self.pending@ == start.take(self.pending@.len() as int),
                self.pending@.len() <= start.len(),
                start == old(self).pending@,
                next_index(start, self.visited@) == next_index(self.pending@, self.visited@),
                old(self).bounded(),
                self.depth == old(self).depth,
            decreases self.pending@.len(),
        {
            let ghost before = self.pending@;
            let entry = self.pending.pop();
            let (w, d) = match entry {
                Some(e) => e,
                None => (0, 0),
            };
            assert(before.drop_last() =~= self.pending@);
            assert(start.take(self.pending@.len() as int) =~= self.pending@);
            if w != 0 && !contains_u32(&self.visited, w) {
                self.visited.push(w);
                self.depth = d;
                assert(before[before.len() - 1] == start[before.len() - 1]);
                return Some(w);
            }
        }
        None
    }

    /// Queues the children of the window handed out last, unless it lies at
    /// the depth bound.
    pub fn descend(&mut self, children: &Vec<u32>)
        requires
            old(self).bounded(),
        ensures
            final(self).bounded(),
            final(self).visited@ == old(self).visited@,
            final(self).depth == old(self).depth,
            old(self).depth < MAX_TREE_DEPTH ==> final(self).pending@ == old(self).pending@ + child_entries(
                children@,
                (old(self).depth + 1) as u32,
            ),
            old(self).depth >= MAX_TREE_DEPTH ==> final(self).pending@ == old(self).pending@,
    {
        if self.depth >= MAX_TREE_DEPTH {
            return ;
        }
        let d = self.depth + 1;
        let n = children.len();
        let mut i: usize = 0;
        while i < n
            invariant
                n == children@.len(),
                i <= n,
                d == old(self).depth + 1,
                d <= MAX_TREE_DEPTH,
                self.depth == old(self).depth,
                self.visited@ == old(self).visited@,
                self.pending@ == old(self).pending@ + child_entries(children@, d).take(i as int),
                old(self).bounded(),
            decreases n - i,
        {
            self.pending.push((children[n - 1 - i], d));
            assert(child_entries(children@, d).take(i + 1) =~= child_entries(children@, d).take(
                i as int,
            ).push((children[n - 1 - i], d)));
            i = i + 1;
        }
        assert(child_entries(children@, d).take(n as int) =~= child_entries(children@, d));
        assert forall|j: int| 0 <= j < self.pending@.len() implies (#[trigger] self.pending@[j]).1
            <= MAX_TREE_DEPTH by {
            if j >= old(self).pending@.len() {
                assert(self.pending@[j] == child_entries(children@, d)[j - old(self).pending@.len()]);
            }
        }
    }
}

} // verus!
