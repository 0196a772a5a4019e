use vstd::prelude::*;
use crate::bytes::bytes_eq;
use crate::model::copy_bytes;

verus! {

/// A layer directory was reached a second time while following `base`
/// references: the chain would never end.
#[derive(Clone, Debug, PartialEq, Eq)]
pub struct CyclicPolicyError {
    /// The directory that was revisited.
    pub dir: Vec<u8>,
}

/// An explicit walk along a chain of policy layers, from the most-derived
/// layer towards the root, that refuses to enter a directory twice.
///
/// Directories are compared as given: the caller hands in a canonical form.
pub struct ChainWalk {
    visited: Vec<Vec<u8>>,
}

impl View for ChainWalk {
    type V = Seq<Seq<u8>>;

    /// The layer directories entered so far, most-derived first.
    closed spec fn view(&self) -> Seq<Seq<u8>> {
        self.visited@.map_values(|d: Vec<u8>| d@)
    }
}

impl ChainWalk {
    /// No directory is entered twice.
    pub open spec fn wf(&self) -> bool {
        self@.no_duplicates()
    }

    /// A walk that has entered no layer yet.
    pub fn new() -> (r: ChainWalk)
        ensures
            r@ == Seq::<Seq<u8>>::empty(),
            r.wf(),
    {
        let r = ChainWalk { visited: Vec::new() };
        assert(r@ =~= Seq::<Seq<u8>>::empty());
        r
    }

    /// Whether `dir` has been entered already.
    pub fn has_visited(&self, dir: &Vec<u8>) -> (r: bool)
        ensures
            r == self@.contains(dir@),
    {
        let mut i: usize = 0;
        while i < self.visited.len()
            invariant
                0 <= i <= self.visited@.len(),
                self@.len() == self.visited@.len(),
                forall|k: int| 0 <= k < i ==> self@[k] != dir@,
            decreases self.visited@.len() - i,
        {
            assert(self@[i as int] == self.visited@[i as int]@);
            if bytes_eq(&self.visited[i], dir) {
                return true;
            }
            i = i + 1;
        }
        false
    }

    /// Enters the layer in `dir`, or fails if the walk has been there before.
    pub fn enter(&mut self, dir: &Vec<u8>) -> (r: Result<(), CyclicPolicyError>)
        requires
            old(self).wf(),
        ensures
            final(self).wf(),
            old(self)@.contains(dir@) ==> (r matches Err(e) && e.dir@ == dir@ && final(self)@ == old(self)@),
            !old(self)@.contains(dir@) ==> (r is Ok && final(self)@ == old(self)@.push(dir@)),
    {
        if self.has_visited(dir) {
            return Err(CyclicPolicyError { dir: copy_bytes(dir) });
        }
        let ghost before = self@;
        self.visited.push(copy_bytes(dir));
        assert(self@ =~= before.push(dir@));
        proof {
            assert forall|i: int, j: int| 0 <= i < j < self@.len() implies self@[i] != self@[j] by {
                if j == before.len() {
                    assert(!before.contains(dir@));
                    assert(before[i] == self@[i]);
                } else {
                    assert(before[i] != before[j]);
                }
            }
        }
        Ok(())
    }

    /// How many layers have been entered.
    pub fn depth(&self) -> (r: usize)
        ensures
            r == self@.len(),
    {
        self.visited.len()
    }
}

} // verus!
