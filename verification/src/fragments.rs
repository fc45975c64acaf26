use vstd::assert_seqs_equal;
use vstd::prelude::*;

verus! {

/// A slot identifier that converts to and from a dense array index.
pub trait Index: Sized {
    /// The array index this identifier denotes. Implementors define it so
    /// that `from_usize` and `as_usize` can keep their contracts; the
    /// default leaves it unconstrained.
    open spec fn index_spec(&self) -> usize {
        vstd::pervasive::arbitrary()
    }

    fn from_usize(i: usize) -> (r: Self)
        ensures
            r.index_spec() == i,
    ;

    fn as_usize(&self) -> (r: usize)
        ensures
            r == self.index_spec(),
    ;
}

impl Index for usize {
    open spec fn index_spec(&self) -> usize {
        *self
    }

    fn from_usize(i: usize) -> (r: Self) {
        i
    }

    fn as_usize(&self) -> (r: usize) {
        *self
    }
}

/// An arena of optional elements with last-in-first-out index reuse.
///
/// A slot holding `Some` is occupied, a slot holding `None` is free; the
/// indexes of freed slots are kept on a stack and handed out again before the
/// arena grows. The arena has exactly one owner and is not meant for
/// concurrent use.
#[derive(Debug)]
pub struct Fragments<E, I: Index> {
    list: Vec<Option<E>>,
    free: Vec<I>,
}

impl<E, I: Index> Fragments<E, I> {
    /// The slots, in index order: `Some` is occupied, `None` is free.
    pub closed spec fn slots(&self) -> Seq<Option<E>> {
        self.list@
    }

    /// The freed indexes, oldest first; the last one is reused next.
    pub closed spec fn free_list(&self) -> Seq<usize> {
        self.free@.map_values(|i: I| i.index_spec())
    }

    /// Every freed index names an in-range, free slot, and no index is on the
    /// free list twice.
    pub open spec fn wf(&self) -> bool {
        &&& forall|k: int|
            0 <= k < self.free_list().len() ==> (#[trigger] self.free_list()[k]) < self.slots().len()
        &&& forall|k: int|
            0 <= k < self.free_list().len() ==> self.slots()[#[trigger] self.free_list()[k] as int] is None
        &&& forall|k1: int, k2: int|
            0 <= k1 < k2 < self.free_list().len() ==> #[trigger] self.free_list()[k1]
                != #[trigger] self.free_list()[k2]
    }

    pub fn new() -> (r: Self)
        ensures
            r.slots().len() == 0,
            r.free_list().len() == 0,
            r.wf(),
    {
        Fragments { list: Vec::new(), free: Vec::new() }
    }

    /// Bounds-checked read access to one slot.
    pub fn elem(&mut self, index: I) -> (r: &Option<E>)
        requires
            index.index_spec() < old(self).slots().len(),
        ensures
            *final(self) == *old(self),
            *r == old(self).slots()[index.index_spec() as int],
    {
        let i = index.as_usize();
        &self.list[i]
    }

    /// Bounds-checked write access to one slot.
    ///
    /// Well-formedness survives any use that does not resurrect a freed slot:
    /// writing `Some` over an occupied slot or `None` over anything.
    pub fn elem_mut(&mut self, index: I) -> (r: &mut Option<E>)
        requires
            old(self).wf(),
            index.index_spec() < old(self).slots().len(),
        ensures
            *r == old(self).slots()[index.index_spec() as int],
            final(self).slots() == old(self).slots().update(
                index.index_spec() as int,
                *final(r),
            ),
            final(self).free_list() == old(self).free_list(),
            old(self).slots()[index.index_spec() as int] is Some || (*final(r)) is None
                ==> final(self).wf(),
    {
        let i = index.as_usize();
        &mut self.list[i]
    }

    /// Stores `elem` in a free slot and returns its index: the most recently
    /// freed index if any is available, else a fresh one at the end.
    pub fn add(&mut self, elem: E) -> (r: I)
        requires
            old(self).wf(),
        ensures
            final(self).wf(),
            r.index_spec() < final(self).slots().len(),
            final(self).slots()[r.index_spec() as int] == Some(elem),
            old(self).free_list().len() > 0 ==> {
                &&& r.index_spec() == old(self).free_list().last()
                &&& old(self).slots()[r.index_spec() as int] is None
                &&& final(self).slots() == old(self).slots().update(
                    r.index_spec() as int,
                    Some(elem),
                )
                &&& final(self).free_list() == old(self).free_list().drop_last()
            },
            old(self).free_list().len() == 0 ==> {
                &&& r.index_spec() == old(self).slots().len()
                &&& final(self).slots() == old(self).slots().push(Some(elem))
                &&& final(self).free_list() == old(self).free_list()
            },
            forall|j: int|
                0 <= j < old(self).slots().len() && j != r.index_spec() ==> final(self).slots()[j]
                    == #[trigger] old(self).slots()[j],
    {
        match self.free.pop() {
            Some(index) => {
                proof {
                    assert(self.free@ == old(self).free@.drop_last());
                    assert(old(self).free_list()[old(self).free_list().len() - 1]
                        == index.index_spec());
                    assert_seqs_equal!(self.free_list() == old(self).free_list().drop_last());
                }
                let i = index.as_usize();
                self.list[i] = Some(elem);
                index
            },
            None => {
                proof {
                    assert(old(self).free_list().len() == 0);
                }
                self.list.push(Some(elem));
                I::from_usize(self.list.len() - 1)
            },
        }
    }

    /// Frees the slot at `index`, pushing the index for reuse; freeing an
    /// already-free slot is a no-op.
    pub fn delete(&mut self, index: I)
        requires
            old(self).wf(),
            index.index_spec() < old(self).slots().len(),
        ensures
            final(self).wf(),
            final(self).slots()[index.index_spec() as int] is None,
            old(self).slots()[index.index_spec() as int] is Some ==> {
                &&& final(self).slots() == old(self).slots().update(
                    index.index_spec() as int,
                    None::<E>,
                )
                &&& final(self).free_list() == old(self).free_list().push(index.index_spec())
            },
            old(self).slots()[index.index_spec() as int] is None ==> *final(self) == *old(self),
            forall|j: int|
                0 <= j < old(self).slots().len() && j != index.index_spec()
                    ==> final(self).slots()[j] == #[trigger] old(self).slots()[j],
    {
        let idx = index.as_usize();
        let occupied = self.list[idx].is_some();
        if occupied {
            self.list[idx] = None;
            self.free.push(index);
            proof {
                assert_seqs_equal!(
                    self.free_list() == old(self).free_list().push(index.index_spec())
                );
            }
        }
    }
}

} // verus!
