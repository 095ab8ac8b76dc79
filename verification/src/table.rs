//! The handle table: open content buffers keyed by handle id.

use crate::buffer::{overwrite, write_at};
use crate::slab_model::{
    slab_entries, slab_get, slab_get_mut, slab_insert, slab_is_empty, slab_new, slab_try_remove,
};
use slab::Slab;
use vstd::prelude::*;

verus! {

/// The error of an operation on a handle id that the table does not hold.
#[derive(Debug, Clone, Copy, PartialEq, Eq, Structural)]
pub struct NotFound;

/// The open handles of the file system, each with its content buffer.
///
/// The view of a table is the map from the handle ids that are open to the
/// bytes written so far through each of them.
pub struct HandleTable {
    slots: Slab<Vec<u8>>,
}

impl View for HandleTable {
    type V = Map<usize, Seq<u8>>;

    closed spec fn view(&self) -> Map<usize, Seq<u8>> {
        slab_entries(self.slots)
    }
}

/// `post` is `pre` with one handle more: `id` was not open in `pre`, and in
/// `post` it is open with an empty buffer.
pub open spec fn allocated(pre: Map<usize, Seq<u8>>, id: usize, post: Map<usize, Seq<u8>>) -> bool {
    &&& !pre.contains_key(id)
    &&& post == pre.insert(id, Seq::<u8>::empty())
}

/// Looking up a handle right after it was allocated succeeds and finds an
/// empty buffer.
pub proof fn lemma_lookup_after_allocate(
    pre: Map<usize, Seq<u8>>,
    id: usize,
    post: Map<usize, Seq<u8>>,
)
    requires
        allocated(pre, id, post),
    ensures
        post.contains_key(id),
        post[id] == Seq::<u8>::empty(),
{
}

impl HandleTable {
    /// A table without any open handle.
    pub fn new() -> (table: Self)
        ensures
            table@ == Map::<usize, Seq<u8>>::empty(),
    {
        HandleTable { slots: slab_new() }
    }

    /// Whether no handle is open.
    pub fn is_empty(&self) -> (empty: bool)
        ensures
            empty == self@.is_empty(),
    {
        slab_is_empty(&self.slots)
    }

    /// Whether `id` is an open handle.
    pub fn contains(&self, id: usize) -> (open: bool)
        ensures
            open == self@.contains_key(id),
    {
        slab_get(&self.slots, id).is_some()
    }

    /// The buffer of the open handle `id`, or `None` if `id` is not open.
    pub fn get(&self, id: usize) -> (buf: Option<&Vec<u8>>)
        ensures
            buf.is_some() == self@.contains_key(id),
            buf.is_some() ==> buf.unwrap()@ == self@[id],
    {
        slab_get(&self.slots, id)
    }

    /// Opens a new handle with an empty buffer and returns its id, which was
    /// not open before. Every other handle is left as it was.
    pub fn allocate(&mut self) -> (id: usize)
        ensures
            allocated(old(self)@, id, final(self)@),
    {
        slab_insert(&mut self.slots, Vec::new())
    }

    /// Writes `bytes` at `offset` into the buffer of handle `id`: the buffer
    /// grows to `offset + bytes.len()` if it was shorter, new bytes before
    /// `offset` are zero, and `bytes` then occupy the written interval.
    /// Fails, changing nothing, exactly if `id` is not open.
    pub fn append_or_extend(&mut self, id: usize, offset: usize, bytes: &[u8]) -> (res: Result<
        (),
        NotFound,
    >)
        requires
            offset + bytes@.len() <= usize::MAX,
        ensures
            res.is_ok() == old(self)@.contains_key(id),
            res.is_ok() ==> final(self)@ == old(self)@.insert(
                id,
                write_at(old(self)@[id], offset as nat, bytes@),
            ),
            res.is_err() ==> final(self)@ == old(self)@,
    {
        match slab_get_mut(&mut self.slots, id) {
            Some(buf) => {
                overwrite(buf, offset, bytes);
                Ok(())
            },
            None => Err(NotFound),
        }
    }

    /// Closes handle `id` and returns its buffer. Fails, changing nothing,
    /// exactly if `id` is not open.
    pub fn take(&mut self, id: usize) -> (res: Result<Vec<u8>, NotFound>)
        ensures
            res.is_ok() == old(self)@.contains_key(id),
            res.is_ok() ==> res.unwrap()@ == old(self)@[id] && final(self)@ == old(self)@.remove(id),
            res.is_err() ==> final(self)@ == old(self)@,
    {
        match slab_try_remove(&mut self.slots, id) {
            Some(buf) => Ok(buf),
            None => {
                assert(old(self)@.remove(id) =~= old(self)@);
                Err(NotFound)
            },
        }
    }
}

} // verus!
