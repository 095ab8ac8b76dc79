//! Content buffers: growable byte sequences written at arbitrary offsets.

use vstd::prelude::*;

verus! {

/// The buffer that results from writing `data` at `offset` into `buf`.
///
/// Its length is the larger of `buf.len()` and `offset + data.len()`. Bytes
/// inside the written interval are those of `data`, bytes of `buf` outside
/// the interval are kept, and every other byte is zero.
pub open spec fn write_at(buf: Seq<u8>, offset: nat, data: Seq<u8>) -> Seq<u8> {
    Seq::new(
        if buf.len() >= offset + data.len() { buf.len() } else { offset + data.len() },
        |i: int|
            if offset <= i < offset + data.len() {
                data[i - offset]
            } else if i < buf.len() {
                buf[i]
            } else {
                0u8
            },
    )
}

/// Writes `data` into `buf` at `offset`, growing `buf` with zero bytes if the
/// written interval ends beyond its current length.
pub fn overwrite(buf: &mut Vec<u8>, offset: usize, data: &[u8])
    requires
        offset + data@.len() <= usize::MAX,
    ensures
        final(buf)@ == write_at(old(buf)@, offset as nat, data@),
{
    let end: usize = offset + data.len();
    if end > buf.len() {
        buf.resize(end, 0u8);
    }
    let ghost grown = buf@;
    let mut i: usize = 0;
    while i < data.len()
        invariant
            i <= data@.len(),
            end == offset + data@.len(),
            buf@.len() == grown.len(),
            end <= grown.len(),
            forall|j: int| 0 <= j < grown.len() ==> buf@[j] == (if offset <= j < offset + i {
                data@[j - offset]
            } else {
                grown[j]
            }),
        decreases data@.len() - i,
    {
        buf[offset + i] = data[i];
        i = i + 1;
    }
}

/// One write in the history of a buffer: a payload and the offset at which
/// it was written.
pub struct WriteOp {
    pub offset: nat,
    pub data: Seq<u8>,
}

impl WriteOp {
    /// The position just past the last byte of the written interval.
    pub open spec fn end(self) -> nat {
        self.offset + self.data.len()
    }

    /// Whether position `i` lies inside the written interval.
    pub open spec fn covers(self, i: int) -> bool {
        self.offset <= i < self.end()
    }
}

/// The buffer that results from applying `writes` to `buf`, first to last.
pub open spec fn apply_writes(buf: Seq<u8>, writes: Seq<WriteOp>) -> Seq<u8>
    decreases writes.len(),
{
    if writes.len() == 0 {
        buf
    } else {
        write_at(apply_writes(buf, writes.drop_last()), writes.last().offset, writes.last().data)
    }
}

/// The largest end of any write in `writes`, and 0 if there is none.
pub open spec fn extent(writes: Seq<WriteOp>) -> nat
    decreases writes.len(),
{
    if writes.len() == 0 {
        0
    } else {
        let rest = extent(writes.drop_last());
        if rest >= writes.last().end() {
            rest
        } else {
            writes.last().end()
        }
    }
}

/// Whether write `k` is the last of `writes` whose interval holds position `i`.
pub open spec fn last_cover(writes: Seq<WriteOp>, k: int, i: int) -> bool {
    &&& 0 <= k < writes.len()
    &&& writes[k].covers(i)
    &&& forall|j: int| k < j < writes.len() ==> !(#[trigger] writes[j]).covers(i)
}

/// Whether no write of `writes` holds position `i` in its interval.
pub open spec fn uncovered(writes: Seq<WriteOp>, i: int) -> bool {
    forall|k: int| 0 <= k < writes.len() ==> !(#[trigger] writes[k]).covers(i)
}

/// `extent` is the maximum of the ends of the writes: no write ends beyond
/// it, and unless there is no write at all, some write ends exactly there.
pub proof fn lemma_extent_is_max(writes: Seq<WriteOp>)
    ensures
        forall|k: int| 0 <= k < writes.len() ==> (#[trigger] writes[k]).end() <= extent(writes),
        writes.len() > 0 ==> exists|k: int|
            0 <= k < writes.len() && (#[trigger] writes[k]).end() == extent(writes),
    decreases writes.len(),
{
    if writes.len() > 0 {
        let rest = writes.drop_last();
        lemma_extent_is_max(rest);
        assert forall|k: int| 0 <= k < writes.len() implies (#[trigger] writes[k]).end() <= extent(
            writes,
        ) by {
            if k < rest.len() {
                assert(rest[k] == writes[k]);
            }
        }
        if extent(writes) == writes.last().end() {
            assert(writes[writes.len() - 1].end() == extent(writes));
        } else {
            let k = choose|k: int| 0 <= k < rest.len() && (#[trigger] rest[k]).end() == extent(rest);
            assert(writes[k] == rest[k]);
        }
    }
}

/// What a history of writes leaves in a buffer that started as `buf`: the
/// length is the larger of `buf.len()` and the extent of the writes; a
/// position inside some write holds the byte that the last such write put
/// there; any other position holds the byte of `buf`, or zero beyond it.
pub proof fn lemma_apply_writes(buf: Seq<u8>, writes: Seq<WriteOp>)
    ensures
        apply_writes(buf, writes).len() == if buf.len() >= extent(writes) {
            buf.len()
        } else {
            extent(writes)
        },
        forall|k: int, i: int| #[trigger]
            last_cover(writes, k, i) ==> 0 <= i < apply_writes(buf, writes).len() && apply_writes(
                buf,
                writes,
            )[i] == writes[k].data[i - writes[k].offset],
        forall|i: int|
            0 <= i < apply_writes(buf, writes).len() && #[trigger] uncovered(writes, i)
                ==> apply_writes(buf, writes)[i] == if i < buf.len() {
                buf[i]
            } else {
                0u8
            },
    decreases writes.len(),
{
    if writes.len() > 0 {
        let rest = writes.drop_last();
        let w = writes.last();
        lemma_apply_writes(buf, rest);
        assert forall|k: int, i: int| #[trigger] last_cover(writes, k, i) implies 0 <= i
            < apply_writes(buf, writes).len() && apply_writes(buf, writes)[i] == writes[k].data[i
            - writes[k].offset] by {
            lemma_extent_is_max(rest);
            if k < rest.len() {
                assert(!writes[writes.len() - 1].covers(i));
                assert(rest[k] == writes[k]);
                assert forall|j: int| k < j < rest.len() implies !(#[trigger] rest[j]).covers(
                    i,
                ) by {
                    assert(rest[j] == writes[j]);
                }
                assert(last_cover(rest, k, i));
            }
        }
        assert forall|i: int|
            0 <= i < apply_writes(buf, writes).len() && #[trigger] uncovered(
                writes,
                i,
            ) implies apply_writes(buf, writes)[i] == if i < buf.len() {
            buf[i]
        } else {
            0u8
        } by {
            assert(!writes[writes.len() - 1].covers(i));
            assert forall|k: int| 0 <= k < rest.len() implies !(#[trigger] rest[k]).covers(i) by {
                assert(rest[k] == writes[k]);
            }
            assert(uncovered(rest, i));
        }
    }
}

/// A handle's buffer starts empty. After any history of writes its length is
/// the largest `offset + data.len()` among them, and every byte that no
/// write covered is zero.
pub proof fn lemma_writes_to_empty_buffer(writes: Seq<WriteOp>)
    ensures
        apply_writes(Seq::<u8>::empty(), writes).len() == extent(writes),
        forall|i: int|
            0 <= i < extent(writes) && #[trigger] uncovered(writes, i) ==> apply_writes(
                Seq::<u8>::empty(),
                writes,
            )[i] == 0u8,
{
    lemma_apply_writes(Seq::<u8>::empty(), writes);
}

} // verus!
