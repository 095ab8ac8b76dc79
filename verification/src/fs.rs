//! The file system: one write-only file whose handles collect what is
//! written and give it up as text when they are closed.

use crate::buffer::write_at;
use crate::protocol::{
    access_mode, root_attributes, AccessMode, Errno, FileAttributes, Operation, Reply, TTL_SECS,
};
use crate::table::{allocated, HandleTable};
use crate::text::{from_utf8_lossy, utf8_lossy};
use vstd::prelude::*;
use vstd::utf8::{decode_utf8, valid_utf8};

verus! {

/// Whether the handle `fh` of a request is open in `files`.
pub open spec fn handle_open(files: Map<usize, Seq<u8>>, fh: u64) -> bool {
    fh <= usize::MAX && files.contains_key(fh as usize)
}

/// The reply to an attribute query on a file system owned by `uid` and `gid`.
pub open spec fn getattr_outcome(uid: u32, gid: u32, reply: Reply) -> bool {
    reply == (Reply::Attr { attr: root_attributes(uid, gid), ttl_secs: TTL_SECS })
}

/// An open request with `flags` takes the open handles from `pre` to `post`
/// and is answered with `reply`.
///
/// A request for writing only opens a handle that was not open before, with
/// an empty buffer, and is answered with that handle and the hints to use
/// direct I/O and to keep no cache. Any other request changes nothing and is
/// answered with a permission error.
pub open spec fn open_outcome(
    pre: Map<usize, Seq<u8>>,
    flags: u32,
    post: Map<usize, Seq<u8>>,
    reply: Reply,
) -> bool {
    if access_mode(flags) == AccessMode::WriteOnly {
        &&& reply matches Reply::Opened { fh, direct_io, keep_cache }
        &&& fh <= usize::MAX
        &&& allocated(pre, fh as usize, post)
        &&& direct_io
        &&& !keep_cache
    } else {
        &&& post == pre
        &&& reply == Reply::Error(Errno::PermissionDenied)
    }
}

/// A request to write `data` at `offset` through `fh` takes the open handles
/// from `pre` to `post` and is answered with `reply`.
///
/// If `fh` is open, its buffer becomes `write_at` of what it was, and the
/// answer is the number of bytes in `data`. If not, nothing changes and the
/// answer is an I/O error.
pub open spec fn write_outcome(
    pre: Map<usize, Seq<u8>>,
    fh: u64,
    offset: u64,
    data: Seq<u8>,
    post: Map<usize, Seq<u8>>,
    reply: Reply,
) -> bool {
    if handle_open(pre, fh) {
        &&& post == pre.insert(fh as usize, write_at(pre[fh as usize], offset as nat, data))
        &&& reply == (Reply::Written { size: data.len() as usize })
    } else {
        &&& post == pre
        &&& reply == Reply::Error(Errno::Io)
    }
}

/// A request to close `fh` takes the open handles from `pre` to `post` and is
/// answered with `reply`.
///
/// If `fh` is open, it is closed and the answer carries the lossy UTF-8
/// decoding of its buffer, which for a buffer of valid UTF-8 is the text
/// that the buffer encodes. If not, nothing changes and the answer is an I/O
/// error.
pub open spec fn release_outcome(
    pre: Map<usize, Seq<u8>>,
    fh: u64,
    post: Map<usize, Seq<u8>>,
    reply: Reply,
) -> bool {
    if handle_open(pre, fh) {
        &&& post == pre.remove(fh as usize)
        &&& reply matches Reply::Released { status }
        &&& status@ == utf8_lossy(pre[fh as usize])
        &&& valid_utf8(pre[fh as usize]) ==> status@ == decode_utf8(pre[fh as usize])
    } else {
        &&& post == pre
        &&& reply == Reply::Error(Errno::Io)
    }
}

/// An open that succeeds gives a handle that was not open, and leaves every
/// handle that was open as it was: whatever happened since another handle
/// was given out, as long as that one is still open the new one differs
/// from it.
pub proof fn lemma_open_gives_a_fresh_handle(
    pre: Map<usize, Seq<u8>>,
    flags: u32,
    post: Map<usize, Seq<u8>>,
    reply: Reply,
    other: u64,
)
    requires
        open_outcome(pre, flags, post, reply),
        reply is Opened,
        handle_open(pre, other),
    ensures
        reply->fh != other,
        handle_open(post, reply->fh),
        post[reply->fh as usize] == Seq::<u8>::empty(),
        handle_open(post, other),
        post[other as usize] == pre[other as usize],
{
}

/// Two opens that follow one another and both succeed give different
/// handles, and both handles are open afterwards.
pub proof fn lemma_opens_are_distinct(
    pre: Map<usize, Seq<u8>>,
    flags1: u32,
    mid: Map<usize, Seq<u8>>,
    first: Reply,
    flags2: u32,
    post: Map<usize, Seq<u8>>,
    second: Reply,
)
    requires
        open_outcome(pre, flags1, mid, first),
        open_outcome(mid, flags2, post, second),
        first is Opened,
        second is Opened,
    ensures
        first->fh != second->fh,
        handle_open(post, first->fh),
        handle_open(post, second->fh),
{
}

/// After a request to close a handle, a write through that handle is
/// answered with an I/O error and changes nothing.
pub proof fn lemma_write_after_release(
    pre: Map<usize, Seq<u8>>,
    fh: u64,
    mid: Map<usize, Seq<u8>>,
    first: Reply,
    offset: u64,
    data: Seq<u8>,
    post: Map<usize, Seq<u8>>,
    second: Reply,
)
    requires
        release_outcome(pre, fh, mid, first),
        write_outcome(mid, fh, offset, data, post, second),
    ensures
        second == Reply::Error(Errno::Io),
        post == mid,
{
}

/// After a request to close a handle, a second request to close it is
/// answered with an I/O error and changes nothing: a handle gives up its
/// buffer at most once.
pub proof fn lemma_release_after_release(
    pre: Map<usize, Seq<u8>>,
    fh: u64,
    mid: Map<usize, Seq<u8>>,
    first: Reply,
    post: Map<usize, Seq<u8>>,
    second: Reply,
)
    requires
        release_outcome(pre, fh, mid, first),
        release_outcome(mid, fh, post, second),
    ensures
        second == Reply::Error(Errno::Io),
        post == mid,
{
}

/// The state of the file system: the handles that are open, and the owner
/// that the file is reported to have.
pub struct TweetFS {
    files: HandleTable,
    uid: u32,
    gid: u32,
}

impl View for TweetFS {
    type V = Map<usize, Seq<u8>>;

    /// The open handles, each with the bytes written through it so far.
    closed spec fn view(&self) -> Map<usize, Seq<u8>> {
        self.files@
    }
}

/// The index under which the table holds the handle `fh`, if the machine has
/// such an index.
fn table_index(fh: u64) -> (id: Option<usize>)
    ensures
        id.is_some() == (fh <= usize::MAX),
        id.is_some() ==> id.unwrap() == fh,
{
    if fh <= usize::MAX as u64 {
        Some(fh as usize)
    } else {
        None
    }
}

impl TweetFS {
    /// The user that owns the file.
    pub closed spec fn owner_uid(&self) -> u32 {
        self.uid
    }

    /// The group that owns the file.
    pub closed spec fn owner_gid(&self) -> u32 {
        self.gid
    }

    /// A file system without any open handle, whose file belongs to `uid`
    /// and `gid`.
    pub fn new(uid: u32, gid: u32) -> (fs: Self)
        ensures
            fs@ == Map::<usize, Seq<u8>>::empty(),
            fs.owner_uid() == uid,
            fs.owner_gid() == gid,
    {
        TweetFS { files: HandleTable::new(), uid, gid }
    }

    /// Whether `fh` is an open handle.
    pub fn is_open(&self, fh: u64) -> (open: bool)
        ensures
            open == handle_open(self@, fh),
    {
        match table_index(fh) {
            Some(id) => self.files.contains(id),
            None => false,
        }
    }

    /// Whether no handle is open.
    pub fn is_idle(&self) -> (idle: bool)
        ensures
            idle == self@.is_empty(),
    {
        self.files.is_empty()
    }

    /// Answers an attribute query.
    pub fn getattr(&self) -> (reply: Reply)
        ensures
            getattr_outcome(self.owner_uid(), self.owner_gid(), reply),
    {
        Reply::Attr { attr: FileAttributes::root(self.uid, self.gid), ttl_secs: TTL_SECS }
    }

    /// Answers an open request.
    pub fn open(&mut self, flags: u32) -> (reply: Reply)
        ensures
            open_outcome(old(self)@, flags, final(self)@, reply),
            final(self).owner_uid() == old(self).owner_uid(),
            final(self).owner_gid() == old(self).owner_gid(),
    {
        match AccessMode::from_flags(flags) {
            AccessMode::WriteOnly => {
                let id = self.files.allocate();
                Reply::Opened { fh: id as u64, direct_io: true, keep_cache: false }
            },
            _ => Reply::Error(Errno::PermissionDenied),
        }
    }

    /// Answers a write request.
    pub fn write(&mut self, fh: u64, offset: u64, data: &[u8]) -> (reply: Reply)
        requires
            offset + data@.len() <= usize::MAX,
        ensures
            write_outcome(old(self)@, fh, offset, data@, final(self)@, reply),
            final(self).owner_uid() == old(self).owner_uid(),
            final(self).owner_gid() == old(self).owner_gid(),
    {
        let id = match table_index(fh) {
            Some(id) => id,
            None => {
                return Reply::Error(Errno::Io);
            },
        };
        match self.files.append_or_extend(id, offset as usize, data) {
            Ok(()) => Reply::Written { size: data.len() },
            Err(_) => Reply::Error(Errno::Io),
        }
    }

    /// Answers a request to close a handle.
    pub fn release(&mut self, fh: u64) -> (reply: Reply)
        ensures
            release_outcome(old(self)@, fh, final(self)@, reply),
            final(self).owner_uid() == old(self).owner_uid(),
            final(self).owner_gid() == old(self).owner_gid(),
    {
        let id = match table_index(fh) {
            Some(id) => id,
            None => {
                return Reply::Error(Errno::Io);
            },
        };
        match self.files.take(id) {
            Ok(buf) => Reply::Released { status: from_utf8_lossy(buf.as_slice()) },
            Err(_) => Reply::Error(Errno::Io),
        }
    }

    /// Answers a request of any kind: routes it to the operation that it
    /// names, and leaves the state alone if it names none.
    pub fn call(&mut self, op: Operation) -> (reply: Reply)
        requires
            op matches Operation::Write { offset, data, .. } ==> offset + data@.len() <= usize::MAX,
        ensures
            final(self).owner_uid() == old(self).owner_uid(),
            final(self).owner_gid() == old(self).owner_gid(),
            match op {
                Operation::Getattr => final(self)@ == old(self)@ && getattr_outcome(
                    old(self).owner_uid(),
                    old(self).owner_gid(),
                    reply,
                ),
                Operation::Open { flags } => open_outcome(old(self)@, flags, final(self)@, reply),
                Operation::Write { fh, offset, data } => write_outcome(
                    old(self)@,
                    fh,
                    offset,
                    data@,
                    final(self)@,
                    reply,
                ),
                Operation::Release { fh } => release_outcome(old(self)@, fh, final(self)@, reply),
                Operation::Other => final(self)@ == old(self)@ && reply == Reply::Unhandled,
            },
    {
        match op {
            Operation::Getattr => self.getattr(),
            Operation::Open { flags } => self.open(flags),
            Operation::Write { fh, offset, data } => self.write(fh, offset, data.as_slice()),
            Operation::Release { fh } => self.release(fh),
            Operation::Other => Reply::Unhandled,
        }
    }
}

} // verus!
