//! The operations that the transport hands to the file system and the
//! replies that it takes back, as plain values.
//!
//! Flags, file modes and error numbers have the values that the FUSE kernel
//! interface carries on the wire, which are those of Linux.

use vstd::prelude::*;

verus! {

/// Inode number of the one file that exists.
pub const ROOT_INO: u64 = 1;

/// Seconds for which the kernel may cache the attributes: one year, as the
/// attributes never change.
pub const TTL_SECS: u64 = 60 * 60 * 24 * 365;

/// File-type bits of a regular file in a mode.
pub const S_IFREG: u32 = 0o100000;

/// Permission bit of a mode: the owner may write.
pub const S_IWUSR: u32 = 0o200;

/// Mask of the access mode in the flags of an open request.
pub const O_ACCMODE: u32 = 3;

/// Access mode of an open request: reading only.
pub const O_RDONLY: u32 = 0;

/// Access mode of an open request: writing only.
pub const O_WRONLY: u32 = 1;

/// Access mode of an open request: reading and writing.
pub const O_RDWR: u32 = 2;

/// Error number: operation not permitted.
pub const EPERM: i32 = 1;

/// Error number: input/output error.
pub const EIO: i32 = 5;

/// How an open request wants to access the file.
#[derive(Debug, Clone, Copy, PartialEq, Eq, Structural)]
pub enum AccessMode {
    ReadOnly,
    WriteOnly,
    ReadWrite,
    /// The access-mode bits hold a value that names no mode.
    Invalid,
}

/// The access mode that `flags` ask for: the value under `O_ACCMODE`.
pub open spec fn access_mode(flags: u32) -> AccessMode {
    let bits = flags & O_ACCMODE;
    if bits == O_RDONLY {
        AccessMode::ReadOnly
    } else if bits == O_WRONLY {
        AccessMode::WriteOnly
    } else if bits == O_RDWR {
        AccessMode::ReadWrite
    } else {
        AccessMode::Invalid
    }
}

impl AccessMode {
    /// Reads the access mode out of the flags of an open request.
    pub fn from_flags(flags: u32) -> (mode: AccessMode)
        ensures
            mode == access_mode(flags),
    {
        let bits: u32 = flags & O_ACCMODE;
        if bits == O_RDONLY {
            AccessMode::ReadOnly
        } else if bits == O_WRONLY {
            AccessMode::WriteOnly
        } else if bits == O_RDWR {
            AccessMode::ReadWrite
        } else {
            AccessMode::Invalid
        }
    }
}

/// The access mode is the value of the two lowest bits of the flags, and no
/// other bit bears on it.
pub proof fn lemma_access_mode_is_low_bits(flags: u32)
    ensures
        access_mode(flags) == AccessMode::ReadOnly <==> flags % 4 == 0,
        access_mode(flags) == AccessMode::WriteOnly <==> flags % 4 == 1,
        access_mode(flags) == AccessMode::ReadWrite <==> flags % 4 == 2,
        access_mode(flags) == AccessMode::Invalid <==> flags % 4 == 3,
{
    assert(flags & 3 == flags % 4) by (bit_vector);
}

/// The errors that a reply can carry.
#[derive(Debug, Clone, Copy, PartialEq, Eq, Structural)]
pub enum Errno {
    /// The request asked for an access that is never granted.
    PermissionDenied,
    /// The request named a handle that is not open.
    Io,
}

impl Errno {
    /// The error number that stands for this error on the wire.
    pub open spec fn code_of(self) -> i32 {
        match self {
            Errno::PermissionDenied => EPERM,
            Errno::Io => EIO,
        }
    }

    /// The error number that stands for this error on the wire.
    pub fn code(self) -> (code: i32)
        ensures
            code == self.code_of(),
    {
        match self {
            Errno::PermissionDenied => EPERM,
            Errno::Io => EIO,
        }
    }
}

/// The attributes of a file, as an attribute query reports them.
#[derive(Debug, Clone, Copy, PartialEq, Eq, Structural)]
pub struct FileAttributes {
    pub mode: u32,
    pub ino: u64,
    pub nlink: u32,
    pub uid: u32,
    pub gid: u32,
}

/// The attributes of the one file that exists, owned by `uid` and `gid`: a
/// regular file with one link that its owner may write and nobody may read.
pub open spec fn root_attributes(uid: u32, gid: u32) -> FileAttributes {
    FileAttributes { mode: S_IFREG | S_IWUSR, ino: ROOT_INO, nlink: 1, uid, gid }
}

impl FileAttributes {
    /// The attributes of the one file that exists, owned by `uid` and `gid`.
    pub fn root(uid: u32, gid: u32) -> (attr: FileAttributes)
        ensures
            attr == root_attributes(uid, gid),
    {
        FileAttributes { mode: S_IFREG | S_IWUSR, ino: ROOT_INO, nlink: 1, uid, gid }
    }
}

/// The mode of the file, written out: `0o100200`.
pub proof fn lemma_root_mode(uid: u32, gid: u32)
    ensures
        root_attributes(uid, gid).mode == 0o100200,
{
    assert(0o100000u32 | 0o200u32 == 0o100200u32) by (bit_vector);
}

/// A decoded request.
#[derive(Debug, PartialEq, Eq)]
pub enum Operation {
    /// Query the attributes of the file.
    Getattr,
    /// Open the file with the given open flags.
    Open { flags: u32 },
    /// Write `data` at `offset` through the handle `fh`.
    Write { fh: u64, offset: u64, data: Vec<u8> },
    /// Close the handle `fh`.
    Release { fh: u64 },
    /// Any other request.
    Other,
}

/// What the transport is to do in answer to a request.
#[derive(Debug, PartialEq, Eq)]
pub enum Reply {
    /// Send the attributes, valid for `ttl_secs` seconds.
    Attr { attr: FileAttributes, ttl_secs: u64 },
    /// Send the new handle, with the hints on caching and direct I/O.
    Opened { fh: u64, direct_io: bool, keep_cache: bool },
    /// Send the number of bytes that were accepted.
    Written { size: usize },
    /// Publish `status`, and report the close as successful whatever comes
    /// of publishing.
    Released { status: String },
    /// Send the error.
    Error(Errno),
    /// The request is not one that the file system handles: nothing was
    /// done, and the transport answers as it does by default.
    Unhandled,
}

} // verus!
