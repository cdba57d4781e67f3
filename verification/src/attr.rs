//! Attribute records. Nothing is stored: an attribute record is built from a
//! catalog row each time it is asked for.

use vstd::prelude::*;

verus! {

/// Seconds for which the transport may keep an answer.
pub const TTL_SECONDS: i64 = 60;

/// The time stamp of the fixed directories, which have no time of their
/// own: one second past the epoch, so that it differs from zero.
pub const NOTIME_SECONDS: i64 = 1;

/// Permission bits of every entry: read and execute for all, write for none.
pub const PERMISSIONS: u16 = 0o555;

/// A point in time: seconds since the epoch, and nanoseconds within the second.
#[derive(Clone, Copy, Debug, PartialEq, Eq, Structural)]
pub struct Timespec {
    pub sec: i64,
    pub nsec: i32,
}

/// The two kinds of entry that the tree holds.
#[derive(Clone, Copy, Debug, PartialEq, Eq, Structural)]
pub enum FileType {
    Directory,
    RegularFile,
}

/// The attributes of one entry, field for field as the transport wants them.
#[derive(Clone, Copy, Debug, PartialEq, Eq, Structural)]
pub struct FileAttr {
    pub ino: u64,
    pub size: u64,
    pub blocks: u64,
    pub atime: Timespec,
    pub mtime: Timespec,
    pub ctime: Timespec,
    pub crtime: Timespec,
    pub kind: FileType,
    pub perm: u16,
    pub nlink: u32,
    pub uid: u32,
    pub gid: u32,
    pub rdev: u32,
    pub flags: u32,
}

/// The whole second `sec`.
pub open spec fn seconds_spec(sec: i64) -> Timespec {
    Timespec { sec, nsec: 0 }
}

/// The attributes of an entry of the given kind and size whose four time
/// stamps are all `ts`: one link, owned by nobody, read-only.
pub open spec fn attr_spec(inode: u64, size: u64, kind: FileType, ts: Timespec) -> FileAttr {
    FileAttr {
        ino: inode,
        size,
        blocks: 0,
        atime: ts,
        mtime: ts,
        ctime: ts,
        crtime: ts,
        kind,
        perm: PERMISSIONS,
        nlink: 1,
        uid: 0,
        gid: 0,
        rdev: 0,
        flags: 0,
    }
}

/// The attributes of a fixed directory.
pub open spec fn container_attr_spec(inode: u64) -> FileAttr {
    attr_spec(inode, 0, FileType::Directory, seconds_spec(NOTIME_SECONDS))
}

/// The time for which the transport may keep an answer.
pub fn ttl() -> (t: Timespec)
    ensures
        t == seconds_spec(TTL_SECONDS),
{
    Timespec { sec: TTL_SECONDS, nsec: 0 }
}

/// The time stamp that stands for "no time known".
pub fn notime() -> (t: Timespec)
    ensures
        t == seconds_spec(NOTIME_SECONDS),
{
    Timespec { sec: NOTIME_SECONDS, nsec: 0 }
}

/// The whole second `sec` as a time stamp.
pub fn seconds(sec: i64) -> (t: Timespec)
    ensures
        t == seconds_spec(sec),
{
    Timespec { sec, nsec: 0 }
}

/// The attributes of a directory created at `ts`.
pub fn make_dirattr(inode: u64, ts: Timespec) -> (attr: FileAttr)
    ensures
        attr == attr_spec(inode, 0, FileType::Directory, ts),
{
    FileAttr {
        ino: inode,
        size: 0,
        blocks: 0,
        atime: ts,
        mtime: ts,
        ctime: ts,
        crtime: ts,
        kind: FileType::Directory,
        perm: PERMISSIONS,
        nlink: 1,
        uid: 0,
        gid: 0,
        rdev: 0,
        flags: 0,
    }
}

/// The attributes of a regular file of `filesize` bytes taken at `ts`.
pub fn make_fileattr(inode: u64, filesize: u64, ts: Timespec) -> (attr: FileAttr)
    ensures
        attr == attr_spec(inode, filesize, FileType::RegularFile, ts),
{
    FileAttr {
        ino: inode,
        size: filesize,
        blocks: 0,
        atime: ts,
        mtime: ts,
        ctime: ts,
        crtime: ts,
        kind: FileType::RegularFile,
        perm: PERMISSIONS,
        nlink: 1,
        uid: 0,
        gid: 0,
        rdev: 0,
        flags: 0,
    }
}

/// The attributes of a fixed directory: a directory without a time of its own.
pub fn container_attr(inode: u64) -> (attr: FileAttr)
    ensures
        attr == container_attr_spec(inode),
{
    make_dirattr(inode, notime())
}

} // verus!
