//! What the kernel reports in a metadata record, apart from any layout.
//!
//! A record type of this crate is built from these values and hands them
//! back unchanged: they are its view.
use vstd::prelude::*;

verus! {

/// The legacy metadata call, which goes by a different name on different
/// architectures.
#[derive(Copy, Clone, Debug, PartialEq, Eq, Structural)]
pub enum LegacyCall {
    Fstatat,
    Fstatat64,
    Newfstatat,
}

/// The values of a legacy metadata record, each in the widest type that any
/// architecture gives it.
#[derive(Copy, Clone, Debug, PartialEq, Eq, Structural)]
pub struct StatFields {
    pub dev: u64,
    pub ino: u64,
    pub mode: u32,
    pub nlink: u64,
    pub uid: u32,
    pub gid: u32,
    pub rdev: u64,
    pub size: i64,
    pub blksize: i64,
    pub blocks: i64,
    pub atime: i64,
    pub atime_nsec: u64,
    pub mtime: i64,
    pub mtime_nsec: u64,
    pub ctime: i64,
    pub ctime_nsec: u64,
}

impl StatFields {
    /// The record in which every value is zero.
    pub open spec fn zero() -> Self {
        StatFields {
            dev: 0,
            ino: 0,
            mode: 0,
            nlink: 0,
            uid: 0,
            gid: 0,
            rdev: 0,
            size: 0,
            blksize: 0,
            blocks: 0,
            atime: 0,
            atime_nsec: 0,
            mtime: 0,
            mtime_nsec: 0,
            ctime: 0,
            ctime_nsec: 0,
        }
    }

    /// The record in which every value is zero.
    pub fn zeroed() -> (r: Self)
        ensures
            r == Self::zero(),
    {
        StatFields {
            dev: 0,
            ino: 0,
            mode: 0,
            nlink: 0,
            uid: 0,
            gid: 0,
            rdev: 0,
            size: 0,
            blksize: 0,
            blocks: 0,
            atime: 0,
            atime_nsec: 0,
            mtime: 0,
            mtime_nsec: 0,
            ctime: 0,
            ctime_nsec: 0,
        }
    }
}

/// The values of an extended metadata record, as the kernel defines them.
#[derive(Copy, Clone, Debug, PartialEq, Eq, Structural)]
pub struct StatxFields {
    pub mask: u32,
    pub blksize: u32,
    pub attributes: u64,
    pub nlink: u32,
    pub uid: u32,
    pub gid: u32,
    pub mode: u16,
    pub ino: u64,
    pub size: u64,
    pub blocks: u64,
    pub attributes_mask: u64,
    pub atime: i64,
    pub atime_nsec: u32,
    pub btime: i64,
    pub btime_nsec: u32,
    pub ctime: i64,
    pub ctime_nsec: u32,
    pub mtime: i64,
    pub mtime_nsec: u32,
    pub rdev_major: u32,
    pub rdev_minor: u32,
    pub dev_major: u32,
    pub dev_minor: u32,
    pub mnt_id: u64,
    pub dio_mem_align: u32,
    pub dio_offset_align: u32,
}

impl StatxFields {
    /// The record in which every value is zero.
    pub open spec fn zero() -> Self {
        StatxFields {
            mask: 0,
            blksize: 0,
            attributes: 0,
            nlink: 0,
            uid: 0,
            gid: 0,
            mode: 0,
            ino: 0,
            size: 0,
            blocks: 0,
            attributes_mask: 0,
            atime: 0,
            atime_nsec: 0,
            btime: 0,
            btime_nsec: 0,
            ctime: 0,
            ctime_nsec: 0,
            mtime: 0,
            mtime_nsec: 0,
            rdev_major: 0,
            rdev_minor: 0,
            dev_major: 0,
            dev_minor: 0,
            mnt_id: 0,
            dio_mem_align: 0,
            dio_offset_align: 0,
        }
    }

    /// The record in which every value is zero.
    pub fn zeroed() -> (r: Self)
        ensures
            r == Self::zero(),
    {
        StatxFields {
            mask: 0,
            blksize: 0,
            attributes: 0,
            nlink: 0,
            uid: 0,
            gid: 0,
            mode: 0,
            ino: 0,
            size: 0,
            blocks: 0,
            attributes_mask: 0,
            atime: 0,
            atime_nsec: 0,
            btime: 0,
            btime_nsec: 0,
            ctime: 0,
            ctime_nsec: 0,
            mtime: 0,
            mtime_nsec: 0,
            rdev_major: 0,
            rdev_minor: 0,
            dev_major: 0,
            dev_minor: 0,
            mnt_id: 0,
            dio_mem_align: 0,
            dio_offset_align: 0,
        }
    }
}

} // verus!

verus! {

/// What a metadata record says of a file, whatever call and architecture it
/// came from: the view that all records share.
pub struct Metadata {
    /// Major and minor number of the device on which the file resides.
    pub dev: (u32, u32),
    /// Major and minor number of the device that the file stands for.
    pub rdev: (u32, u32),
    pub ino: u64,
    pub nlink: u32,
    pub uid: u32,
    pub gid: u32,
    /// The mode word: file type and permission bits.
    pub mode: u16,
    pub size: i64,
    pub block_size: i32,
    pub blocks: i64,
    /// Seconds and nanoseconds of the last access.
    pub atime: (i64, u32),
    /// Seconds and nanoseconds of the last modification.
    pub mtime: (i64, u32),
    /// Seconds and nanoseconds of the last status change.
    pub ctime: (i64, u32),
}

} // verus!
