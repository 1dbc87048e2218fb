//! The kernel interface of the Motorola 68000 family: the numbers of the metadata calls and
//! the legacy record.
use vstd::prelude::*;

verus! {

/// The number of the legacy metadata call.
pub const SYS_fstatat: usize = 293;

/// The number of the extended metadata call.
pub const SYS_statx: usize = 379;

/// The record that the legacy call fills in, field by field as the kernel
/// lays it out.
#[derive(Copy, Clone, Debug)]
pub struct stat {
    pub st_dev: u64,
    pub __st_dev_padding: u16,
    pub __st_ino_truncated: i32,
    pub st_mode: u32,
    pub st_nlink: u32,
    pub st_uid: u32,
    pub st_gid: u32,
    pub st_rdev: u64,
    pub __st_rdev_padding: u16,
    pub st_size: i64,
    pub st_blksize: i32,
    pub st_blocks: i64,
    pub st_atime: i32,
    pub st_atime_nsec: i32,
    pub st_mtime: i32,
    pub st_mtime_nsec: i32,
    pub st_ctime: i32,
    pub st_ctime_nsec: i32,
    pub st_ino: u64,
}

impl stat {
    /// Whether every padding field of the record is zero.
    pub open spec fn padding_is_zero(&self) -> bool {
        self.__st_dev_padding == 0 && self.__st_ino_truncated == 0 && self.__st_rdev_padding == 0
    }

    /// A blank record, as it is handed to the kernel: the padding is zero, and
    /// so is everything else.
    pub fn uninit() -> (r: Self)
        ensures
            r.padding_is_zero(),
            r == (stat {
                st_dev: 0,
                __st_dev_padding: 0,
                __st_ino_truncated: 0,
                st_mode: 0,
                st_nlink: 0,
                st_uid: 0,
                st_gid: 0,
                st_rdev: 0,
                __st_rdev_padding: 0,
                st_size: 0,
                st_blksize: 0,
                st_blocks: 0,
                st_atime: 0,
                st_atime_nsec: 0,
                st_mtime: 0,
                st_mtime_nsec: 0,
                st_ctime: 0,
                st_ctime_nsec: 0,
                st_ino: 0,
            }),
    {
        stat {
            st_dev: 0,
            __st_dev_padding: 0,
            __st_ino_truncated: 0,
            st_mode: 0,
            st_nlink: 0,
            st_uid: 0,
            st_gid: 0,
            st_rdev: 0,
            __st_rdev_padding: 0,
            st_size: 0,
            st_blksize: 0,
            st_blocks: 0,
            st_atime: 0,
            st_atime_nsec: 0,
            st_mtime: 0,
            st_mtime_nsec: 0,
            st_ctime: 0,
            st_ctime_nsec: 0,
            st_ino: 0,
        }
    }
}

} // verus!
