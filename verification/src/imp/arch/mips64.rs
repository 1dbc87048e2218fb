//! The kernel interface of 64-bit MIPS: the numbers of the metadata calls and
//! the legacy record.
use vstd::prelude::*;

pub use super::mips::{lemma_failure_is_error_word, outcome_word, syscall_word};

verus! {

/// The number of the legacy metadata call.
pub const SYS_fstatat: usize = 5252;

/// The number of the extended metadata call.
pub const SYS_statx: usize = 5326;

/// The record that the legacy call fills in, field by field as the kernel
/// lays it out.
#[derive(Copy, Clone, Debug)]
pub struct stat {
    pub st_dev: u32,
    pub __pad0: [u32; 3],
    pub st_ino: u64,
    pub st_mode: u32,
    pub st_nlink: u32,
    pub st_uid: u32,
    pub st_gid: u32,
    pub st_rdev: u32,
    pub __pad1: [u32; 3],
    pub st_size: i64,
    pub st_atime_sec: u32,
    pub st_atime_nsec: u32,
    pub st_mtime_sec: u32,
    pub st_mtime_nsec: u32,
    pub st_ctime_sec: u32,
    pub st_ctime_nsec: u32,
    pub st_blksize: u32,
    pub __pad2: u32,
    pub st_blocks: i64,
}

impl stat {
    /// Whether every padding field of the record is zero.
    pub open spec fn padding_is_zero(&self) -> bool {
        self.__pad0[0] == 0 && self.__pad0[1] == 0 && self.__pad0[2] == 0 && self.__pad1[0] == 0 && self.__pad1[1] == 0 && self.__pad1[2] == 0 && self.__pad2 == 0
    }

    /// A blank record, as it is handed to the kernel: the padding is zero, and
    /// so is everything else.
    pub fn uninit() -> (r: Self)
        ensures
            r.padding_is_zero(),
            r == (stat {
                st_dev: 0,
                __pad0: [0, 0, 0],
                st_ino: 0,
                st_mode: 0,
                st_nlink: 0,
                st_uid: 0,
                st_gid: 0,
                st_rdev: 0,
                __pad1: [0, 0, 0],
                st_size: 0,
                st_atime_sec: 0,
                st_atime_nsec: 0,
                st_mtime_sec: 0,
                st_mtime_nsec: 0,
                st_ctime_sec: 0,
                st_ctime_nsec: 0,
                st_blksize: 0,
                __pad2: 0,
                st_blocks: 0,
            }),
    {
        stat {
            st_dev: 0,
            __pad0: [0, 0, 0],
            st_ino: 0,
            st_mode: 0,
            st_nlink: 0,
            st_uid: 0,
            st_gid: 0,
            st_rdev: 0,
            __pad1: [0, 0, 0],
            st_size: 0,
            st_atime_sec: 0,
            st_atime_nsec: 0,
            st_mtime_sec: 0,
            st_mtime_nsec: 0,
            st_ctime_sec: 0,
            st_ctime_nsec: 0,
            st_blksize: 0,
            __pad2: 0,
            st_blocks: 0,
        }
    }
}

} // verus!
