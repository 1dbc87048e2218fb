//! The kernel interface of 32-bit MIPS: the numbers of the metadata calls and
//! the legacy record.
use crate::errno::{error_code, is_error_word};
use vstd::prelude::*;

verus! {

/// The number of the legacy metadata call.
pub const SYS_fstatat: usize = 4293;

/// The number of the extended metadata call.
pub const SYS_statx: usize = 4366;

/// The record that the legacy call fills in, field by field as the kernel
/// lays it out.
#[derive(Copy, Clone, Debug)]
pub struct stat {
    pub st_dev: u32,
    pub __pad0: [u32; 3],
    pub st_ino: u64,
    pub st_mode: u32,
    pub st_nlink: u32,
    pub st_uid: u32,
    pub st_gid: u32,
    pub st_rdev: u32,
    pub __pad1: [u32; 3],
    pub st_size: i64,
    pub st_atime: i32,
    pub st_atime_nsec: u32,
    pub st_mtime: i32,
    pub st_mtime_nsec: u32,
    pub st_ctime: i32,
    pub st_ctime_nsec: u32,
    pub st_blksize: u32,
    pub __pad2: u32,
    pub st_blocks: i64,
    pub __pad3: [u32; 14],
}

impl stat {
    /// Whether every padding field of the record is zero.
    pub open spec fn padding_is_zero(&self) -> bool {
        self.__pad0[0] == 0 && self.__pad0[1] == 0 && self.__pad0[2] == 0 && self.__pad1[0] == 0 && self.__pad1[1] == 0 && self.__pad1[2] == 0 && self.__pad2 == 0 && self.__pad3[0] == 0 && self.__pad3[1] == 0 && self.__pad3[2] == 0 && self.__pad3[3] == 0 && self.__pad3[4] == 0 && self.__pad3[5] == 0 && self.__pad3[6] == 0 && self.__pad3[7] == 0 && self.__pad3[8] == 0 && self.__pad3[9] == 0 && self.__pad3[10] == 0 && self.__pad3[11] == 0 && self.__pad3[12] == 0 && self.__pad3[13] == 0
    }

    /// A blank record, as it is handed to the kernel: the padding is zero, and
    /// so is everything else.
    pub fn uninit() -> (r: Self)
        ensures
            r.padding_is_zero(),
            r == (stat {
                st_dev: 0,
                __pad0: [0, 0, 0],
                st_ino: 0,
                st_mode: 0,
                st_nlink: 0,
                st_uid: 0,
                st_gid: 0,
                st_rdev: 0,
                __pad1: [0, 0, 0],
                st_size: 0,
                st_atime: 0,
                st_atime_nsec: 0,
                st_mtime: 0,
                st_mtime_nsec: 0,
                st_ctime: 0,
                st_ctime_nsec: 0,
                st_blksize: 0,
                __pad2: 0,
                st_blocks: 0,
                __pad3: [0, 0, 0, 0, 0, 0, 0, 0, 0, 0, 0, 0, 0, 0],
            }),
    {
        stat {
            st_dev: 0,
            __pad0: [0, 0, 0],
            st_ino: 0,
            st_mode: 0,
            st_nlink: 0,
            st_uid: 0,
            st_gid: 0,
            st_rdev: 0,
            __pad1: [0, 0, 0],
            st_size: 0,
            st_atime: 0,
            st_atime_nsec: 0,
            st_mtime: 0,
            st_mtime_nsec: 0,
            st_ctime: 0,
            st_ctime_nsec: 0,
            st_blksize: 0,
            __pad2: 0,
            st_blocks: 0,
            __pad3: [0, 0, 0, 0, 0, 0, 0, 0, 0, 0, 0, 0, 0, 0],
        }
    }
}

/// The word that stands for the outcome of a system call on the MIPS
/// architectures, where the kernel hands back a result and, apart from it, a
/// status: the result itself where the status is zero, and the result negated
/// in two's complement where it is not. On the other architectures the kernel
/// returns that word by itself.
pub open spec fn outcome_word(ret: usize, err: usize) -> usize {
    if err == 0 || ret == 0 {
        ret
    } else {
        (usize::MAX - ret + 1) as usize
    }
}

/// Folds result and status of a system call into the one word that the other
/// architectures return.
pub fn syscall_word(ret: usize, err: usize) -> (r: usize)
    ensures
        r == outcome_word(ret, err),
{
    if err == 0 || ret == 0 {
        ret
    } else {
        usize::MAX - ret + 1
    }
}

/// A failed call that reports one of the kernel's error codes comes out as
/// the error word of that code.
pub proof fn lemma_failure_is_error_word(ret: usize, err: usize)
    requires
        err != 0,
        1 <= ret <= 4096,
    ensures
        is_error_word(outcome_word(ret, err)),
        error_code(outcome_word(ret, err)) == ret,
{
}

} // verus!
