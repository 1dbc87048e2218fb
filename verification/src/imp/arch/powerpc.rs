//! The kernel interface of 32-bit PowerPC: the numbers of the metadata calls and
//! the legacy record.
use crate::imp::debug::{legacy_debug, legacy_text};
use crate::imp::Mode;
use crate::record::StatFields;
use crate::{Timestamp, NANOS_PER_SEC};
use vstd::prelude::*;

verus! {

/// The number of the legacy metadata call.
pub const SYS_fstatat: usize = 291;

/// The number of the extended metadata call.
pub const SYS_statx: usize = 383;

/// The record that the legacy call fills in, field by field as the kernel
/// lays it out.
#[derive(Copy, Clone, Debug)]
pub struct stat {
    st_dev: u64,
    st_ino: u64,
    st_mode: u32,
    st_nlink: u32,
    st_uid: u32,
    st_gid: u32,
    st_rdev: u64,
    __pad0: u16,
    st_size: i64,
    st_blksize: i32,
    st_blocks: i64,
    st_atime: i32,
    st_atime_nsec: u32,
    st_mtime: i32,
    st_mtime_nsec: u32,
    st_ctime: i32,
    st_ctime_nsec: u32,
    __pad1: [u32; 2],
}

impl View for stat {
    type V = StatFields;

    /// The values that the record holds.
    closed spec fn view(&self) -> StatFields {
        StatFields {
            dev: self.st_dev,
            ino: self.st_ino,
            mode: self.st_mode,
            nlink: self.st_nlink as u64,
            uid: self.st_uid,
            gid: self.st_gid,
            rdev: self.st_rdev,
            size: self.st_size,
            blksize: self.st_blksize as i64,
            blocks: self.st_blocks,
            atime: self.st_atime as i64,
            atime_nsec: self.st_atime_nsec as u64,
            mtime: self.st_mtime as i64,
            mtime_nsec: self.st_mtime_nsec as u64,
            ctime: self.st_ctime as i64,
            ctime_nsec: self.st_ctime_nsec as u64,
        }
    }
}

impl stat {
    #[verifier::type_invariant]
    spec fn inv(self) -> bool {
        &&& self.__pad0 == 0
        &&& self.st_atime_nsec < NANOS_PER_SEC
        &&& self.st_mtime_nsec < NANOS_PER_SEC
        &&& self.st_ctime_nsec < NANOS_PER_SEC
        &&& self.__pad1[0] == 0
        &&& self.__pad1[1] == 0
    }

    /// Whether every padding field of the record is zero.
    pub closed spec fn padding_is_zero(&self) -> bool {
        self.__pad0 == 0 && self.__pad1[0] == 0 && self.__pad1[1] == 0
    }

    /// Whether the record has room for these values: each within the width
    /// that this architecture gives its field, the nanoseconds within a second.
    pub open spec fn holds(f: StatFields) -> bool {
        &&& f.nlink <= u32::MAX
        &&& f.blksize >= i32::MIN
        &&& f.blksize <= i32::MAX
        &&& f.atime >= i32::MIN
        &&& f.atime <= i32::MAX
        &&& f.atime_nsec < NANOS_PER_SEC
        &&& f.mtime >= i32::MIN
        &&& f.mtime <= i32::MAX
        &&& f.mtime_nsec < NANOS_PER_SEC
        &&& f.ctime >= i32::MIN
        &&& f.ctime <= i32::MAX
        &&& f.ctime_nsec < NANOS_PER_SEC
    }

    /// A blank record, as it is handed to the kernel: the padding is zero, and
    /// so is everything else.
    pub fn uninit() -> (r: Self)
        ensures
            r@ == StatFields::zero(),
            r.padding_is_zero(),
    {
        stat {
            st_dev: 0,
            st_ino: 0,
            st_mode: 0,
            st_nlink: 0,
            st_uid: 0,
            st_gid: 0,
            st_rdev: 0,
            __pad0: 0,
            st_size: 0,
            st_blksize: 0,
            st_blocks: 0,
            st_atime: 0,
            st_atime_nsec: 0,
            st_mtime: 0,
            st_mtime_nsec: 0,
            st_ctime: 0,
            st_ctime_nsec: 0,
            __pad1: [0, 0],
        }
    }

    /// The record that holds the values which the kernel reported. The padding
    /// stays zero.
    pub fn from_fields(f: &StatFields) -> (r: Option<Self>)
        ensures
            r is Some <==> Self::holds(*f),
            r matches Some(s) ==> s@ == *f && s.padding_is_zero(),
    {
        if f.nlink > u32::MAX as u64
            || f.blksize < i32::MIN as i64
            || f.blksize > i32::MAX as i64
            || f.atime < i32::MIN as i64
            || f.atime > i32::MAX as i64
            || f.atime_nsec >= NANOS_PER_SEC as u64
            || f.mtime < i32::MIN as i64
            || f.mtime > i32::MAX as i64
            || f.mtime_nsec >= NANOS_PER_SEC as u64
            || f.ctime < i32::MIN as i64
            || f.ctime > i32::MAX as i64
            || f.ctime_nsec >= NANOS_PER_SEC as u64
        {
            return None;
        }
        Some(
            stat {
                st_dev: f.dev,
                st_ino: f.ino,
                st_mode: f.mode,
                st_nlink: f.nlink as u32,
                st_uid: f.uid,
                st_gid: f.gid,
                st_rdev: f.rdev,
                __pad0: 0,
                st_size: f.size,
                st_blksize: f.blksize as i32,
                st_blocks: f.blocks,
                st_atime: f.atime as i32,
                st_atime_nsec: f.atime_nsec as u32,
                st_mtime: f.mtime as i32,
                st_mtime_nsec: f.mtime_nsec as u32,
                st_ctime: f.ctime as i32,
                st_ctime_nsec: f.ctime_nsec as u32,
                __pad1: [0, 0],
            },
        )
    }

    /// Checks the padding of the record. It is zero in every record.
    pub fn has_zero_padding(&self) -> (r: bool)
        ensures
            r,
            self.padding_is_zero(),
    {
        proof {
            use_type_invariant(self);
        }
        self.__pad0 == 0 && self.__pad1[0] == 0 && self.__pad1[1] == 0
    }

    /// The device on which the file resides, as the kernel packs it.
    pub fn dev(&self) -> (r: u64)
        ensures
            r == self@.dev,
    {
        self.st_dev
    }

    /// The inode number.
    pub fn ino(&self) -> (r: u64)
        ensures
            r == self@.ino,
    {
        self.st_ino
    }

    /// The number of hard links.
    pub fn nlink(&self) -> (r: u32)
        ensures
            r == self@.nlink as u32,
    {
        self.st_nlink
    }

    /// The mode word, file type included.
    pub fn mode(&self) -> (r: Mode)
        ensures
            r@ == self@.mode as u16,
    {
        Mode::from_u16(self.st_mode as u16)
    }

    /// The owner.
    pub fn uid(&self) -> (r: u32)
        ensures
            r == self@.uid,
    {
        self.st_uid
    }

    /// The group.
    pub fn gid(&self) -> (r: u32)
        ensures
            r == self@.gid,
    {
        self.st_gid
    }

    /// The device that the file stands for, as the kernel packs it.
    pub fn rdev(&self) -> (r: u64)
        ensures
            r == self@.rdev,
    {
        self.st_rdev
    }

    /// The size in bytes.
    pub fn size(&self) -> (r: i64)
        ensures
            r == self@.size,
    {
        self.st_size
    }

    /// The block size that suits I/O on the file.
    pub fn block_size(&self) -> (r: i32)
        ensures
            r == self@.blksize as i32,
    {
        self.st_blksize
    }

    /// The number of 512-byte blocks.
    pub fn blocks(&self) -> (r: i64)
        ensures
            r == self@.blocks,
    {
        self.st_blocks
    }

    /// The time of the last access.
    pub fn atime(&self) -> (r: Timestamp)
        ensures
            r@ == (self@.atime, self@.atime_nsec as u32),
    {
        proof {
            use_type_invariant(self);
        }
        Timestamp::within_second(self.st_atime as i64, self.st_atime_nsec)
    }

    /// The time of the last modification.
    pub fn mtime(&self) -> (r: Timestamp)
        ensures
            r@ == (self@.mtime, self@.mtime_nsec as u32),
    {
        proof {
            use_type_invariant(self);
        }
        Timestamp::within_second(self.st_mtime as i64, self.st_mtime_nsec)
    }

    /// The time of the last status change.
    pub fn ctime(&self) -> (r: Timestamp)
        ensures
            r@ == (self@.ctime, self@.ctime_nsec as u32),
    {
        proof {
            use_type_invariant(self);
        }
        Timestamp::within_second(self.st_ctime as i64, self.st_ctime_nsec)
    }

    /// The text of the record: its name and, in braces, what its accessors
    /// give.
    pub fn to_debug_string(&self) -> (r: String)
        ensures
            r@ == legacy_text("stat"@, self@),
    {
        legacy_debug(
            "stat",
            self.dev(),
            self.ino(),
            self.nlink(),
            self.mode(),
            self.uid(),
            self.gid(),
            self.rdev(),
            self.size(),
            self.block_size(),
            self.blocks(),
            self.atime(),
            self.mtime(),
            self.ctime(),
            Ghost(self@),
        )
    }
}

} // verus!
