//! The legacy metadata record of 64-bit MIPS.
use crate::errno::table::EOVERFLOW;
use crate::record::{LegacyCall, StatFields};
use crate::{Dev, Errno, Timestamp, NANOS_PER_SEC};
use vstd::prelude::*;

verus! {

/// The legacy metadata call of this architecture.
pub const SYS_FSTATAT: LegacyCall = LegacyCall::Newfstatat;

/// The record that the legacy call fills in, field by field as the kernel
/// lays it out.
#[derive(Copy, Clone, Debug)]
pub struct stat {
    st_dev: u32,
    __pad0: [u32; 3],
    st_ino: u64,
    st_mode: u32,
    st_nlink: u32,
    st_uid: u32,
    st_gid: u32,
    st_rdev: u32,
    __pad1: [u32; 3],
    st_size: i64,
    st_atime_sec: u32,
    st_atime_nsec: u32,
    st_mtime_sec: u32,
    st_mtime_nsec: u32,
    st_ctime_sec: u32,
    st_ctime_nsec: u32,
    st_blksize: u32,
    __pad2: u32,
    st_blocks: i64,
}

impl View for stat {
    type V = StatFields;

    /// The values that the record holds.
    closed spec fn view(&self) -> StatFields {
        StatFields {
            dev: self.st_dev as u64,
            ino: self.st_ino,
            mode: self.st_mode,
            nlink: self.st_nlink as u64,
            uid: self.st_uid,
            gid: self.st_gid,
            rdev: self.st_rdev as u64,
            size: self.st_size,
            blksize: self.st_blksize as i64,
            blocks: self.st_blocks,
            atime: self.st_atime_sec as i64,
            atime_nsec: self.st_atime_nsec as u64,
            mtime: self.st_mtime_sec as i64,
            mtime_nsec: self.st_mtime_nsec as u64,
            ctime: self.st_ctime_sec as i64,
            ctime_nsec: self.st_ctime_nsec as u64,
        }
    }
}

impl stat {
    #[verifier::type_invariant]
    spec fn inv(self) -> bool {
        &&& self.__pad0[0] == 0
        &&& self.__pad0[1] == 0
        &&& self.__pad0[2] == 0
        &&& self.__pad1[0] == 0
        &&& self.__pad1[1] == 0
        &&& self.__pad1[2] == 0
        &&& self.st_atime_nsec < NANOS_PER_SEC
        &&& self.st_mtime_nsec < NANOS_PER_SEC
        &&& self.st_ctime_nsec < NANOS_PER_SEC
        &&& self.__pad2 == 0
    }

    /// Whether every padding field of the record is zero.
    pub closed spec fn padding_is_zero(&self) -> bool {
        self.__pad0[0] == 0 && self.__pad0[1] == 0 && self.__pad0[2] == 0 && self.__pad1[0] == 0 && self.__pad1[1] == 0 && self.__pad1[2] == 0 && self.__pad2 == 0
    }

    /// Whether the record has room for these values: each within the width
    /// that this architecture gives its field, the nanoseconds within a second.
    pub open spec fn holds(f: StatFields) -> bool {
        &&& f.dev <= u32::MAX
        &&& f.nlink <= u32::MAX
        &&& f.rdev <= u32::MAX
        &&& f.blksize >= 0
        &&& f.blksize <= u32::MAX
        &&& f.atime >= 0
        &&& f.atime <= u32::MAX
        &&& f.atime_nsec < NANOS_PER_SEC
        &&& f.mtime >= 0
        &&& f.mtime <= u32::MAX
        &&& f.mtime_nsec < NANOS_PER_SEC
        &&& f.ctime >= 0
        &&& f.ctime <= u32::MAX
        &&& f.ctime_nsec < NANOS_PER_SEC
    }

    /// A blank record, as it is handed to the kernel: the padding is zero, and
    /// so is everything else.
    pub fn uninit() -> (r: Self)
        ensures
            r@ == StatFields::zero(),
            r.padding_is_zero(),
    {
        stat {
            st_dev: 0,
            __pad0: [0, 0, 0],
            st_ino: 0,
            st_mode: 0,
            st_nlink: 0,
            st_uid: 0,
            st_gid: 0,
            st_rdev: 0,
            __pad1: [0, 0, 0],
            st_size: 0,
            st_atime_sec: 0,
            st_atime_nsec: 0,
            st_mtime_sec: 0,
            st_mtime_nsec: 0,
            st_ctime_sec: 0,
            st_ctime_nsec: 0,
            st_blksize: 0,
            __pad2: 0,
            st_blocks: 0,
        }
    }

    /// The record that holds the values which the kernel reported. The padding
    /// stays zero.
    pub fn from_fields(f: &StatFields) -> (r: Option<Self>)
        ensures
            r is Some <==> Self::holds(*f),
            r matches Some(s) ==> s@ == *f && s.padding_is_zero(),
    {
        if f.dev > u32::MAX as u64
            || f.nlink > u32::MAX as u64
            || f.rdev > u32::MAX as u64
            || f.blksize < 0
            || f.blksize > u32::MAX as i64
            || f.atime < 0
            || f.atime > u32::MAX as i64
            || f.atime_nsec >= NANOS_PER_SEC as u64
            || f.mtime < 0
            || f.mtime > u32::MAX as i64
            || f.mtime_nsec >= NANOS_PER_SEC as u64
            || f.ctime < 0
            || f.ctime > u32::MAX as i64
            || f.ctime_nsec >= NANOS_PER_SEC as u64
        {
            return None;
        }
        Some(
            stat {
                st_dev: f.dev as u32,
                __pad0: [0, 0, 0],
                st_ino: f.ino,
                st_mode: f.mode,
                st_nlink: f.nlink as u32,
                st_uid: f.uid,
                st_gid: f.gid,
                st_rdev: f.rdev as u32,
                __pad1: [0, 0, 0],
                st_size: f.size,
                st_atime_sec: f.atime as u32,
                st_atime_nsec: f.atime_nsec as u32,
                st_mtime_sec: f.mtime as u32,
                st_mtime_nsec: f.mtime_nsec as u32,
                st_ctime_sec: f.ctime as u32,
                st_ctime_nsec: f.ctime_nsec as u32,
                st_blksize: f.blksize as u32,
                __pad2: 0,
                st_blocks: f.blocks,
            },
        )
    }

    /// Checks the padding of the record. It is zero in every record.
    pub fn has_zero_padding(&self) -> (r: bool)
        ensures
            r,
            self.padding_is_zero(),
    {
        proof {
            use_type_invariant(self);
        }
        self.__pad0[0] == 0 && self.__pad0[1] == 0 && self.__pad0[2] == 0 && self.__pad1[0] == 0 && self.__pad1[1] == 0 && self.__pad1[2] == 0 && self.__pad2 == 0
    }

    /// The record of what the kernel reported, or the error of a value that
    /// does not fit its field.
    pub fn decode(f: &StatFields) -> (r: Result<Self, Errno>)
        ensures
            r is Ok <==> Self::holds(*f),
            r matches Ok(s) ==> s@ == *f && s.padding_is_zero(),
            r matches Err(e) ==> e.code() == EOVERFLOW,
    {
        match Self::from_fields(f) {
            Some(s) => Ok(s),
            None => Err(Errno::new(EOVERFLOW)),
        }
    }

    /// The device on which the file resides.
    pub fn dev(&self) -> (r: Dev)
        ensures
            r matches Dev::B64(d) && d.bits() == self@.dev,
    {
        Dev::from_u64(self.st_dev as u64)
    }

    /// The inode number.
    pub fn inode(&self) -> (r: u64)
        ensures
            r == self@.ino,
    {
        self.st_ino
    }

    /// The number of hard links.
    pub fn nlink(&self) -> (r: u32)
        ensures
            r == self@.nlink as u32,
    {
        self.st_nlink
    }

    /// The low half of the mode word: file type and permissions.
    pub fn raw_mode(&self) -> (r: u16)
        ensures
            r == self@.mode as u16,
    {
        self.st_mode as u16
    }

    /// The owner.
    pub fn uid(&self) -> (r: u32)
        ensures
            r == self@.uid,
    {
        self.st_uid
    }

    /// The group.
    pub fn gid(&self) -> (r: u32)
        ensures
            r == self@.gid,
    {
        self.st_gid
    }

    /// The device that the file stands for, if it is a device.
    pub fn rdev(&self) -> (r: Dev)
        ensures
            r matches Dev::B64(d) && d.bits() == self@.rdev,
    {
        Dev::from_u64(self.st_rdev as u64)
    }

    /// The size in bytes.
    pub fn size(&self) -> (r: i64)
        ensures
            r == self@.size,
    {
        self.st_size
    }

    /// The block size that suits I/O on the file.
    pub fn block_size(&self) -> (r: i32)
        ensures
            r == self@.blksize as i32,
    {
        proof {
            use_type_invariant(self);
        }
        self.st_blksize as i32
    }

    /// The number of 512-byte blocks.
    pub fn blocks(&self) -> (r: i64)
        ensures
            r == self@.blocks,
    {
        self.st_blocks
    }

    /// The time of the last access.
    pub fn atime(&self) -> (r: Timestamp)
        ensures
            r@ == (self@.atime, self@.atime_nsec as u32),
    {
        proof {
            use_type_invariant(self);
        }
        Timestamp::within_second(self.st_atime_sec as i64, self.st_atime_nsec)
    }

    /// The time of the last modification.
    pub fn mtime(&self) -> (r: Timestamp)
        ensures
            r@ == (self@.mtime, self@.mtime_nsec as u32),
    {
        proof {
            use_type_invariant(self);
        }
        Timestamp::within_second(self.st_mtime_sec as i64, self.st_mtime_nsec)
    }

    /// The time of the last status change.
    pub fn ctime(&self) -> (r: Timestamp)
        ensures
            r@ == (self@.ctime, self@.ctime_nsec as u32),
    {
        proof {
            use_type_invariant(self);
        }
        Timestamp::within_second(self.st_ctime_sec as i64, self.st_ctime_nsec)
    }
}

} // verus!
