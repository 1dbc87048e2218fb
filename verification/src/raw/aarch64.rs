//! The legacy metadata record of 64-bit ARM.
use crate::errno::table::EOVERFLOW;
use crate::record::{LegacyCall, StatFields};
use crate::{Dev, Errno, Timestamp, NANOS_PER_SEC};
use vstd::prelude::*;

verus! {

/// The legacy metadata call of this architecture.
pub const SYS_FSTATAT: LegacyCall = LegacyCall::Newfstatat;

/// The record that the legacy call fills in, field by field as the kernel
/// lays it out.
#[derive(Copy, Clone, Debug)]
pub struct stat {
    st_dev: u64,
    st_ino: u64,
    st_nlink: u32,
    st_mode: u32,
    st_uid: u32,
    st_gid: u32,
    st_rdev: u64,
    __pad0: u64,
    st_size: i64,
    st_blksize: i32,
    st_blocks: i64,
    st_atime: i64,
    st_atime_nsec: i64,
    st_mtime: i64,
    st_mtime_nsec: i64,
    st_ctime: i64,
    st_ctime_nsec: i64,
    __unused: [u32; 2],
}

impl View for stat {
    type V = StatFields;

    /// The values that the record holds.
    closed spec fn view(&self) -> StatFields {
        StatFields {
            dev: self.st_dev,
            ino: self.st_ino,
            mode: self.st_mode,
            nlink: self.st_nlink as u64,
            uid: self.st_uid,
            gid: self.st_gid,
            rdev: self.st_rdev,
            size: self.st_size,
            blksize: self.st_blksize as i64,
            blocks: self.st_blocks,
            atime: self.st_atime,
            atime_nsec: self.st_atime_nsec as u64,
            mtime: self.st_mtime,
            mtime_nsec: self.st_mtime_nsec as u64,
            ctime: self.st_ctime,
            ctime_nsec: self.st_ctime_nsec as u64,
        }
    }
}

impl stat {
    #[verifier::type_invariant]
    spec fn inv(self) -> bool {
        &&& self.__pad0 == 0
        &&& self.st_atime_nsec >= 0
        &&& self.st_atime_nsec < NANOS_PER_SEC
        &&& self.st_mtime_nsec >= 0
        &&& self.st_mtime_nsec < NANOS_PER_SEC
        &&& self.st_ctime_nsec >= 0
        &&& self.st_ctime_nsec < NANOS_PER_SEC
        &&& self.__unused[0] == 0
        &&& self.__unused[1] == 0
    }

    /// Whether every padding field of the record is zero.
    pub closed spec fn padding_is_zero(&self) -> bool {
        self.__pad0 == 0 && self.__unused[0] == 0 && self.__unused[1] == 0
    }

    /// Whether the record has room for these values: each within the width
    /// that this architecture gives its field, the nanoseconds within a second.
    pub open spec fn holds(f: StatFields) -> bool {
        &&& f.nlink <= u32::MAX
        &&& f.blksize >= i32::MIN
        &&& f.blksize <= i32::MAX
        &&& f.atime_nsec < NANOS_PER_SEC
        &&& f.mtime_nsec < NANOS_PER_SEC
        &&& f.ctime_nsec < NANOS_PER_SEC
    }

    /// A blank record, as it is handed to the kernel: the padding is zero, and
    /// so is everything else.
    pub fn uninit() -> (r: Self)
        ensures
            r@ == StatFields::zero(),
            r.padding_is_zero(),
    {
        stat {
            st_dev: 0,
            st_ino: 0,
            st_nlink: 0,
            st_mode: 0,
            st_uid: 0,
            st_gid: 0,
            st_rdev: 0,
            __pad0: 0,
            st_size: 0,
            st_blksize: 0,
            st_blocks: 0,
            st_atime: 0,
            st_atime_nsec: 0,
            st_mtime: 0,
            st_mtime_nsec: 0,
            st_ctime: 0,
            st_ctime_nsec: 0,
            __unused: [0, 0],
        }
    }

    /// The record that holds the values which the kernel reported. The padding
    /// stays zero.
    pub fn from_fields(f: &StatFields) -> (r: Option<Self>)
        ensures
            r is Some <==> Self::holds(*f),
            r matches Some(s) ==> s@ == *f && s.padding_is_zero(),
    {
        if f.nlink > u32::MAX as u64
            || f.blksize < i32::MIN as i64
            || f.blksize > i32::MAX as i64
            || f.atime_nsec >= NANOS_PER_SEC as u64
            || f.mtime_nsec >= NANOS_PER_SEC as u64
            || f.ctime_nsec >= NANOS_PER_SEC as u64
        {
            return None;
        }
        Some(
            stat {
                st_dev: f.dev,
                st_ino: f.ino,
                st_nlink: f.nlink as u32,
                st_mode: f.mode,
                st_uid: f.uid,
                st_gid: f.gid,
                st_rdev: f.rdev,
                __pad0: 0,
                st_size: f.size,
                st_blksize: f.blksize as i32,
                st_blocks: f.blocks,
                st_atime: f.atime,
                st_atime_nsec: f.atime_nsec as i64,
                st_mtime: f.mtime,
                st_mtime_nsec: f.mtime_nsec as i64,
                st_ctime: f.ctime,
                st_ctime_nsec: f.ctime_nsec as i64,
                __unused: [0, 0],
            },
        )
    }

    /// Checks the padding of the record. It is zero in every record.
    pub fn has_zero_padding(&self) -> (r: bool)
        ensures
            r,
            self.padding_is_zero(),
    {
        proof {
            use_type_invariant(self);
        }
        self.__pad0 == 0 && self.__unused[0] == 0 && self.__unused[1] == 0
    }

    /// The record of what the kernel reported, or the error of a value that
    /// does not fit its field.
    pub fn decode(f: &StatFields) -> (r: Result<Self, Errno>)
        ensures
            r is Ok <==> Self::holds(*f),
            r matches Ok(s) ==> s@ == *f && s.padding_is_zero(),
            r matches Err(e) ==> e.code() == EOVERFLOW,
    {
        match Self::from_fields(f) {
            Some(s) => Ok(s),
            None => Err(Errno::new(EOVERFLOW)),
        }
    }

    /// The device on which the file resides.
    pub fn dev(&self) -> (r: Dev)
        ensures
            r matches Dev::B64(d) && d.bits() == self@.dev,
    {
        Dev::from_u64(self.st_dev)
    }

    /// The inode number.
    pub fn inode(&self) -> (r: u64)
        ensures
            r == self@.ino,
    {
        self.st_ino
    }

    /// The number of hard links.
    pub fn nlink(&self) -> (r: u32)
        ensures
            r == self@.nlink as u32,
    {
        self.st_nlink
    }

    /// The low half of the mode word: file type and permissions.
    pub fn raw_mode(&self) -> (r: u16)
        ensures
            r == self@.mode as u16,
    {
        self.st_mode as u16
    }

    /// The owner.
    pub fn uid(&self) -> (r: u32)
        ensures
            r == self@.uid,
    {
        self.st_uid
    }

    /// The group.
    pub fn gid(&self) -> (r: u32)
        ensures
            r == self@.gid,
    {
        self.st_gid
    }

    /// The device that the file stands for, if it is a device.
    pub fn rdev(&self) -> (r: Dev)
        ensures
            r matches Dev::B64(d) && d.bits() == self@.rdev,
    {
        Dev::from_u64(self.st_rdev)
    }

    /// The size in bytes.
    pub fn size(&self) -> (r: i64)
        ensures
            r == self@.size,
    {
        self.st_size
    }

    /// The block size that suits I/O on the file.
    pub fn block_size(&self) -> (r: i32)
        ensures
            r == self@.blksize as i32,
    {
        self.st_blksize
    }

    /// The number of 512-byte blocks.
    pub fn blocks(&self) -> (r: i64)
        ensures
            r == self@.blocks,
    {
        self.st_blocks
    }

    /// The time of the last access.
    pub fn atime(&self) -> (r: Timestamp)
        ensures
            r@ == (self@.atime, self@.atime_nsec as u32),
    {
        proof {
            use_type_invariant(self);
        }
        Timestamp::within_second(self.st_atime, self.st_atime_nsec as u32)
    }

    /// The time of the last modification.
    pub fn mtime(&self) -> (r: Timestamp)
        ensures
            r@ == (self@.mtime, self@.mtime_nsec as u32),
    {
        proof {
            use_type_invariant(self);
        }
        Timestamp::within_second(self.st_mtime, self.st_mtime_nsec as u32)
    }

    /// The time of the last status change.
    pub fn ctime(&self) -> (r: Timestamp)
        ensures
            r@ == (self@.ctime, self@.ctime_nsec as u32),
    {
        proof {
            use_type_invariant(self);
        }
        Timestamp::within_second(self.st_ctime, self.st_ctime_nsec as u32)
    }
}

} // verus!
