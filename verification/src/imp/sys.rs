//! The extended metadata record as the kernel defines it, and what the
//! metadata calls have in common on every architecture.
use crate::dev::pack64;
use crate::errno::{error_code, is_error_word};
use crate::imp::Mode;
use crate::record::StatxFields;
use crate::{Errno, RawFd, Timestamp, NANOS_PER_SEC};
use vstd::prelude::*;

pub use crate::flags::{StatAtFlags, StatXAttr, StatXMask};

verus! {

/// The descriptor that stands for the current directory.
pub const AT_FDCWD: RawFd = -100;

/// The 64-bit device number of major and minor number.
pub fn makedev(major: u32, minor: u32) -> (r: u64)
    ensures
        r == pack64(major, minor),
{
    (((minor as u64) & 0xfffff000) << 32) | (((minor as u64) & 0x00000fff) << 8) | (((major as u64)
        & 0xffffff00) << 12) | ((major as u64) & 0xff)
}

/// What a metadata call has achieved: the error that its return word stands
/// for, or else the record that the kernel has filled in.
pub fn outcome<T>(ret: usize, record: T) -> (r: Result<T, Errno>)
    ensures
        r is Err <==> is_error_word(ret),
        r matches Ok(v) ==> v == record,
        r matches Err(e) ==> e.code() == error_code(ret),
{
    match Errno::from_ret(ret) {
        Ok(_) => Ok(record),
        Err(e) => Err(e),
    }
}

/// The machine word that carries a file descriptor to the kernel: the
/// descriptor itself, and a negative number in two's complement.
pub open spec fn fd_word(fd: RawFd) -> usize {
    if fd >= 0 {
        fd as usize
    } else {
        (usize::MAX + 1 + fd) as usize
    }
}

/// The machine word that carries a file descriptor to the kernel.
pub fn word_of_fd(fd: RawFd) -> (r: usize)
    ensures
        r == fd_word(fd),
{
    if fd >= 0 {
        fd as usize
    } else {
        let below: u64 = (-(fd as i64)) as u64;
        usize::MAX - (below as usize - 1)
    }
}

/// The words of the legacy call in the order of its arguments: directory,
/// address of the path, address of the record, flags.
pub fn fstatat_args(dirfd: RawFd, path: usize, buf: usize, flags: StatAtFlags) -> (r: [usize; 4])
    ensures
        r@ == seq![fd_word(dirfd), path, buf, flags@ as usize],
{
    let r = [word_of_fd(dirfd), path, buf, flags.bits() as usize];
    assert(r@ =~= seq![fd_word(dirfd), path, buf, flags@ as usize]);
    r
}

/// The words of the extended call in the order of its arguments: directory,
/// address of the path, flags, mask of the fields asked for, address of the
/// record.
pub fn statx_args(dirfd: RawFd, path: usize, flags: StatAtFlags, mask: StatXMask, buf: usize) -> (r:
    [usize; 5])
    ensures
        r@ == seq![fd_word(dirfd), path, flags@ as usize, mask@ as usize, buf],
{
    let r = [word_of_fd(dirfd), path, flags.bits() as usize, mask.bits() as usize, buf];
    assert(r@ =~= seq![fd_word(dirfd), path, flags@ as usize, mask@ as usize, buf]);
    r
}

/// A timestamp as the extended record holds it.
#[derive(Copy, Clone, Debug)]
struct timestamp {
    tv_sec: i64,
    tv_nsec: u32,
    __pad: u32,
}

/// The record that the extended call fills in, field by field as the kernel
/// lays it out.
#[derive(Copy, Clone, Debug)]
pub struct Statx {
    stx_mask: StatXMask,
    stx_blksize: u32,
    stx_attributes: u64,
    stx_nlink: u32,
    stx_uid: u32,
    stx_gid: u32,
    stx_mode: Mode,
    stx_ino: u64,
    stx_size: u64,
    stx_blocks: u64,
    stx_attributes_mask: StatXAttr,
    stx_atime: timestamp,
    stx_btime: timestamp,
    stx_ctime: timestamp,
    stx_mtime: timestamp,
    stx_rdev_major: u32,
    stx_rdev_minor: u32,
    stx_dev_major: u32,
    stx_dev_minor: u32,
    stx_mnt_id: u64,
    stx_dio_mem_align: u32,
    stx_dio_offset_align: u32,
    spare: [u64; 14],
}

impl View for Statx {
    type V = StatxFields;

    /// The values that the record holds.
    closed spec fn view(&self) -> StatxFields {
        StatxFields {
            mask: self.stx_mask@,
            blksize: self.stx_blksize,
            attributes: self.stx_attributes,
            nlink: self.stx_nlink,
            uid: self.stx_uid,
            gid: self.stx_gid,
            mode: self.stx_mode@,
            ino: self.stx_ino,
            size: self.stx_size,
            blocks: self.stx_blocks,
            attributes_mask: self.stx_attributes_mask@,
            atime: self.stx_atime.tv_sec,
            atime_nsec: self.stx_atime.tv_nsec,
            btime: self.stx_btime.tv_sec,
            btime_nsec: self.stx_btime.tv_nsec,
            ctime: self.stx_ctime.tv_sec,
            ctime_nsec: self.stx_ctime.tv_nsec,
            mtime: self.stx_mtime.tv_sec,
            mtime_nsec: self.stx_mtime.tv_nsec,
            rdev_major: self.stx_rdev_major,
            rdev_minor: self.stx_rdev_minor,
            dev_major: self.stx_dev_major,
            dev_minor: self.stx_dev_minor,
            mnt_id: self.stx_mnt_id,
            dio_mem_align: self.stx_dio_mem_align,
            dio_offset_align: self.stx_dio_offset_align,
        }
    }
}

impl Statx {
    #[verifier::type_invariant]
    spec fn inv(self) -> bool {
        &&& self.stx_atime.tv_nsec < NANOS_PER_SEC
        &&& self.stx_btime.tv_nsec < NANOS_PER_SEC
        &&& self.stx_ctime.tv_nsec < NANOS_PER_SEC
        &&& self.stx_mtime.tv_nsec < NANOS_PER_SEC
        &&& self.padding_is_zero()
    }

    /// Whether every padding field and every spare word of the record is
    /// zero.
    pub closed spec fn padding_is_zero(&self) -> bool {
        &&& self.stx_atime.__pad == 0
        &&& self.stx_btime.__pad == 0
        &&& self.stx_ctime.__pad == 0
        &&& self.stx_mtime.__pad == 0
        &&& forall|i: int| 0 <= i < 14 ==> self.spare[i] == 0
    }

    /// Whether the record has room for these values: the nanoseconds within a
    /// second.
    pub open spec fn holds(f: StatxFields) -> bool {
        &&& f.atime_nsec < NANOS_PER_SEC
        &&& f.btime_nsec < NANOS_PER_SEC
        &&& f.ctime_nsec < NANOS_PER_SEC
        &&& f.mtime_nsec < NANOS_PER_SEC
    }

    /// A blank record, as it is handed to the kernel: padding and spare words
    /// are zero, and so is everything else.
    pub fn uninit() -> (r: Self)
        ensures
            r@ == StatxFields::zero(),
            r.padding_is_zero(),
    {
        let zero = timestamp { tv_sec: 0, tv_nsec: 0, __pad: 0 };
        Statx {
            stx_mask: StatXMask::empty(),
            stx_blksize: 0,
            stx_attributes: 0,
            stx_nlink: 0,
            stx_uid: 0,
            stx_gid: 0,
            stx_mode: Mode::from_u16(0),
            stx_ino: 0,
            stx_size: 0,
            stx_blocks: 0,
            stx_attributes_mask: StatXAttr::empty(),
            stx_atime: zero,
            stx_btime: zero,
            stx_ctime: zero,
            stx_mtime: zero,
            stx_rdev_major: 0,
            stx_rdev_minor: 0,
            stx_dev_major: 0,
            stx_dev_minor: 0,
            stx_mnt_id: 0,
            stx_dio_mem_align: 0,
            stx_dio_offset_align: 0,
            spare: [0, 0, 0, 0, 0, 0, 0, 0, 0, 0, 0, 0, 0, 0],
        }
    }

    /// The record that holds the values which the kernel reported. Padding
    /// and spare words stay zero.
    pub fn from_fields(f: &StatxFields) -> (r: Option<Self>)
        ensures
            r is Some <==> Self::holds(*f),
            r matches Some(s) ==> s@ == *f && s.padding_is_zero(),
    {
        if f.atime_nsec >= NANOS_PER_SEC || f.btime_nsec >= NANOS_PER_SEC || f.ctime_nsec
            >= NANOS_PER_SEC || f.mtime_nsec >= NANOS_PER_SEC {
            return None;
        }
        Some(
            Statx {
                stx_mask: StatXMask::from_bits(f.mask),
                stx_blksize: f.blksize,
                stx_attributes: f.attributes,
                stx_nlink: f.nlink,
                stx_uid: f.uid,
                stx_gid: f.gid,
                stx_mode: Mode::from_u16(f.mode),
                stx_ino: f.ino,
                stx_size: f.size,
                stx_blocks: f.blocks,
                stx_attributes_mask: StatXAttr::from_bits(f.attributes_mask),
                stx_atime: timestamp { tv_sec: f.atime, tv_nsec: f.atime_nsec, __pad: 0 },
                stx_btime: timestamp { tv_sec: f.btime, tv_nsec: f.btime_nsec, __pad: 0 },
                stx_ctime: timestamp { tv_sec: f.ctime, tv_nsec: f.ctime_nsec, __pad: 0 },
                stx_mtime: timestamp { tv_sec: f.mtime, tv_nsec: f.mtime_nsec, __pad: 0 },
                stx_rdev_major: f.rdev_major,
                stx_rdev_minor: f.rdev_minor,
                stx_dev_major: f.dev_major,
                stx_dev_minor: f.dev_minor,
                stx_mnt_id: f.mnt_id,
                stx_dio_mem_align: f.dio_mem_align,
                stx_dio_offset_align: f.dio_offset_align,
                spare: [0, 0, 0, 0, 0, 0, 0, 0, 0, 0, 0, 0, 0, 0],
            },
        )
    }

    /// Checks padding and spare words of the record. They are zero in every
    /// record.
    pub fn has_zero_padding(&self) -> (r: bool)
        ensures
            r,
            self.padding_is_zero(),
    {
        proof {
            use_type_invariant(self);
        }
        let mut i: usize = 0;
        while i < 14
            invariant
                i <= 14,
                self.padding_is_zero(),
            decreases 14 - i,
        {
            if self.spare[i] != 0 {
                return false;
            }
            i += 1;
        }
        self.stx_atime.__pad == 0 && self.stx_btime.__pad == 0 && self.stx_ctime.__pad == 0
            && self.stx_mtime.__pad == 0
    }

    /// The block size that suits I/O on the file.
    pub fn block_size(&self) -> (r: u32)
        ensures
            r == self@.blksize,
    {
        self.stx_blksize
    }

    /// Further attributes of the file. A bit means something only where `attributes_mask` has it set.
    pub fn attributes(&self) -> (r: u64)
        ensures
            r == self@.attributes,
    {
        self.stx_attributes
    }

    /// The number of hard links.
    pub fn nlink(&self) -> (r: u32)
        ensures
            r == self@.nlink,
    {
        self.stx_nlink
    }

    /// The owner.
    pub fn uid(&self) -> (r: u32)
        ensures
            r == self@.uid,
    {
        self.stx_uid
    }

    /// The group.
    pub fn gid(&self) -> (r: u32)
        ensures
            r == self@.gid,
    {
        self.stx_gid
    }

    /// The mode word, file type included.
    pub fn mode(&self) -> (r: Mode)
        ensures
            r@ == self@.mode,
    {
        self.stx_mode
    }

    /// The inode number.
    pub fn ino(&self) -> (r: u64)
        ensures
            r == self@.ino,
    {
        self.stx_ino
    }

    /// The size in bytes.
    pub fn size(&self) -> (r: u64)
        ensures
            r == self@.size,
    {
        self.stx_size
    }

    /// The number of 512-byte blocks.
    pub fn blocks(&self) -> (r: u64)
        ensures
            r == self@.blocks,
    {
        self.stx_blocks
    }

    /// The attributes that the filesystem supports: the bits of `attributes` that mean something.
    pub fn attributes_mask(&self) -> (r: StatXAttr)
        ensures
            r@ == self@.attributes_mask,
    {
        self.stx_attributes_mask
    }

    /// The time of the last access.
    pub fn atime(&self) -> (r: Timestamp)
        ensures
            r@ == (self@.atime, self@.atime_nsec),
    {
        proof {
            use_type_invariant(self);
        }
        Timestamp::within_second(self.stx_atime.tv_sec, self.stx_atime.tv_nsec)
    }

    /// The time of the creation.
    pub fn btime(&self) -> (r: Timestamp)
        ensures
            r@ == (self@.btime, self@.btime_nsec),
    {
        proof {
            use_type_invariant(self);
        }
        Timestamp::within_second(self.stx_btime.tv_sec, self.stx_btime.tv_nsec)
    }

    /// The time of the last status change.
    pub fn ctime(&self) -> (r: Timestamp)
        ensures
            r@ == (self@.ctime, self@.ctime_nsec),
    {
        proof {
            use_type_invariant(self);
        }
        Timestamp::within_second(self.stx_ctime.tv_sec, self.stx_ctime.tv_nsec)
    }

    /// The time of the last modification.
    pub fn mtime(&self) -> (r: Timestamp)
        ensures
            r@ == (self@.mtime, self@.mtime_nsec),
    {
        proof {
            use_type_invariant(self);
        }
        Timestamp::within_second(self.stx_mtime.tv_sec, self.stx_mtime.tv_nsec)
    }

    /// The major number of the device that the file stands for.
    pub fn rdev_major(&self) -> (r: u32)
        ensures
            r == self@.rdev_major,
    {
        self.stx_rdev_major
    }

    /// The minor number of the device that the file stands for.
    pub fn rdev_minor(&self) -> (r: u32)
        ensures
            r == self@.rdev_minor,
    {
        self.stx_rdev_minor
    }

    /// The 64-bit number of the device that the file stands for.
    pub fn rdev(&self) -> (r: u64)
        ensures
            r == pack64(self@.rdev_major, self@.rdev_minor),
    {
        makedev(self.rdev_major(), self.rdev_minor())
    }

    /// The major number of the device on which the file resides.
    pub fn dev_major(&self) -> (r: u32)
        ensures
            r == self@.dev_major,
    {
        self.stx_dev_major
    }

    /// The minor number of the device on which the file resides.
    pub fn dev_minor(&self) -> (r: u32)
        ensures
            r == self@.dev_minor,
    {
        self.stx_dev_minor
    }

    /// The 64-bit number of the device on which the file resides.
    pub fn dev(&self) -> (r: u64)
        ensures
            r == pack64(self@.dev_major, self@.dev_minor),
    {
        makedev(self.dev_major(), self.dev_minor())
    }

    /// The identifier of the mount that holds the file.
    pub fn mount_id(&self) -> (r: u64)
        ensures
            r == self@.mnt_id,
    {
        self.stx_mnt_id
    }

    /// The alignment that direct I/O asks of buffers in memory, or zero.
    pub fn dio_mem_align(&self) -> (r: u32)
        ensures
            r == self@.dio_mem_align,
    {
        self.stx_dio_mem_align
    }

    /// The alignment that direct I/O asks of offsets and lengths, or zero.
    pub fn dio_offset_align(&self) -> (r: u32)
        ensures
            r == self@.dio_offset_align,
    {
        self.stx_dio_offset_align
    }
}

} // verus!
