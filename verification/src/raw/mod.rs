//! The metadata records with typed accessors.
//!
//! The legacy call fills in a record whose layout differs from architecture to
//! architecture; the extended call fills in one record everywhere. Both are
//! read through the same accessors, and both have the same view of a file.
use crate::dev::{major64, minor64, pack64};
use crate::errno::table::EOVERFLOW;
use crate::record::{Metadata, StatFields, StatxFields};
use crate::{
    file_type_of, Dev, Errno, FileType, Mode, Timestamp, NANOS_PER_SEC, S_IFBLK, S_IFCHR,
    S_IFDIR, S_IFIFO, S_IFLNK, S_IFMT, S_IFREG, S_IFSOCK,
};
use vstd::prelude::*;

pub mod aarch64;
pub mod arm;
pub mod debug;
pub mod mips;
pub mod mips64;
pub mod powerpc;
pub mod powerpc64;
pub mod riscv64;
pub mod s390x;
pub mod x86;
pub mod x86_64;

pub use crate::flags::{StatXAttr, StatXMask};

verus! {

/// The 64-bit device number of major and minor number.
pub fn makedev(major: u32, minor: u32) -> (r: u64)
    ensures
        r == pack64(major, minor),
{
    (((minor as u64) & 0xfffff000) << 32) | (((minor as u64) & 0x00000fff) << 8) | (((major as u64)
        & 0xffffff00) << 12) | ((major as u64) & 0xff)
}

/// The major number in a 64-bit device number.
pub fn major(dev: u64) -> (r: u32)
    ensures
        r == major64(dev),
{
    assert(((dev >> 12) & 0xffffff00) | (dev & 0xff) <= 0xffff_ffff) by (bit_vector);
    (((dev >> 12) & 0xffffff00) | (dev & 0xff)) as u32
}

/// The minor number in a 64-bit device number.
pub fn minor(dev: u64) -> (r: u32)
    ensures
        r == minor64(dev),
{
    assert(((dev >> 32) & 0xfffff000) | ((dev >> 8) & 0xfff) <= 0xffff_ffff) by (bit_vector);
    (((dev >> 32) & 0xfffff000) | ((dev >> 8) & 0xfff)) as u32
}

/// The file type in a mode word.
pub fn file_type(mode: u16) -> (r: FileType)
    ensures
        r == file_type_of(mode),
{
    let bits: u16 = mode & S_IFMT;
    if bits == S_IFSOCK {
        FileType::Socket
    } else if bits == S_IFLNK {
        FileType::Link
    } else if bits == S_IFREG {
        FileType::Regular
    } else if bits == S_IFBLK {
        FileType::Block
    } else if bits == S_IFDIR {
        FileType::Directory
    } else if bits == S_IFCHR {
        FileType::Character
    } else if bits == S_IFIFO {
        FileType::Fifo
    } else {
        FileType::Unknown
    }
}

/// What a legacy record says of a file.
pub open spec fn legacy_metadata(f: StatFields) -> Metadata {
    Metadata {
        dev: (major64(f.dev), minor64(f.dev)),
        rdev: (major64(f.rdev), minor64(f.rdev)),
        ino: f.ino,
        nlink: f.nlink as u32,
        uid: f.uid,
        gid: f.gid,
        mode: f.mode as u16,
        size: f.size,
        block_size: f.blksize as i32,
        blocks: f.blocks,
        atime: (f.atime, f.atime_nsec as u32),
        mtime: (f.mtime, f.mtime_nsec as u32),
        ctime: (f.ctime, f.ctime_nsec as u32),
    }
}

/// What an extended record says of a file.
pub open spec fn extended_metadata(f: StatxFields) -> Metadata {
    Metadata {
        dev: (f.dev_major, f.dev_minor),
        rdev: (f.rdev_major, f.rdev_minor),
        ino: f.ino,
        nlink: f.nlink,
        uid: f.uid,
        gid: f.gid,
        mode: f.mode,
        size: f.size as i64,
        block_size: f.blksize as i32,
        blocks: f.blocks as i64,
        atime: (f.atime, f.atime_nsec),
        mtime: (f.mtime, f.mtime_nsec),
        ctime: (f.ctime, f.ctime_nsec),
    }
}

/// The legacy record of whichever architecture it came from.
#[derive(Copy, Clone, Debug)]
pub enum stat {
    Aarch64(aarch64::stat),
    Arm(arm::stat),
    Mips(mips::stat),
    Mips64(mips64::stat),
    PowerPc(powerpc::stat),
    PowerPc64(powerpc64::stat),
    RiscV64(riscv64::stat),
    S390x(s390x::stat),
    X86(x86::stat),
    X86_64(x86_64::stat),
}

impl View for stat {
    type V = StatFields;

    /// The values that the record holds.
    open spec fn view(&self) -> StatFields {
        match self {
            stat::Aarch64(s) => s@,
            stat::Arm(s) => s@,
            stat::Mips(s) => s@,
            stat::Mips64(s) => s@,
            stat::PowerPc(s) => s@,
            stat::PowerPc64(s) => s@,
            stat::RiscV64(s) => s@,
            stat::S390x(s) => s@,
            stat::X86(s) => s@,
            stat::X86_64(s) => s@,
        }
    }
}

impl stat {
    /// What the record says of the file.
    pub open spec fn metadata(&self) -> Metadata {
        legacy_metadata(self@)
    }

    /// Whether every padding field of the record is zero, whichever
    /// architecture it is of.
    pub open spec fn padding_is_zero(&self) -> bool {
        match self {
            stat::Aarch64(s) => s.padding_is_zero(),
            stat::Arm(s) => s.padding_is_zero(),
            stat::Mips(s) => s.padding_is_zero(),
            stat::Mips64(s) => s.padding_is_zero(),
            stat::PowerPc(s) => s.padding_is_zero(),
            stat::PowerPc64(s) => s.padding_is_zero(),
            stat::RiscV64(s) => s.padding_is_zero(),
            stat::S390x(s) => s.padding_is_zero(),
            stat::X86(s) => s.padding_is_zero(),
            stat::X86_64(s) => s.padding_is_zero(),
        }
    }

    /// Checks the padding of the record of whichever architecture this is.
    /// It is zero in every record, so the answer is always yes.
    pub fn has_zero_padding(&self) -> (r: bool)
        ensures
            r == self.padding_is_zero(),
            self.padding_is_zero(),
    {
        match self {
            stat::Aarch64(s) => s.has_zero_padding(),
            stat::Arm(s) => s.has_zero_padding(),
            stat::Mips(s) => s.has_zero_padding(),
            stat::Mips64(s) => s.has_zero_padding(),
            stat::PowerPc(s) => s.has_zero_padding(),
            stat::PowerPc64(s) => s.has_zero_padding(),
            stat::RiscV64(s) => s.has_zero_padding(),
            stat::S390x(s) => s.has_zero_padding(),
            stat::X86(s) => s.has_zero_padding(),
            stat::X86_64(s) => s.has_zero_padding(),
        }
    }

    /// The device on which the file resides.
    pub fn dev(&self) -> (r: Dev)
        ensures
            r matches Dev::B64(d) && d.bits() == self@.dev,
            r.pair() == self.metadata().dev,
    {
        match self {
            stat::Aarch64(s) => s.dev(),
            stat::Arm(s) => s.dev(),
            stat::Mips(s) => s.dev(),
            stat::Mips64(s) => s.dev(),
            stat::PowerPc(s) => s.dev(),
            stat::PowerPc64(s) => s.dev(),
            stat::RiscV64(s) => s.dev(),
            stat::S390x(s) => s.dev(),
            stat::X86(s) => s.dev(),
            stat::X86_64(s) => s.dev(),
        }
    }

    /// The inode number.
    pub fn inode(&self) -> (r: u64)
        ensures
            r == self.metadata().ino,
    {
        match self {
            stat::Aarch64(s) => s.inode(),
            stat::Arm(s) => s.inode(),
            stat::Mips(s) => s.inode(),
            stat::Mips64(s) => s.inode(),
            stat::PowerPc(s) => s.ino(),
            stat::PowerPc64(s) => s.inode(),
            stat::RiscV64(s) => s.ino(),
            stat::S390x(s) => s.ino(),
            stat::X86(s) => s.inode(),
            stat::X86_64(s) => s.inode(),
        }
    }

    /// The number of hard links.
    pub fn nlink(&self) -> (r: u32)
        ensures
            r == self.metadata().nlink,
    {
        match self {
            stat::Aarch64(s) => s.nlink(),
            stat::Arm(s) => s.nlink(),
            stat::Mips(s) => s.nlink(),
            stat::Mips64(s) => s.nlink(),
            stat::PowerPc(s) => s.nlink(),
            stat::PowerPc64(s) => s.nlink(),
            stat::RiscV64(s) => s.nlink(),
            stat::S390x(s) => s.nlink(),
            stat::X86(s) => s.nlink(),
            stat::X86_64(s) => s.nlink(),
        }
    }

    /// The mode word: file type and permission bits.
    pub fn raw_mode(&self) -> (r: u16)
        ensures
            r == self.metadata().mode,
    {
        match self {
            stat::Aarch64(s) => s.raw_mode(),
            stat::Arm(s) => s.raw_mode(),
            stat::Mips(s) => s.raw_mode(),
            stat::Mips64(s) => s.raw_mode(),
            stat::PowerPc(s) => s.raw_mode(),
            stat::PowerPc64(s) => s.raw_mode(),
            stat::RiscV64(s) => s.raw_mode(),
            stat::S390x(s) => s.raw_mode(),
            stat::X86(s) => s.raw_mode(),
            stat::X86_64(s) => s.raw_mode(),
        }
    }

    /// The owner.
    pub fn uid(&self) -> (r: u32)
        ensures
            r == self.metadata().uid,
    {
        match self {
            stat::Aarch64(s) => s.uid(),
            stat::Arm(s) => s.uid(),
            stat::Mips(s) => s.uid(),
            stat::Mips64(s) => s.uid(),
            stat::PowerPc(s) => s.uid(),
            stat::PowerPc64(s) => s.uid(),
            stat::RiscV64(s) => s.uid(),
            stat::S390x(s) => s.uid(),
            stat::X86(s) => s.uid(),
            stat::X86_64(s) => s.uid(),
        }
    }

    /// The group.
    pub fn gid(&self) -> (r: u32)
        ensures
            r == self.metadata().gid,
    {
        match self {
            stat::Aarch64(s) => s.gid(),
            stat::Arm(s) => s.gid(),
            stat::Mips(s) => s.gid(),
            stat::Mips64(s) => s.gid(),
            stat::PowerPc(s) => s.gid(),
            stat::PowerPc64(s) => s.gid(),
            stat::RiscV64(s) => s.gid(),
            stat::S390x(s) => s.gid(),
            stat::X86(s) => s.gid(),
            stat::X86_64(s) => s.gid(),
        }
    }

    /// The device that the file stands for, if it is a device.
    pub fn rdev(&self) -> (r: Dev)
        ensures
            r matches Dev::B64(d) && d.bits() == self@.rdev,
            r.pair() == self.metadata().rdev,
    {
        match self {
            stat::Aarch64(s) => s.rdev(),
            stat::Arm(s) => s.rdev(),
            stat::Mips(s) => s.rdev(),
            stat::Mips64(s) => s.rdev(),
            stat::PowerPc(s) => s.rdev(),
            stat::PowerPc64(s) => s.rdev(),
            stat::RiscV64(s) => s.rdev(),
            stat::S390x(s) => s.rdev(),
            stat::X86(s) => s.rdev(),
            stat::X86_64(s) => s.rdev(),
        }
    }

    /// The size in bytes.
    pub fn size(&self) -> (r: i64)
        ensures
            r == self.metadata().size,
    {
        match self {
            stat::Aarch64(s) => s.size(),
            stat::Arm(s) => s.size(),
            stat::Mips(s) => s.size(),
            stat::Mips64(s) => s.size(),
            stat::PowerPc(s) => s.size(),
            stat::PowerPc64(s) => s.size(),
            stat::RiscV64(s) => s.size(),
            stat::S390x(s) => s.size(),
            stat::X86(s) => s.size(),
            stat::X86_64(s) => s.size(),
        }
    }

    /// The block size that suits I/O on the file.
    pub fn block_size(&self) -> (r: i32)
        ensures
            r == self.metadata().block_size,
    {
        match self {
            stat::Aarch64(s) => s.block_size(),
            stat::Arm(s) => s.block_size(),
            stat::Mips(s) => s.block_size(),
            stat::Mips64(s) => s.block_size(),
            stat::PowerPc(s) => s.block_size(),
            stat::PowerPc64(s) => s.block_size(),
            stat::RiscV64(s) => s.block_size(),
            stat::S390x(s) => s.block_size(),
            stat::X86(s) => s.block_size(),
            stat::X86_64(s) => s.block_size(),
        }
    }

    /// The number of 512-byte blocks.
    pub fn blocks(&self) -> (r: i64)
        ensures
            r == self.metadata().blocks,
    {
        match self {
            stat::Aarch64(s) => s.blocks(),
            stat::Arm(s) => s.blocks(),
            stat::Mips(s) => s.blocks(),
            stat::Mips64(s) => s.blocks(),
            stat::PowerPc(s) => s.blocks(),
            stat::PowerPc64(s) => s.blocks(),
            stat::RiscV64(s) => s.blocks(),
            stat::S390x(s) => s.blocks(),
            stat::X86(s) => s.blocks(),
            stat::X86_64(s) => s.blocks(),
        }
    }

    /// The time of the last access.
    pub fn atime(&self) -> (r: Timestamp)
        ensures
            r@ == self.metadata().atime,
    {
        match self {
            stat::Aarch64(s) => s.atime(),
            stat::Arm(s) => s.atime(),
            stat::Mips(s) => s.atime(),
            stat::Mips64(s) => s.atime(),
            stat::PowerPc(s) => s.atime(),
            stat::PowerPc64(s) => s.atime(),
            stat::RiscV64(s) => s.atime(),
            stat::S390x(s) => s.atime(),
            stat::X86(s) => s.atime(),
            stat::X86_64(s) => s.atime(),
        }
    }

    /// The time of the last modification.
    pub fn mtime(&self) -> (r: Timestamp)
        ensures
            r@ == self.metadata().mtime,
    {
        match self {
            stat::Aarch64(s) => s.mtime(),
            stat::Arm(s) => s.mtime(),
            stat::Mips(s) => s.mtime(),
            stat::Mips64(s) => s.mtime(),
            stat::PowerPc(s) => s.mtime(),
            stat::PowerPc64(s) => s.mtime(),
            stat::RiscV64(s) => s.mtime(),
            stat::S390x(s) => s.mtime(),
            stat::X86(s) => s.mtime(),
            stat::X86_64(s) => s.mtime(),
        }
    }

    /// The time of the last status change.
    pub fn ctime(&self) -> (r: Timestamp)
        ensures
            r@ == self.metadata().ctime,
    {
        match self {
            stat::Aarch64(s) => s.ctime(),
            stat::Arm(s) => s.ctime(),
            stat::Mips(s) => s.ctime(),
            stat::Mips64(s) => s.ctime(),
            stat::PowerPc(s) => s.ctime(),
            stat::PowerPc64(s) => s.ctime(),
            stat::RiscV64(s) => s.ctime(),
            stat::S390x(s) => s.ctime(),
            stat::X86(s) => s.ctime(),
            stat::X86_64(s) => s.ctime(),
        }
    }

    /// The permission bits: the mode word without the file type.
    pub fn mode(&self) -> (r: Mode)
        ensures
            r@ == self.metadata().mode & !S_IFMT,
    {
        Mode::from_u16(self.raw_mode() & !S_IFMT)
    }

    /// The file type.
    pub fn file_type(&self) -> (r: FileType)
        ensures
            r == file_type_of(self.metadata().mode),
    {
        file_type(self.raw_mode())
    }

    /// Whether the file is a socket.
    pub fn is_socket(&self) -> (r: bool)
        ensures
            r == (file_type_of(self.metadata().mode) == FileType::Socket),
    {
        self.raw_mode() & S_IFMT == S_IFSOCK
    }

    /// Whether the file is a symbolic link.
    pub fn is_link(&self) -> (r: bool)
        ensures
            r == (file_type_of(self.metadata().mode) == FileType::Link),
    {
        self.raw_mode() & S_IFMT == S_IFLNK
    }

    /// Whether the file is a regular file.
    pub fn is_regular(&self) -> (r: bool)
        ensures
            r == (file_type_of(self.metadata().mode) == FileType::Regular),
    {
        self.raw_mode() & S_IFMT == S_IFREG
    }

    /// Whether the file is a block device.
    pub fn is_block(&self) -> (r: bool)
        ensures
            r == (file_type_of(self.metadata().mode) == FileType::Block),
    {
        self.raw_mode() & S_IFMT == S_IFBLK
    }

    /// Whether the file is a directory.
    pub fn is_directory(&self) -> (r: bool)
        ensures
            r == (file_type_of(self.metadata().mode) == FileType::Directory),
    {
        self.raw_mode() & S_IFMT == S_IFDIR
    }

    /// Whether the file is a directory.
    pub fn is_dir(&self) -> (r: bool)
        ensures
            r == (file_type_of(self.metadata().mode) == FileType::Directory),
    {
        self.is_directory()
    }

    /// Whether the file is a character device.
    pub fn is_character(&self) -> (r: bool)
        ensures
            r == (file_type_of(self.metadata().mode) == FileType::Character),
    {
        self.raw_mode() & S_IFMT == S_IFCHR
    }

    /// Whether the file is a character device.
    pub fn is_char(&self) -> (r: bool)
        ensures
            r == (file_type_of(self.metadata().mode) == FileType::Character),
    {
        self.is_character()
    }

    /// Whether the file is a FIFO.
    pub fn is_fifo(&self) -> (r: bool)
        ensures
            r == (file_type_of(self.metadata().mode) == FileType::Fifo),
    {
        self.raw_mode() & S_IFMT == S_IFIFO
    }

    /// The minor number of the device on which the file resides.
    pub fn dev_minor(&self) -> (r: u32)
        ensures
            r == self.metadata().dev.1,
    {
        self.dev().minor()
    }

    /// The major number of the device on which the file resides.
    pub fn dev_major(&self) -> (r: u32)
        ensures
            r == self.metadata().dev.0,
    {
        self.dev().major()
    }

    /// The minor number of the device that the file stands for.
    pub fn rdev_minor(&self) -> (r: u32)
        ensures
            r == self.metadata().rdev.1,
    {
        self.rdev().minor()
    }

    /// The major number of the device that the file stands for.
    pub fn rdev_major(&self) -> (r: u32)
        ensures
            r == self.metadata().rdev.0,
    {
        self.rdev().major()
    }
}

/// A timestamp as the extended record holds it.
#[derive(Copy, Clone, Debug)]
struct timestamp {
    tv_sec: i64,
    tv_nsec: u32,
    __pad: u32,
}

/// The record that the extended call fills in, field by field as the kernel
/// lays it out.
#[derive(Copy, Clone, Debug)]
pub struct Statx {
    stx_mask: StatXMask,
    stx_blksize: i32,
    stx_attributes: u64,
    stx_nlink: u32,
    stx_uid: u32,
    stx_gid: u32,
    stx_mode: u16,
    stx_ino: u64,
    stx_size: i64,
    stx_blocks: i64,
    stx_attributes_mask: StatXAttr,
    stx_atime: timestamp,
    stx_btime: timestamp,
    stx_ctime: timestamp,
    stx_mtime: timestamp,
    stx_rdev_major: u32,
    stx_rdev_minor: u32,
    stx_dev_major: u32,
    stx_dev_minor: u32,
    stx_mnt_id: u64,
    stx_dio_mem_align: u32,
    stx_dio_offset_align: u32,
    spare: [u64; 14],
}

impl View for Statx {
    type V = StatxFields;

    /// The values that the record holds.
    closed spec fn view(&self) -> StatxFields {
        StatxFields {
            mask: self.stx_mask@,
            blksize: self.stx_blksize as u32,
            attributes: self.stx_attributes,
            nlink: self.stx_nlink,
            uid: self.stx_uid,
            gid: self.stx_gid,
            mode: self.stx_mode,
            ino: self.stx_ino,
            size: self.stx_size as u64,
            blocks: self.stx_blocks as u64,
            attributes_mask: self.stx_attributes_mask@,
            atime: self.stx_atime.tv_sec,
            atime_nsec: self.stx_atime.tv_nsec,
            btime: self.stx_btime.tv_sec,
            btime_nsec: self.stx_btime.tv_nsec,
            ctime: self.stx_ctime.tv_sec,
            ctime_nsec: self.stx_ctime.tv_nsec,
            mtime: self.stx_mtime.tv_sec,
            mtime_nsec: self.stx_mtime.tv_nsec,
            rdev_major: self.stx_rdev_major,
            rdev_minor: self.stx_rdev_minor,
            dev_major: self.stx_dev_major,
            dev_minor: self.stx_dev_minor,
            mnt_id: self.stx_mnt_id,
            dio_mem_align: self.stx_dio_mem_align,
            dio_offset_align: self.stx_dio_offset_align,
        }
    }
}

impl Statx {
    #[verifier::type_invariant]
    spec fn inv(self) -> bool {
        &&& self.stx_blksize >= 0
        &&& self.stx_size >= 0
        &&& self.stx_blocks >= 0
        &&& self.stx_atime.tv_nsec < NANOS_PER_SEC
        &&& self.stx_btime.tv_nsec < NANOS_PER_SEC
        &&& self.stx_ctime.tv_nsec < NANOS_PER_SEC
        &&& self.stx_mtime.tv_nsec < NANOS_PER_SEC
        &&& self.padding_is_zero()
    }

    /// Whether every padding field and every spare word of the record is
    /// zero.
    pub closed spec fn padding_is_zero(&self) -> bool {
        &&& self.stx_atime.__pad == 0
        &&& self.stx_btime.__pad == 0
        &&& self.stx_ctime.__pad == 0
        &&& self.stx_mtime.__pad == 0
        &&& forall|i: int| 0 <= i < 14 ==> self.spare[i] == 0
    }

    /// Whether the record has room for these values: block size, size and
    /// number of blocks within the signed types that the record gives them, the
    /// nanoseconds within a second.
    pub open spec fn holds(f: StatxFields) -> bool {
        &&& f.blksize <= i32::MAX
        &&& f.size <= i64::MAX
        &&& f.blocks <= i64::MAX
        &&& f.atime_nsec < NANOS_PER_SEC
        &&& f.btime_nsec < NANOS_PER_SEC
        &&& f.ctime_nsec < NANOS_PER_SEC
        &&& f.mtime_nsec < NANOS_PER_SEC
    }

    /// What the record says of the file.
    pub open spec fn metadata(&self) -> Metadata {
        extended_metadata(self@)
    }

    /// A blank record, as it is handed to the kernel: padding and spare words
    /// are zero, and so is everything else.
    pub fn uninit() -> (r: Self)
        ensures
            r@ == StatxFields::zero(),
            r.padding_is_zero(),
    {
        let zero = timestamp { tv_sec: 0, tv_nsec: 0, __pad: 0 };
        Statx {
            stx_mask: StatXMask::empty(),
            stx_blksize: 0,
            stx_attributes: 0,
            stx_nlink: 0,
            stx_uid: 0,
            stx_gid: 0,
            stx_mode: 0,
            stx_ino: 0,
            stx_size: 0,
            stx_blocks: 0,
            stx_attributes_mask: StatXAttr::empty(),
            stx_atime: zero,
            stx_btime: zero,
            stx_ctime: zero,
            stx_mtime: zero,
            stx_rdev_major: 0,
            stx_rdev_minor: 0,
            stx_dev_major: 0,
            stx_dev_minor: 0,
            stx_mnt_id: 0,
            stx_dio_mem_align: 0,
            stx_dio_offset_align: 0,
            spare: [0, 0, 0, 0, 0, 0, 0, 0, 0, 0, 0, 0, 0, 0],
        }
    }

    /// The record that holds the values which the kernel reported. Padding
    /// and spare words stay zero.
    pub fn from_fields(f: &StatxFields) -> (r: Option<Self>)
        ensures
            r is Some <==> Self::holds(*f),
            r matches Some(s) ==> s@ == *f && s.padding_is_zero(),
    {
        if f.blksize > i32::MAX as u32 || f.size > i64::MAX as u64 || f.blocks > i64::MAX as u64
            || f.atime_nsec >= NANOS_PER_SEC || f.btime_nsec >= NANOS_PER_SEC || f.ctime_nsec
            >= NANOS_PER_SEC || f.mtime_nsec >= NANOS_PER_SEC {
            return None;
        }
        Some(
            Statx {
                stx_mask: StatXMask::from_bits(f.mask),
                stx_blksize: f.blksize as i32,
                stx_attributes: f.attributes,
                stx_nlink: f.nlink,
                stx_uid: f.uid,
                stx_gid: f.gid,
                stx_mode: f.mode,
                stx_ino: f.ino,
                stx_size: f.size as i64,
                stx_blocks: f.blocks as i64,
                stx_attributes_mask: StatXAttr::from_bits(f.attributes_mask),
                stx_atime: timestamp { tv_sec: f.atime, tv_nsec: f.atime_nsec, __pad: 0 },
                stx_btime: timestamp { tv_sec: f.btime, tv_nsec: f.btime_nsec, __pad: 0 },
                stx_ctime: timestamp { tv_sec: f.ctime, tv_nsec: f.ctime_nsec, __pad: 0 },
                stx_mtime: timestamp { tv_sec: f.mtime, tv_nsec: f.mtime_nsec, __pad: 0 },
                stx_rdev_major: f.rdev_major,
                stx_rdev_minor: f.rdev_minor,
                stx_dev_major: f.dev_major,
                stx_dev_minor: f.dev_minor,
                stx_mnt_id: f.mnt_id,
                stx_dio_mem_align: f.dio_mem_align,
                stx_dio_offset_align: f.dio_offset_align,
                spare: [0, 0, 0, 0, 0, 0, 0, 0, 0, 0, 0, 0, 0, 0],
            },
        )
    }

    /// The record of what the kernel reported, or the error of a value that
    /// does not fit its field.
    pub fn decode(f: &StatxFields) -> (r: Result<Self, Errno>)
        ensures
            r is Ok <==> Self::holds(*f),
            r matches Ok(s) ==> s@ == *f && s.padding_is_zero(),
            r matches Err(e) ==> e.code() == EOVERFLOW,
    {
        match Self::from_fields(f) {
            Some(s) => Ok(s),
            None => Err(Errno::new(EOVERFLOW)),
        }
    }

    /// Checks padding and spare words of the record. They are zero in every
    /// record.
    pub fn has_zero_padding(&self) -> (r: bool)
        ensures
            r,
            self.padding_is_zero(),
    {
        proof {
            use_type_invariant(self);
        }
        let mut i: usize = 0;
        while i < 14
            invariant
                i <= 14,
                self.padding_is_zero(),
            decreases 14 - i,
        {
            if self.spare[i] != 0 {
                return false;
            }
            i += 1;
        }
        self.stx_atime.__pad == 0 && self.stx_btime.__pad == 0 && self.stx_ctime.__pad == 0
            && self.stx_mtime.__pad == 0
    }

    /// The fields that the kernel filled in.
    pub fn mask(&self) -> (r: StatXMask)
        ensures
            r@ == self@.mask,
    {
        self.stx_mask
    }

    /// The block size that suits I/O on the file.
    pub fn block_size(&self) -> (r: i32)
        ensures
            r == self.metadata().block_size,
    {
        proof {
            use_type_invariant(self);
        }
        self.stx_blksize
    }

    /// Further attributes of the file. A bit means something only where `attributes_mask` has it set.
    pub fn attributes(&self) -> (r: u64)
        ensures
            r == self@.attributes,
    {
        self.stx_attributes
    }

    /// The number of hard links.
    pub fn nlink(&self) -> (r: u32)
        ensures
            r == self.metadata().nlink,
    {
        self.stx_nlink
    }

    /// The owner.
    pub fn uid(&self) -> (r: u32)
        ensures
            r == self.metadata().uid,
    {
        self.stx_uid
    }

    /// The group.
    pub fn gid(&self) -> (r: u32)
        ensures
            r == self.metadata().gid,
    {
        self.stx_gid
    }

    /// The permission bits: the mode word without the file type.
    pub fn mode(&self) -> (r: Mode)
        ensures
            r@ == self.metadata().mode & !S_IFMT,
    {
        Mode::from_u16(self.stx_mode & !S_IFMT)
    }

    /// The mode word: file type and permission bits.
    pub fn raw_mode(&self) -> (r: u16)
        ensures
            r == self.metadata().mode,
    {
        self.stx_mode
    }

    /// The file type.
    pub fn file_type(&self) -> (r: FileType)
        ensures
            r == file_type_of(self.metadata().mode),
    {
        file_type(self.stx_mode)
    }

    /// Whether the file is a socket.
    pub fn is_socket(&self) -> (r: bool)
        ensures
            r == (file_type_of(self.metadata().mode) == FileType::Socket),
    {
        self.stx_mode & S_IFMT == S_IFSOCK
    }

    /// Whether the file is a symbolic link.
    pub fn is_link(&self) -> (r: bool)
        ensures
            r == (file_type_of(self.metadata().mode) == FileType::Link),
    {
        self.stx_mode & S_IFMT == S_IFLNK
    }

    /// Whether the file is a regular file.
    pub fn is_regular(&self) -> (r: bool)
        ensures
            r == (file_type_of(self.metadata().mode) == FileType::Regular),
    {
        self.stx_mode & S_IFMT == S_IFREG
    }

    /// Whether the file is a block device.
    pub fn is_block(&self) -> (r: bool)
        ensures
            r == (file_type_of(self.metadata().mode) == FileType::Block),
    {
        self.stx_mode & S_IFMT == S_IFBLK
    }

    /// Whether the file is a directory.
    pub fn is_directory(&self) -> (r: bool)
        ensures
            r == (file_type_of(self.metadata().mode) == FileType::Directory),
    {
        self.stx_mode & S_IFMT == S_IFDIR
    }

    /// Whether the file is a directory.
    pub fn is_dir(&self) -> (r: bool)
        ensures
            r == (file_type_of(self.metadata().mode) == FileType::Directory),
    {
        self.is_directory()
    }

    /// Whether the file is a character device.
    pub fn is_character(&self) -> (r: bool)
        ensures
            r == (file_type_of(self.metadata().mode) == FileType::Character),
    {
        self.stx_mode & S_IFMT == S_IFCHR
    }

    /// Whether the file is a character device.
    pub fn is_char(&self) -> (r: bool)
        ensures
            r == (file_type_of(self.metadata().mode) == FileType::Character),
    {
        self.is_character()
    }

    /// Whether the file is a FIFO.
    pub fn is_fifo(&self) -> (r: bool)
        ensures
            r == (file_type_of(self.metadata().mode) == FileType::Fifo),
    {
        self.stx_mode & S_IFMT == S_IFIFO
    }

    /// The inode number.
    pub fn inode(&self) -> (r: u64)
        ensures
            r == self.metadata().ino,
    {
        self.stx_ino
    }

    /// The size in bytes.
    pub fn size(&self) -> (r: i64)
        ensures
            r == self.metadata().size,
            r >= 0,
    {
        proof {
            use_type_invariant(self);
        }
        self.stx_size
    }

    /// The number of 512-byte blocks.
    pub fn blocks(&self) -> (r: i64)
        ensures
            r == self.metadata().blocks,
            r >= 0,
    {
        proof {
            use_type_invariant(self);
        }
        self.stx_blocks
    }

    /// The attributes that the filesystem supports: the bits of `attributes` that mean something.
    pub fn attributes_mask(&self) -> (r: StatXAttr)
        ensures
            r@ == self@.attributes_mask,
    {
        self.stx_attributes_mask
    }

    /// Whether the file has the attributes of `attr`, where the filesystem
    /// supports them all; `None` where it does not: the bits then mean nothing.
    pub fn attribute(&self, attr: StatXAttr) -> (r: Option<bool>)
        ensures
            r is Some <==> self@.attributes_mask & attr@ == attr@,
            r matches Some(b) ==> b == (self@.attributes & attr@ == attr@),
    {
        if self.stx_attributes_mask.contains(attr) {
            Some(self.stx_attributes & attr.bits() == attr.bits())
        } else {
            None
        }
    }

    /// The time of the last access.
    pub fn atime(&self) -> (r: Timestamp)
        ensures
            r@ == self.metadata().atime,
    {
        proof {
            use_type_invariant(self);
        }
        Timestamp::within_second(self.stx_atime.tv_sec, self.stx_atime.tv_nsec)
    }

    /// The time of the creation.
    pub fn btime(&self) -> (r: Timestamp)
        ensures
            r@ == (self@.btime, self@.btime_nsec),
    {
        proof {
            use_type_invariant(self);
        }
        Timestamp::within_second(self.stx_btime.tv_sec, self.stx_btime.tv_nsec)
    }

    /// The time of the last status change.
    pub fn ctime(&self) -> (r: Timestamp)
        ensures
            r@ == self.metadata().ctime,
    {
        proof {
            use_type_invariant(self);
        }
        Timestamp::within_second(self.stx_ctime.tv_sec, self.stx_ctime.tv_nsec)
    }

    /// The time of the last modification.
    pub fn mtime(&self) -> (r: Timestamp)
        ensures
            r@ == self.metadata().mtime,
    {
        proof {
            use_type_invariant(self);
        }
        Timestamp::within_second(self.stx_mtime.tv_sec, self.stx_mtime.tv_nsec)
    }

    /// The major number of the device that the file stands for.
    pub fn rdev_major(&self) -> (r: u32)
        ensures
            r == self.metadata().rdev.0,
    {
        self.stx_rdev_major
    }

    /// The minor number of the device that the file stands for.
    pub fn rdev_minor(&self) -> (r: u32)
        ensures
            r == self.metadata().rdev.1,
    {
        self.stx_rdev_minor
    }

    /// The device that the file stands for, if it is a device.
    pub fn rdev(&self) -> (r: Dev)
        ensures
            r is Split,
            r.pair() == self.metadata().rdev,
    {
        Dev::from_split(self.stx_rdev_major, self.stx_rdev_minor)
    }

    /// The major number of the device on which the file resides.
    pub fn dev_major(&self) -> (r: u32)
        ensures
            r == self.metadata().dev.0,
    {
        self.stx_dev_major
    }

    /// The minor number of the device on which the file resides.
    pub fn dev_minor(&self) -> (r: u32)
        ensures
            r == self.metadata().dev.1,
    {
        self.stx_dev_minor
    }

    /// The device on which the file resides.
    pub fn dev(&self) -> (r: Dev)
        ensures
            r is Split,
            r.pair() == self.metadata().dev,
    {
        Dev::from_split(self.stx_dev_major, self.stx_dev_minor)
    }

    /// The identifier of the mount that holds the file.
    pub fn mount_id(&self) -> (r: u64)
        ensures
            r == self@.mnt_id,
    {
        self.stx_mnt_id
    }

    /// The alignment that direct I/O asks of buffers in memory, or zero.
    pub fn dio_mem_align(&self) -> (r: u32)
        ensures
            r == self@.dio_mem_align,
    {
        self.stx_dio_mem_align
    }

    /// The alignment that direct I/O asks of offsets and lengths, or zero.
    pub fn dio_offset_align(&self) -> (r: u32)
        ensures
            r == self@.dio_offset_align,
    {
        self.stx_dio_offset_align
    }
}

} // verus!
