//! The metadata of a file, from whichever call it came.
use crate::raw;
use crate::record::Metadata;
use crate::{file_type_of, Dev, FileType, Mode, Timestamp, S_IFMT};
use vstd::prelude::*;

verus! {

/// The record of a file: that of the legacy call or that of the extended
/// call. Both are read alike.
#[derive(Copy, Clone, Debug)]
pub enum Stat {
    Stat64(raw::stat),
    Statx(raw::Statx),
}

impl Stat {
    /// What the record says of the file.
    pub open spec fn metadata(&self) -> Metadata {
        match self {
            Stat::Stat64(s) => s.metadata(),
            Stat::Statx(s) => s.metadata(),
        }
    }

    /// The block size that suits I/O on the file.
    pub fn block_size(&self) -> (r: i32)
        ensures
            r == self.metadata().block_size,
    {
        match self {
            Stat::Stat64(s) => s.block_size(),
            Stat::Statx(s) => s.block_size(),
        }
    }

    /// The number of hard links.
    pub fn nlink(&self) -> (r: u32)
        ensures
            r == self.metadata().nlink,
    {
        match self {
            Stat::Stat64(s) => s.nlink(),
            Stat::Statx(s) => s.nlink(),
        }
    }

    /// The owner.
    pub fn uid(&self) -> (r: u32)
        ensures
            r == self.metadata().uid,
    {
        match self {
            Stat::Stat64(s) => s.uid(),
            Stat::Statx(s) => s.uid(),
        }
    }

    /// The group.
    pub fn gid(&self) -> (r: u32)
        ensures
            r == self.metadata().gid,
    {
        match self {
            Stat::Stat64(s) => s.gid(),
            Stat::Statx(s) => s.gid(),
        }
    }

    /// The permission bits: the mode word without the file type.
    pub fn mode(&self) -> (r: Mode)
        ensures
            r@ == self.metadata().mode & !S_IFMT,
    {
        match self {
            Stat::Stat64(s) => s.mode(),
            Stat::Statx(s) => s.mode(),
        }
    }

    /// The file type.
    pub fn file_type(&self) -> (r: FileType)
        ensures
            r == file_type_of(self.metadata().mode),
    {
        match self {
            Stat::Stat64(s) => s.file_type(),
            Stat::Statx(s) => s.file_type(),
        }
    }

    /// Whether the file is a socket.
    pub fn is_socket(&self) -> (r: bool)
        ensures
            r == (file_type_of(self.metadata().mode) == FileType::Socket),
    {
        match self {
            Stat::Stat64(s) => s.is_socket(),
            Stat::Statx(s) => s.is_socket(),
        }
    }

    /// Whether the file is a symbolic link.
    pub fn is_link(&self) -> (r: bool)
        ensures
            r == (file_type_of(self.metadata().mode) == FileType::Link),
    {
        match self {
            Stat::Stat64(s) => s.is_link(),
            Stat::Statx(s) => s.is_link(),
        }
    }

    /// Whether the file is a regular file.
    pub fn is_regular(&self) -> (r: bool)
        ensures
            r == (file_type_of(self.metadata().mode) == FileType::Regular),
    {
        match self {
            Stat::Stat64(s) => s.is_regular(),
            Stat::Statx(s) => s.is_regular(),
        }
    }

    /// Whether the file is a block device.
    pub fn is_block(&self) -> (r: bool)
        ensures
            r == (file_type_of(self.metadata().mode) == FileType::Block),
    {
        match self {
            Stat::Stat64(s) => s.is_block(),
            Stat::Statx(s) => s.is_block(),
        }
    }

    /// Whether the file is a directory.
    pub fn is_directory(&self) -> (r: bool)
        ensures
            r == (file_type_of(self.metadata().mode) == FileType::Directory),
    {
        match self {
            Stat::Stat64(s) => s.is_directory(),
            Stat::Statx(s) => s.is_directory(),
        }
    }

    /// Whether the file is a directory.
    pub fn is_dir(&self) -> (r: bool)
        ensures
            r == (file_type_of(self.metadata().mode) == FileType::Directory),
    {
        match self {
            Stat::Stat64(s) => s.is_dir(),
            Stat::Statx(s) => s.is_dir(),
        }
    }

    /// Whether the file is a character device.
    pub fn is_character(&self) -> (r: bool)
        ensures
            r == (file_type_of(self.metadata().mode) == FileType::Character),
    {
        match self {
            Stat::Stat64(s) => s.is_character(),
            Stat::Statx(s) => s.is_character(),
        }
    }

    /// Whether the file is a character device.
    pub fn is_char(&self) -> (r: bool)
        ensures
            r == (file_type_of(self.metadata().mode) == FileType::Character),
    {
        match self {
            Stat::Stat64(s) => s.is_char(),
            Stat::Statx(s) => s.is_char(),
        }
    }

    /// Whether the file is a FIFO.
    pub fn is_fifo(&self) -> (r: bool)
        ensures
            r == (file_type_of(self.metadata().mode) == FileType::Fifo),
    {
        match self {
            Stat::Stat64(s) => s.is_fifo(),
            Stat::Statx(s) => s.is_fifo(),
        }
    }

    /// The inode number.
    pub fn inode(&self) -> (r: u64)
        ensures
            r == self.metadata().ino,
    {
        match self {
            Stat::Stat64(s) => s.inode(),
            Stat::Statx(s) => s.inode(),
        }
    }

    /// The size in bytes.
    pub fn size(&self) -> (r: i64)
        ensures
            r == self.metadata().size,
    {
        match self {
            Stat::Stat64(s) => s.size(),
            Stat::Statx(s) => s.size(),
        }
    }

    /// The number of 512-byte blocks.
    pub fn blocks(&self) -> (r: i64)
        ensures
            r == self.metadata().blocks,
    {
        match self {
            Stat::Stat64(s) => s.blocks(),
            Stat::Statx(s) => s.blocks(),
        }
    }

    /// The time of the last access.
    pub fn atime(&self) -> (r: Timestamp)
        ensures
            r@ == self.metadata().atime,
    {
        match self {
            Stat::Stat64(s) => s.atime(),
            Stat::Statx(s) => s.atime(),
        }
    }

    /// The time of the last status change.
    pub fn ctime(&self) -> (r: Timestamp)
        ensures
            r@ == self.metadata().ctime,
    {
        match self {
            Stat::Stat64(s) => s.ctime(),
            Stat::Statx(s) => s.ctime(),
        }
    }

    /// The time of the last modification.
    pub fn mtime(&self) -> (r: Timestamp)
        ensures
            r@ == self.metadata().mtime,
    {
        match self {
            Stat::Stat64(s) => s.mtime(),
            Stat::Statx(s) => s.mtime(),
        }
    }

    /// The major number of the device that the file stands for.
    pub fn rdev_major(&self) -> (r: u32)
        ensures
            r == self.metadata().rdev.0,
    {
        match self {
            Stat::Stat64(s) => s.rdev_major(),
            Stat::Statx(s) => s.rdev_major(),
        }
    }

    /// The minor number of the device that the file stands for.
    pub fn rdev_minor(&self) -> (r: u32)
        ensures
            r == self.metadata().rdev.1,
    {
        match self {
            Stat::Stat64(s) => s.rdev_minor(),
            Stat::Statx(s) => s.rdev_minor(),
        }
    }

    /// The device that the file stands for, if it is a device.
    pub fn rdev(&self) -> (r: Dev)
        ensures
            r.pair() == self.metadata().rdev,
    {
        match self {
            Stat::Stat64(s) => s.rdev(),
            Stat::Statx(s) => s.rdev(),
        }
    }

    /// The major number of the device on which the file resides.
    pub fn dev_major(&self) -> (r: u32)
        ensures
            r == self.metadata().dev.0,
    {
        match self {
            Stat::Stat64(s) => s.dev_major(),
            Stat::Statx(s) => s.dev_major(),
        }
    }

    /// The minor number of the device on which the file resides.
    pub fn dev_minor(&self) -> (r: u32)
        ensures
            r == self.metadata().dev.1,
    {
        match self {
            Stat::Stat64(s) => s.dev_minor(),
            Stat::Statx(s) => s.dev_minor(),
        }
    }

    /// The device on which the file resides.
    pub fn dev(&self) -> (r: Dev)
        ensures
            r.pair() == self.metadata().dev,
    {
        match self {
            Stat::Stat64(s) => s.dev(),
            Stat::Statx(s) => s.dev(),
        }
    }

    /// Whether every padding field of the record is zero, whichever call it
    /// came from.
    pub open spec fn padding_is_zero(&self) -> bool {
        match self {
            Stat::Stat64(s) => s.padding_is_zero(),
            Stat::Statx(s) => s.padding_is_zero(),
        }
    }

    /// Checks the padding of the record, whichever call it came from. It is
    /// zero in every record, so the answer is always yes.
    pub fn has_zero_padding(&self) -> (r: bool)
        ensures
            r == self.padding_is_zero(),
            self.padding_is_zero(),
    {
        match self {
            Stat::Stat64(s) => s.has_zero_padding(),
            Stat::Statx(s) => s.has_zero_padding(),
        }
    }
}

} // verus!
