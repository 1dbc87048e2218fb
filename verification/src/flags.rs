//! Sets of flags over the bits of an integer.
use vstd::prelude::*;

verus! {

/// Flags of the metadata calls that say how the path is resolved.
#[derive(Copy, Clone, Debug, PartialEq, Eq, Structural, PartialOrd, Ord, Hash)]
pub struct StatAtFlags(u32);

/// The permissions of one class of users: owner, group or others.
#[derive(Copy, Clone, Debug, PartialEq, Eq, Structural, PartialOrd, Ord, Hash)]
pub struct ModePermission(u8);

/// The fields that a caller asks the extended metadata call for, and those
/// that the kernel says it filled in.
#[derive(Copy, Clone, Debug, PartialEq, Eq, Structural, PartialOrd, Ord, Hash)]
pub struct StatXMask(u32);

/// Further attributes of a file. A bit means something only where the
/// attributes mask of the same record has it set.
#[derive(Copy, Clone, Debug, PartialEq, Eq, Structural, PartialOrd, Ord, Hash)]
pub struct StatXAttr(u64);

impl View for StatAtFlags {
    type V = u32;

    /// The bits that are set.
    closed spec fn view(&self) -> u32 {
        self.0
    }
}

impl StatAtFlags {
    /// Operate on the file that the descriptor itself refers to when the path is empty.
    pub const EMPTY_PATH: u32 = 0x1000;

    /// Do not automount the last component of the path.
    pub const NO_AUTOMOUNT: u32 = 0x800;

    /// Describe a symbolic link itself, not what it points to.
    pub const SYMLINK_NOFOLLOW: u32 = 0x100;

    /// The bits of every flag that has a name.
    pub const ALL_BITS: u32 = Self::EMPTY_PATH | Self::NO_AUTOMOUNT | Self::SYMLINK_NOFOLLOW;

    /// No flag.
    pub fn empty() -> (r: Self)
        ensures
            r@ == 0,
    {
        StatAtFlags(0)
    }

    /// Every flag that has a name.
    pub fn all() -> (r: Self)
        ensures
            r@ == Self::ALL_BITS,
    {
        StatAtFlags(Self::ALL_BITS)
    }

    /// The flags whose bits are set in `bits`. Bits without a name are kept.
    pub fn from_bits(bits: u32) -> (r: Self)
        ensures
            r@ == bits,
    {
        StatAtFlags(bits)
    }

    pub fn bits(&self) -> (r: u32)
        ensures
            r == self@,
    {
        self.0
    }

    /// Whether every flag of `other` is set.
    pub fn contains(&self, other: Self) -> (r: bool)
        ensures
            r == (self@ & other@ == other@),
    {
        self.0 & other.0 == other.0
    }

    /// Clears the flags of `other`.
    pub fn remove(&mut self, other: Self)
        ensures
            final(self)@ == old(self)@ & !other@,
    {
        self.0 = self.0 & !other.0;
    }

    /// Sets the flags of `other`.
    pub fn insert(&mut self, other: Self)
        ensures
            final(self)@ == old(self)@ | other@,
    {
        self.0 = self.0 | other.0;
    }

    /// Clears the flags of `other` where all of them are set, and sets them
    /// otherwise.
    pub fn toggle(&mut self, other: Self)
        ensures
            final(self)@ == if old(self)@ & other@ == other@ {
                old(self)@ & !other@
            } else {
                old(self)@ | other@
            },
    {
        if self.contains(other) {
            self.remove(other)
        } else {
            self.insert(other)
        }
    }
}

impl View for ModePermission {
    type V = u8;

    /// The bits that are set.
    closed spec fn view(&self) -> u8 {
        self.0
    }
}

impl ModePermission {
    /// Read permission.
    pub const READ: u8 = 0o4;

    /// Write permission.
    pub const WRITE: u8 = 0o2;

    /// Execute permission.
    pub const EXEC: u8 = 0o1;

    /// The bits of every flag that has a name.
    pub const ALL_BITS: u8 = Self::READ | Self::WRITE | Self::EXEC;

    /// No flag.
    pub fn empty() -> (r: Self)
        ensures
            r@ == 0,
    {
        ModePermission(0)
    }

    /// Every flag that has a name.
    pub fn all() -> (r: Self)
        ensures
            r@ == Self::ALL_BITS,
    {
        ModePermission(Self::ALL_BITS)
    }

    /// The flags whose bits are set in `bits`. Bits without a name are kept.
    pub fn from_bits(bits: u8) -> (r: Self)
        ensures
            r@ == bits,
    {
        ModePermission(bits)
    }

    pub fn bits(&self) -> (r: u8)
        ensures
            r == self@,
    {
        self.0
    }

    /// Whether every flag of `other` is set.
    pub fn contains(&self, other: Self) -> (r: bool)
        ensures
            r == (self@ & other@ == other@),
    {
        self.0 & other.0 == other.0
    }

    /// Clears the flags of `other`.
    pub fn remove(&mut self, other: Self)
        ensures
            final(self)@ == old(self)@ & !other@,
    {
        self.0 = self.0 & !other.0;
    }

    /// Sets the flags of `other`.
    pub fn insert(&mut self, other: Self)
        ensures
            final(self)@ == old(self)@ | other@,
    {
        self.0 = self.0 | other.0;
    }

    /// Clears the flags of `other` where all of them are set, and sets them
    /// otherwise.
    pub fn toggle(&mut self, other: Self)
        ensures
            final(self)@ == if old(self)@ & other@ == other@ {
                old(self)@ & !other@
            } else {
                old(self)@ | other@
            },
    {
        if self.contains(other) {
            self.remove(other)
        } else {
            self.insert(other)
        }
    }
}

impl View for StatXMask {
    type V = u32;

    /// The bits that are set.
    closed spec fn view(&self) -> u32 {
        self.0
    }
}

impl StatXMask {
    /// The file type.
    pub const TYPE: u32 = 0x0001;

    /// The permission bits.
    pub const MODE: u32 = 0x0002;

    /// The number of links.
    pub const NLINK: u32 = 0x0004;

    /// The owner.
    pub const UID: u32 = 0x0008;

    /// The group.
    pub const GID: u32 = 0x0010;

    /// The time of last access.
    pub const ATIME: u32 = 0x0020;

    /// The time of last modification.
    pub const MTIME: u32 = 0x0040;

    /// The time of last status change.
    pub const CTIME: u32 = 0x0080;

    /// The inode number.
    pub const INO: u32 = 0x0100;

    /// The size.
    pub const SIZE: u32 = 0x0200;

    /// The number of blocks.
    pub const BLOCKS: u32 = 0x0400;

    /// Everything that the legacy call reports.
    pub const BASIC_STATS: u32 = 0x07ff;

    /// The time of creation.
    pub const BTIME: u32 = 0x0800;

    /// The basic fields and the time of creation.
    pub const ALL: u32 = 0x0fff;

    /// The mount identifier.
    pub const MNT_ID: u32 = 0x1000;

    /// The alignments for direct I/O.
    pub const DIOALIGN: u32 = 0x2000;

    /// The bits of every flag that has a name.
    pub const ALL_BITS: u32 = Self::TYPE | Self::MODE | Self::NLINK | Self::UID | Self::GID | Self::ATIME | Self::MTIME | Self::CTIME | Self::INO | Self::SIZE | Self::BLOCKS | Self::BASIC_STATS | Self::BTIME | Self::ALL | Self::MNT_ID | Self::DIOALIGN;

    /// No flag.
    pub fn empty() -> (r: Self)
        ensures
            r@ == 0,
    {
        StatXMask(0)
    }

    /// Every flag that has a name.
    pub fn all() -> (r: Self)
        ensures
            r@ == Self::ALL_BITS,
    {
        StatXMask(Self::ALL_BITS)
    }

    /// The flags whose bits are set in `bits`. Bits without a name are kept.
    pub fn from_bits(bits: u32) -> (r: Self)
        ensures
            r@ == bits,
    {
        StatXMask(bits)
    }

    pub fn bits(&self) -> (r: u32)
        ensures
            r == self@,
    {
        self.0
    }

    /// Whether every flag of `other` is set.
    pub fn contains(&self, other: Self) -> (r: bool)
        ensures
            r == (self@ & other@ == other@),
    {
        self.0 & other.0 == other.0
    }

    /// Clears the flags of `other`.
    pub fn remove(&mut self, other: Self)
        ensures
            final(self)@ == old(self)@ & !other@,
    {
        self.0 = self.0 & !other.0;
    }

    /// Sets the flags of `other`.
    pub fn insert(&mut self, other: Self)
        ensures
            final(self)@ == old(self)@ | other@,
    {
        self.0 = self.0 | other.0;
    }

    /// Clears the flags of `other` where all of them are set, and sets them
    /// otherwise.
    pub fn toggle(&mut self, other: Self)
        ensures
            final(self)@ == if old(self)@ & other@ == other@ {
                old(self)@ & !other@
            } else {
                old(self)@ | other@
            },
    {
        if self.contains(other) {
            self.remove(other)
        } else {
            self.insert(other)
        }
    }
}

impl View for StatXAttr {
    type V = u64;

    /// The bits that are set.
    closed spec fn view(&self) -> u64 {
        self.0
    }
}

impl StatXAttr {
    /// The file is compressed by the filesystem.
    pub const COMPRESSED: u64 = 0x0004;

    /// The file cannot be modified.
    pub const IMMUTABLE: u64 = 0x0010;

    /// The file can only be appended to.
    pub const APPEND: u64 = 0x0020;

    /// The file is left out of backups.
    pub const NODUMP: u64 = 0x0040;

    /// The file needs a key to be read.
    pub const ENCRYPTED: u64 = 0x0800;

    /// The directory is an automount trigger.
    pub const AUTOMOUNT: u64 = 0x1000;

    /// The directory is the root of a mount.
    pub const MOUNT_ROOT: u64 = 0x2000;

    /// The file is protected by fs-verity.
    pub const VERITY: u64 = 0x100000;

    /// The file is in the DAX state.
    pub const DAX: u64 = 0x200000;

    /// The bits of every flag that has a name.
    pub const ALL_BITS: u64 = Self::COMPRESSED | Self::IMMUTABLE | Self::APPEND | Self::NODUMP | Self::ENCRYPTED | Self::AUTOMOUNT | Self::MOUNT_ROOT | Self::VERITY | Self::DAX;

    /// No flag.
    pub fn empty() -> (r: Self)
        ensures
            r@ == 0,
    {
        StatXAttr(0)
    }

    /// Every flag that has a name.
    pub fn all() -> (r: Self)
        ensures
            r@ == Self::ALL_BITS,
    {
        StatXAttr(Self::ALL_BITS)
    }

    /// The flags whose bits are set in `bits`. Bits without a name are kept.
    pub fn from_bits(bits: u64) -> (r: Self)
        ensures
            r@ == bits,
    {
        StatXAttr(bits)
    }

    pub fn bits(&self) -> (r: u64)
        ensures
            r == self@,
    {
        self.0
    }

    /// Whether every flag of `other` is set.
    pub fn contains(&self, other: Self) -> (r: bool)
        ensures
            r == (self@ & other@ == other@),
    {
        self.0 & other.0 == other.0
    }

    /// Clears the flags of `other`.
    pub fn remove(&mut self, other: Self)
        ensures
            final(self)@ == old(self)@ & !other@,
    {
        self.0 = self.0 & !other.0;
    }

    /// Sets the flags of `other`.
    pub fn insert(&mut self, other: Self)
        ensures
            final(self)@ == old(self)@ | other@,
    {
        self.0 = self.0 | other.0;
    }

    /// Clears the flags of `other` where all of them are set, and sets them
    /// otherwise.
    pub fn toggle(&mut self, other: Self)
        ensures
            final(self)@ == if old(self)@ & other@ == other@ {
                old(self)@ & !other@
            } else {
                old(self)@ | other@
            },
    {
        if self.contains(other) {
            self.remove(other)
        } else {
            self.insert(other)
        }
    }
}

} // verus!
