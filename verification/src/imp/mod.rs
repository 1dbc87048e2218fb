//! The kernel interface, architecture by architecture: the numbers of the
//! metadata calls, the records as the kernel lays them out, and the mode word
//! as the kernel reports it.
use crate::{permission_bits, S_ISGID, S_ISUID, S_ISVTX};
use vstd::prelude::*;

pub mod arch;
pub mod debug;
pub mod request;
pub mod sys;

pub use crate::flags::ModePermission;
pub use crate::RawFd;

verus! {

/// The mode word of a file as the kernel reports it: the file type together
/// with the permission bits.
#[derive(Copy, Clone, Debug, PartialEq, Eq, Structural, PartialOrd, Ord, Hash)]
pub struct Mode(u16);

impl View for Mode {
    type V = u16;

    /// The bits of the mode word.
    closed spec fn view(&self) -> u16 {
        self.0
    }
}

fn low_permission_bits(bits: u16) -> (r: u8)
    ensures
        r == permission_bits(bits),
{
    assert(bits & 0o7 <= 7) by (bit_vector);
    (bits & 0o7) as u8
}

impl Mode {
    /// The owner's permissions.
    pub fn owner(&self) -> (r: ModePermission)
        ensures
            r@ == permission_bits(self@ >> 6),
    {
        ModePermission::from_bits(low_permission_bits(self.0 >> 6))
    }

    /// The group's permissions.
    pub fn group(&self) -> (r: ModePermission)
        ensures
            r@ == permission_bits(self@ >> 3),
    {
        ModePermission::from_bits(low_permission_bits(self.0 >> 3))
    }

    /// The permissions of everybody else.
    pub fn other(&self) -> (r: ModePermission)
        ensures
            r@ == permission_bits(self@),
    {
        ModePermission::from_bits(low_permission_bits(self.0))
    }

    /// Whether the set-user-ID bit is set.
    pub fn suid(&self) -> (r: bool)
        ensures
            r == (self@ & S_ISUID == S_ISUID),
    {
        self.0 & 0o4000 == 0o4000
    }

    /// Whether the set-group-ID bit is set.
    pub fn sgid(&self) -> (r: bool)
        ensures
            r == (self@ & S_ISGID == S_ISGID),
    {
        self.0 & 0o2000 == 0o2000
    }

    /// Whether the sticky bit is set.
    pub fn svtx(&self) -> (r: bool)
        ensures
            r == (self@ & S_ISVTX == S_ISVTX),
    {
        self.0 & 0o1000 == 0o1000
    }

    pub fn from_u16(value: u16) -> (r: Self)
        ensures
            r@ == value,
    {
        Mode(value)
    }

    pub fn as_u16(&self) -> (r: u16)
        ensures
            r == self@,
    {
        self.0
    }
}

impl From<u16> for Mode {
    fn from(value: u16) -> (r: Self) {
        Mode(value)
    }
}

impl vstd::std_specs::convert::FromSpecImpl<u16> for Mode {
    open spec fn obeys_from_spec() -> bool {
        true
    }

    closed spec fn from_spec(value: u16) -> Self {
        Mode(value)
    }
}

} // verus!
