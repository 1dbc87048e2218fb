//! Device numbers.
//!
//! A device number is a pair of major and minor number. It travels in three
//! encodings: packed into 32 bits, as the two numbers themselves, or packed
//! into 64 bits. Whatever the encoding, a device number is its pair: equality,
//! order and the 64-bit form by which it is hashed all go by the pair.
use crate::text::{decimal, push_decimal};
use vstd::prelude::*;
use vstd::string::*;

mod convert;
mod eq;
mod hash;
mod laws;
mod ord;

pub use laws::{
    lemma_encodings_agree, lemma_order_agrees_with_equality, lemma_pair_order_total,
};
pub use ord::pair_order;

verus! {

/// The major number in a 32-bit device number.
pub open spec fn major32(v: u32) -> u32 {
    (v >> 8) & 0xff
}

/// The minor number in a 32-bit device number.
pub open spec fn minor32(v: u32) -> u32 {
    (v >> 19) | (v & 0xff)
}

/// The 64-bit device number of a pair.
pub open spec fn pack64(major: u32, minor: u32) -> u64 {
    (((minor as u64) & 0xfffff000) << 32) | (((minor as u64) & 0x00000fff) << 8) | (((major as u64)
        & 0xffffff00) << 12) | ((major as u64) & 0xff)
}

/// The major number in a 64-bit device number.
pub open spec fn major64(v: u64) -> u32 {
    (((v >> 12) & 0xffffff00) | (v & 0xff)) as u32
}

/// The minor number in a 64-bit device number.
pub open spec fn minor64(v: u64) -> u32 {
    (((v >> 32) & 0xfffff000) | ((v >> 8) & 0xfff)) as u32
}

/// What a device number prints as behind the name of its type.
pub open spec fn debug_pair(name: Seq<char>, pair: (u32, u32)) -> Seq<char> {
    name + seq!['('] + decimal(pair.0 as nat) + seq![':'] + decimal(pair.1 as nat) + seq![')']
}

/// Device number packed into 32 bits.
#[derive(Copy, Clone, Debug)]
pub struct Dev32(u32);

/// Device number held as major and minor number.
#[derive(Copy, Clone, Debug)]
pub struct DevSplit(u32, u32);

/// Device number packed into 64 bits.
#[derive(Copy, Clone, Debug)]
pub struct Dev64(u64);

/// Device number in any of its encodings.
#[derive(Copy, Clone, Debug)]
pub enum Dev {
    B32(Dev32),
    Split(DevSplit),
    B64(Dev64),
}

fn push_debug_pair(out: &mut String, name: &str, major: u32, minor: u32)
    ensures
        final(out)@ == old(out)@ + debug_pair(name@, (major, minor)),
{
    proof {
        reveal_strlit("(");
        reveal_strlit(":");
        reveal_strlit(")");
    }
    out.append(name);
    out.append("(");
    push_decimal(out, major as u64);
    out.append(":");
    push_decimal(out, minor as u64);
    out.append(")");
    assert(final(out)@ =~= old(out)@ + debug_pair(name@, (major, minor)));
}

impl Dev32 {
    /// The 32 bits as they are.
    pub closed spec fn bits(self) -> u32 {
        self.0
    }

    /// Major and minor number.
    pub open spec fn pair(self) -> (u32, u32) {
        (major32(self.bits()), minor32(self.bits()))
    }

    pub fn new(value: u32) -> (r: Self)
        ensures
            r.bits() == value,
    {
        Dev32(value)
    }

    pub fn major(&self) -> (r: u32)
        ensures
            r == self.pair().0,
    {
        (self.0 >> 8) & 0xff
    }

    pub fn minor(&self) -> (r: u32)
        ensures
            r == self.pair().1,
    {
        (self.0 >> 19) | (self.0 & 0xff)
    }

    pub fn as_u32(&self) -> (r: u32)
        ensures
            r == self.bits(),
    {
        self.0
    }

    /// The 64-bit device number of the same pair.
    pub fn as_u64(&self) -> (r: u64)
        ensures
            r == pack64(self.pair().0, self.pair().1),
    {
        DevSplit::new(self.major(), self.minor()).as_u64()
    }

    pub fn to_debug_string(&self) -> (r: String)
        ensures
            r@ == debug_pair("Dev32"@, self.pair()),
    {
        let mut out = String::new();
        push_debug_pair(&mut out, "Dev32", self.major(), self.minor());
        assert(out@ =~= debug_pair("Dev32"@, self.pair()));
        out
    }
}

impl DevSplit {
    /// Major and minor number.
    pub closed spec fn pair(self) -> (u32, u32) {
        (self.0, self.1)
    }

    pub fn new(major: u32, minor: u32) -> (r: Self)
        ensures
            r.pair() == (major, minor),
    {
        DevSplit(major, minor)
    }

    pub fn major(&self) -> (r: u32)
        ensures
            r == self.pair().0,
    {
        self.0
    }

    pub fn minor(&self) -> (r: u32)
        ensures
            r == self.pair().1,
    {
        self.1
    }

    /// The 64-bit device number of the pair.
    pub fn as_u64(&self) -> (r: u64)
        ensures
            r == pack64(self.pair().0, self.pair().1),
    {
        (((self.1 as u64) & 0xfffff000) << 32) | (((self.1 as u64) & 0x00000fff) << 8) | (((
        self.0 as u64) & 0xffffff00) << 12) | ((self.0 as u64) & 0xff)
    }

    pub fn to_debug_string(&self) -> (r: String)
        ensures
            r@ == debug_pair("DevSplit"@, self.pair()),
    {
        let mut out = String::new();
        push_debug_pair(&mut out, "DevSplit", self.major(), self.minor());
        assert(out@ =~= debug_pair("DevSplit"@, self.pair()));
        out
    }
}

impl Dev64 {
    /// The 64 bits as they are.
    pub closed spec fn bits(self) -> u64 {
        self.0
    }

    /// Major and minor number.
    pub open spec fn pair(self) -> (u32, u32) {
        (major64(self.bits()), minor64(self.bits()))
    }

    pub fn new(value: u64) -> (r: Self)
        ensures
            r.bits() == value,
    {
        Dev64(value)
    }

    pub fn major(&self) -> (r: u32)
        ensures
            r == self.pair().0,
    {
        let v = self.0;
        assert(((v >> 12) & 0xffffff00) | (v & 0xff) <= 0xffff_ffff) by (bit_vector);
        (((v >> 12) & 0xffffff00) | (v & 0xff)) as u32
    }

    pub fn minor(&self) -> (r: u32)
        ensures
            r == self.pair().1,
    {
        let v = self.0;
        assert(((v >> 32) & 0xfffff000) | ((v >> 8) & 0xfff) <= 0xffff_ffff) by (bit_vector);
        (((v >> 32) & 0xfffff000) | ((v >> 8) & 0xfff)) as u32
    }

    pub fn as_u64(&self) -> (r: u64)
        ensures
            r == self.bits(),
            r == pack64(self.pair().0, self.pair().1),
    {
        proof {
            lemma_pack_unpack(self.0);
        }
        self.0
    }

    pub fn to_debug_string(&self) -> (r: String)
        ensures
            r@ == debug_pair("Dev64"@, self.pair()),
    {
        let mut out = String::new();
        push_debug_pair(&mut out, "Dev64", self.major(), self.minor());
        assert(out@ =~= debug_pair("Dev64"@, self.pair()));
        out
    }
}

impl Dev {
    /// Major and minor number, whatever the encoding.
    pub open spec fn pair(self) -> (u32, u32) {
        match self {
            Dev::B32(d) => d.pair(),
            Dev::Split(d) => d.pair(),
            Dev::B64(d) => d.pair(),
        }
    }

    pub fn major(&self) -> (r: u32)
        ensures
            r == self.pair().0,
    {
        match self {
            Dev::B32(d) => d.major(),
            Dev::Split(d) => d.major(),
            Dev::B64(d) => d.major(),
        }
    }

    pub fn minor(&self) -> (r: u32)
        ensures
            r == self.pair().1,
    {
        match self {
            Dev::B32(d) => d.minor(),
            Dev::Split(d) => d.minor(),
            Dev::B64(d) => d.minor(),
        }
    }

    /// The 64-bit device number of the pair.
    pub fn as_u64(&self) -> (r: u64)
        ensures
            r == pack64(self.pair().0, self.pair().1),
    {
        match self {
            Dev::B32(d) => d.as_u64(),
            Dev::Split(d) => d.as_u64(),
            Dev::B64(d) => d.as_u64(),
        }
    }

    pub fn from_u32(value: u32) -> (r: Self)
        ensures
            r matches Dev::B32(d) && d.bits() == value,
            r.pair() == (major32(value), minor32(value)),
    {
        Dev::B32(Dev32::new(value))
    }

    pub fn from_u64(value: u64) -> (r: Self)
        ensures
            r matches Dev::B64(d) && d.bits() == value,
            r.pair() == (major64(value), minor64(value)),
    {
        Dev::B64(Dev64::new(value))
    }

    pub fn from_split(major: u32, minor: u32) -> (r: Self)
        ensures
            r is Split,
            r.pair() == (major, minor),
    {
        Dev::Split(DevSplit::new(major, minor))
    }

    pub fn to_debug_string(&self) -> (r: String)
        ensures
            r@ == debug_pair("Dev"@, self.pair()),
    {
        let mut out = String::new();
        push_debug_pair(&mut out, "Dev", self.major(), self.minor());
        assert(out@ =~= debug_pair("Dev"@, self.pair()));
        out
    }
}

/// Packing a pair into 64 bits loses nothing: unpacking gives the pair back.
pub proof fn lemma_unpack_pack(major: u32, minor: u32)
    ensures
        major64(pack64(major, minor)) == major,
        minor64(pack64(major, minor)) == minor,
{
    let ma = major as u64;
    let mi = minor as u64;
    let v = pack64(major, minor);
    assert(v == ((mi & 0xfffff000) << 32) | ((mi & 0x00000fff) << 8) | ((ma & 0xffffff00) << 12)
        | (ma & 0xff));
    assert(((v >> 12) & 0xffffff00) | (v & 0xff) == ma) by (bit_vector)
        requires
            v == ((mi & 0xfffff000) << 32) | ((mi & 0x00000fff) << 8) | ((ma & 0xffffff00) << 12)
                | (ma & 0xff),
            ma <= 0xffff_ffff,
            mi <= 0xffff_ffff,
    ;
    assert(((v >> 32) & 0xfffff000) | ((v >> 8) & 0xfff) == mi) by (bit_vector)
        requires
            v == ((mi & 0xfffff000) << 32) | ((mi & 0x00000fff) << 8) | ((ma & 0xffffff00) << 12)
                | (ma & 0xff),
            ma <= 0xffff_ffff,
            mi <= 0xffff_ffff,
    ;
}

/// Every 64-bit device number is the packing of its own pair.
pub proof fn lemma_pack_unpack(v: u64)
    ensures
        pack64(major64(v), minor64(v)) == v,
{
    let ma = ((v >> 12) & 0xffffff00) | (v & 0xff);
    let mi = ((v >> 32) & 0xfffff000) | ((v >> 8) & 0xfff);
    assert(ma <= 0xffff_ffff && mi <= 0xffff_ffff && ((mi & 0xfffff000) << 32) | ((mi
        & 0x00000fff) << 8) | ((ma & 0xffffff00) << 12) | (ma & 0xff) == v) by (bit_vector)
        requires
            ma == ((v >> 12) & 0xffffff00) | (v & 0xff),
            mi == ((v >> 32) & 0xfffff000) | ((v >> 8) & 0xfff),
    ;
    assert(major64(v) as u64 == ma);
    assert(minor64(v) as u64 == mi);
}

/// The 64-bit form tells device numbers apart exactly as their pairs do: two
/// pairs have the same 64-bit form only if they are the same pair.
pub proof fn lemma_pack_injective(a: (u32, u32), b: (u32, u32))
    ensures
        pack64(a.0, a.1) == pack64(b.0, b.1) <==> a == b,
{
    lemma_unpack_pack(a.0, a.1);
    lemma_unpack_pack(b.0, b.1);
}

/// A 32-bit device number keeps its pair when it is widened to 64 bits.
pub proof fn lemma_widen32(v: u32)
    ensures
        major64(pack64(major32(v), minor32(v))) == major32(v),
        minor64(pack64(major32(v), minor32(v))) == minor32(v),
        major32(v) <= 0xff,
        minor32(v) <= 0x1fff,
{
    lemma_unpack_pack(major32(v), minor32(v));
    assert((v >> 8) & 0xff <= 0xff) by (bit_vector);
    assert((v >> 19) | (v & 0xff) <= 0x1fff) by (bit_vector);
}

} // verus!
