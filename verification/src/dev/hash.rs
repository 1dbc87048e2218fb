//! Hashing of device numbers. A device number gives a hasher the 64-bit form
//! of its pair, so device numbers that are equal hash alike, whatever their
//! encodings.
use super::{Dev, Dev32, Dev64, DevSplit};
use core::hash::{Hash, Hasher};
use vstd::prelude::*;

verus! {

/// Calls `core::hash::Hasher::write_u64`, which feeds the hasher one 64-bit
/// number. Nothing is claimed of the hasher afterwards.
#[verifier::external_body]
fn write_u64<H: Hasher>(state: &mut H, key: u64) {
    state.write_u64(key)
}

impl Hash for Dev32 {
    fn hash<H: Hasher>(&self, state: &mut H) {
        write_u64(state, self.as_u64())
    }
}

impl Hash for DevSplit {
    fn hash<H: Hasher>(&self, state: &mut H) {
        write_u64(state, self.as_u64())
    }
}

impl Hash for Dev64 {
    fn hash<H: Hasher>(&self, state: &mut H) {
        write_u64(state, self.as_u64())
    }
}

impl Hash for Dev {
    fn hash<H: Hasher>(&self, state: &mut H) {
        write_u64(state, self.as_u64())
    }
}

} // verus!
