//! Equality of device numbers: two device numbers are equal where their pairs
//! of major and minor number are, whatever the encodings. A bare `u32` or `u64`
//! stands for the device number packed into it, a bare pair for itself.
use super::{major32, major64, minor32, minor64, Dev, Dev32, Dev64, DevSplit};
use vstd::prelude::*;
use vstd::std_specs::cmp::PartialEqSpecImpl;

verus! {

impl PartialEq for Dev32 {
    fn eq(&self, other: &Self) -> (r: bool) {
        self.major() == other.major() && self.minor() == other.minor()
    }

    fn ne(&self, other: &Self) -> (r: bool) {
        self.major() != other.major() || self.minor() != other.minor()
    }
}

impl PartialEqSpecImpl for Dev32 {
    open spec fn obeys_eq_spec() -> bool {
        true
    }

    open spec fn eq_spec(&self, other: &Self) -> bool {
        self.pair() == other.pair()
    }
}

impl PartialEq<DevSplit> for Dev32 {
    fn eq(&self, other: &DevSplit) -> (r: bool) {
        self.major() == other.major() && self.minor() == other.minor()
    }

    fn ne(&self, other: &DevSplit) -> (r: bool) {
        self.major() != other.major() || self.minor() != other.minor()
    }
}

impl PartialEqSpecImpl<DevSplit> for Dev32 {
    open spec fn obeys_eq_spec() -> bool {
        true
    }

    open spec fn eq_spec(&self, other: &DevSplit) -> bool {
        self.pair() == other.pair()
    }
}

impl PartialEq<Dev64> for Dev32 {
    fn eq(&self, other: &Dev64) -> (r: bool) {
        self.major() == other.major() && self.minor() == other.minor()
    }

    fn ne(&self, other: &Dev64) -> (r: bool) {
        self.major() != other.major() || self.minor() != other.minor()
    }
}

impl PartialEqSpecImpl<Dev64> for Dev32 {
    open spec fn obeys_eq_spec() -> bool {
        true
    }

    open spec fn eq_spec(&self, other: &Dev64) -> bool {
        self.pair() == other.pair()
    }
}

impl PartialEq<Dev> for Dev32 {
    fn eq(&self, other: &Dev) -> (r: bool) {
        self.major() == other.major() && self.minor() == other.minor()
    }

    fn ne(&self, other: &Dev) -> (r: bool) {
        self.major() != other.major() || self.minor() != other.minor()
    }
}

impl PartialEqSpecImpl<Dev> for Dev32 {
    open spec fn obeys_eq_spec() -> bool {
        true
    }

    open spec fn eq_spec(&self, other: &Dev) -> bool {
        self.pair() == other.pair()
    }
}

impl PartialEq<u32> for Dev32 {
    fn eq(&self, other: &u32) -> (r: bool) {
        self.major() == Dev32::new(*other).major() && self.minor() == Dev32::new(*other).minor()
    }

    fn ne(&self, other: &u32) -> (r: bool) {
        self.major() != Dev32::new(*other).major() || self.minor() != Dev32::new(*other).minor()
    }
}

impl PartialEqSpecImpl<u32> for Dev32 {
    open spec fn obeys_eq_spec() -> bool {
        true
    }

    open spec fn eq_spec(&self, other: &u32) -> bool {
        self.pair() == (major32(*other), minor32(*other))
    }
}

impl PartialEq<(u32, u32)> for Dev32 {
    fn eq(&self, other: &(u32, u32)) -> (r: bool) {
        self.major() == other.0 && self.minor() == other.1
    }

    fn ne(&self, other: &(u32, u32)) -> (r: bool) {
        self.major() != other.0 || self.minor() != other.1
    }
}

impl PartialEqSpecImpl<(u32, u32)> for Dev32 {
    open spec fn obeys_eq_spec() -> bool {
        true
    }

    open spec fn eq_spec(&self, other: &(u32, u32)) -> bool {
        self.pair() == *other
    }
}

impl PartialEq<u64> for Dev32 {
    fn eq(&self, other: &u64) -> (r: bool) {
        self.major() == Dev64::new(*other).major() && self.minor() == Dev64::new(*other).minor()
    }

    fn ne(&self, other: &u64) -> (r: bool) {
        self.major() != Dev64::new(*other).major() || self.minor() != Dev64::new(*other).minor()
    }
}

impl PartialEqSpecImpl<u64> for Dev32 {
    open spec fn obeys_eq_spec() -> bool {
        true
    }

    open spec fn eq_spec(&self, other: &u64) -> bool {
        self.pair() == (major64(*other), minor64(*other))
    }
}

impl Eq for Dev32 {

}

impl PartialEq<Dev32> for DevSplit {
    fn eq(&self, other: &Dev32) -> (r: bool) {
        self.major() == other.major() && self.minor() == other.minor()
    }

    fn ne(&self, other: &Dev32) -> (r: bool) {
        self.major() != other.major() || self.minor() != other.minor()
    }
}

impl PartialEqSpecImpl<Dev32> for DevSplit {
    open spec fn obeys_eq_spec() -> bool {
        true
    }

    open spec fn eq_spec(&self, other: &Dev32) -> bool {
        self.pair() == other.pair()
    }
}

impl PartialEq for DevSplit {
    fn eq(&self, other: &Self) -> (r: bool) {
        self.major() == other.major() && self.minor() == other.minor()
    }

    fn ne(&self, other: &Self) -> (r: bool) {
        self.major() != other.major() || self.minor() != other.minor()
    }
}

impl PartialEqSpecImpl for DevSplit {
    open spec fn obeys_eq_spec() -> bool {
        true
    }

    open spec fn eq_spec(&self, other: &Self) -> bool {
        self.pair() == other.pair()
    }
}

impl PartialEq<Dev64> for DevSplit {
    fn eq(&self, other: &Dev64) -> (r: bool) {
        self.major() == other.major() && self.minor() == other.minor()
    }

    fn ne(&self, other: &Dev64) -> (r: bool) {
        self.major() != other.major() || self.minor() != other.minor()
    }
}

impl PartialEqSpecImpl<Dev64> for DevSplit {
    open spec fn obeys_eq_spec() -> bool {
        true
    }

    open spec fn eq_spec(&self, other: &Dev64) -> bool {
        self.pair() == other.pair()
    }
}

impl PartialEq<Dev> for DevSplit {
    fn eq(&self, other: &Dev) -> (r: bool) {
        self.major() == other.major() && self.minor() == other.minor()
    }

    fn ne(&self, other: &Dev) -> (r: bool) {
        self.major() != other.major() || self.minor() != other.minor()
    }
}

impl PartialEqSpecImpl<Dev> for DevSplit {
    open spec fn obeys_eq_spec() -> bool {
        true
    }

    open spec fn eq_spec(&self, other: &Dev) -> bool {
        self.pair() == other.pair()
    }
}

impl PartialEq<u32> for DevSplit {
    fn eq(&self, other: &u32) -> (r: bool) {
        self.major() == Dev32::new(*other).major() && self.minor() == Dev32::new(*other).minor()
    }

    fn ne(&self, other: &u32) -> (r: bool) {
        self.major() != Dev32::new(*other).major() || self.minor() != Dev32::new(*other).minor()
    }
}

impl PartialEqSpecImpl<u32> for DevSplit {
    open spec fn obeys_eq_spec() -> bool {
        true
    }

    open spec fn eq_spec(&self, other: &u32) -> bool {
        self.pair() == (major32(*other), minor32(*other))
    }
}

impl PartialEq<(u32, u32)> for DevSplit {
    fn eq(&self, other: &(u32, u32)) -> (r: bool) {
        self.major() == other.0 && self.minor() == other.1
    }

    fn ne(&self, other: &(u32, u32)) -> (r: bool) {
        self.major() != other.0 || self.minor() != other.1
    }
}

impl PartialEqSpecImpl<(u32, u32)> for DevSplit {
    open spec fn obeys_eq_spec() -> bool {
        true
    }

    open spec fn eq_spec(&self, other: &(u32, u32)) -> bool {
        self.pair() == *other
    }
}

impl PartialEq<u64> for DevSplit {
    fn eq(&self, other: &u64) -> (r: bool) {
        self.major() == Dev64::new(*other).major() && self.minor() == Dev64::new(*other).minor()
    }

    fn ne(&self, other: &u64) -> (r: bool) {
        self.major() != Dev64::new(*other).major() || self.minor() != Dev64::new(*other).minor()
    }
}

impl PartialEqSpecImpl<u64> for DevSplit {
    open spec fn obeys_eq_spec() -> bool {
        true
    }

    open spec fn eq_spec(&self, other: &u64) -> bool {
        self.pair() == (major64(*other), minor64(*other))
    }
}

impl Eq for DevSplit {

}

impl PartialEq<Dev32> for Dev64 {
    fn eq(&self, other: &Dev32) -> (r: bool) {
        self.major() == other.major() && self.minor() == other.minor()
    }

    fn ne(&self, other: &Dev32) -> (r: bool) {
        self.major() != other.major() || self.minor() != other.minor()
    }
}

impl PartialEqSpecImpl<Dev32> for Dev64 {
    open spec fn obeys_eq_spec() -> bool {
        true
    }

    open spec fn eq_spec(&self, other: &Dev32) -> bool {
        self.pair() == other.pair()
    }
}

impl PartialEq<DevSplit> for Dev64 {
    fn eq(&self, other: &DevSplit) -> (r: bool) {
        self.major() == other.major() && self.minor() == other.minor()
    }

    fn ne(&self, other: &DevSplit) -> (r: bool) {
        self.major() != other.major() || self.minor() != other.minor()
    }
}

impl PartialEqSpecImpl<DevSplit> for Dev64 {
    open spec fn obeys_eq_spec() -> bool {
        true
    }

    open spec fn eq_spec(&self, other: &DevSplit) -> bool {
        self.pair() == other.pair()
    }
}

impl PartialEq for Dev64 {
    fn eq(&self, other: &Self) -> (r: bool) {
        self.major() == other.major() && self.minor() == other.minor()
    }

    fn ne(&self, other: &Self) -> (r: bool) {
        self.major() != other.major() || self.minor() != other.minor()
    }
}

impl PartialEqSpecImpl for Dev64 {
    open spec fn obeys_eq_spec() -> bool {
        true
    }

    open spec fn eq_spec(&self, other: &Self) -> bool {
        self.pair() == other.pair()
    }
}

impl PartialEq<Dev> for Dev64 {
    fn eq(&self, other: &Dev) -> (r: bool) {
        self.major() == other.major() && self.minor() == other.minor()
    }

    fn ne(&self, other: &Dev) -> (r: bool) {
        self.major() != other.major() || self.minor() != other.minor()
    }
}

impl PartialEqSpecImpl<Dev> for Dev64 {
    open spec fn obeys_eq_spec() -> bool {
        true
    }

    open spec fn eq_spec(&self, other: &Dev) -> bool {
        self.pair() == other.pair()
    }
}

impl PartialEq<u32> for Dev64 {
    fn eq(&self, other: &u32) -> (r: bool) {
        self.major() == Dev32::new(*other).major() && self.minor() == Dev32::new(*other).minor()
    }

    fn ne(&self, other: &u32) -> (r: bool) {
        self.major() != Dev32::new(*other).major() || self.minor() != Dev32::new(*other).minor()
    }
}

impl PartialEqSpecImpl<u32> for Dev64 {
    open spec fn obeys_eq_spec() -> bool {
        true
    }

    open spec fn eq_spec(&self, other: &u32) -> bool {
        self.pair() == (major32(*other), minor32(*other))
    }
}

impl PartialEq<(u32, u32)> for Dev64 {
    fn eq(&self, other: &(u32, u32)) -> (r: bool) {
        self.major() == other.0 && self.minor() == other.1
    }

    fn ne(&self, other: &(u32, u32)) -> (r: bool) {
        self.major() != other.0 || self.minor() != other.1
    }
}

impl PartialEqSpecImpl<(u32, u32)> for Dev64 {
    open spec fn obeys_eq_spec() -> bool {
        true
    }

    open spec fn eq_spec(&self, other: &(u32, u32)) -> bool {
        self.pair() == *other
    }
}

impl PartialEq<u64> for Dev64 {
    fn eq(&self, other: &u64) -> (r: bool) {
        self.major() == Dev64::new(*other).major() && self.minor() == Dev64::new(*other).minor()
    }

    fn ne(&self, other: &u64) -> (r: bool) {
        self.major() != Dev64::new(*other).major() || self.minor() != Dev64::new(*other).minor()
    }
}

impl PartialEqSpecImpl<u64> for Dev64 {
    open spec fn obeys_eq_spec() -> bool {
        true
    }

    open spec fn eq_spec(&self, other: &u64) -> bool {
        self.pair() == (major64(*other), minor64(*other))
    }
}

impl Eq for Dev64 {

}

impl PartialEq<Dev32> for Dev {
    fn eq(&self, other: &Dev32) -> (r: bool) {
        self.major() == other.major() && self.minor() == other.minor()
    }

    fn ne(&self, other: &Dev32) -> (r: bool) {
        self.major() != other.major() || self.minor() != other.minor()
    }
}

impl PartialEqSpecImpl<Dev32> for Dev {
    open spec fn obeys_eq_spec() -> bool {
        true
    }

    open spec fn eq_spec(&self, other: &Dev32) -> bool {
        self.pair() == other.pair()
    }
}

impl PartialEq<DevSplit> for Dev {
    fn eq(&self, other: &DevSplit) -> (r: bool) {
        self.major() == other.major() && self.minor() == other.minor()
    }

    fn ne(&self, other: &DevSplit) -> (r: bool) {
        self.major() != other.major() || self.minor() != other.minor()
    }
}

impl PartialEqSpecImpl<DevSplit> for Dev {
    open spec fn obeys_eq_spec() -> bool {
        true
    }

    open spec fn eq_spec(&self, other: &DevSplit) -> bool {
        self.pair() == other.pair()
    }
}

impl PartialEq<Dev64> for Dev {
    fn eq(&self, other: &Dev64) -> (r: bool) {
        self.major() == other.major() && self.minor() == other.minor()
    }

    fn ne(&self, other: &Dev64) -> (r: bool) {
        self.major() != other.major() || self.minor() != other.minor()
    }
}

impl PartialEqSpecImpl<Dev64> for Dev {
    open spec fn obeys_eq_spec() -> bool {
        true
    }

    open spec fn eq_spec(&self, other: &Dev64) -> bool {
        self.pair() == other.pair()
    }
}

impl PartialEq for Dev {
    fn eq(&self, other: &Self) -> (r: bool) {
        self.major() == other.major() && self.minor() == other.minor()
    }

    fn ne(&self, other: &Self) -> (r: bool) {
        self.major() != other.major() || self.minor() != other.minor()
    }
}

impl PartialEqSpecImpl for Dev {
    open spec fn obeys_eq_spec() -> bool {
        true
    }

    open spec fn eq_spec(&self, other: &Self) -> bool {
        self.pair() == other.pair()
    }
}

impl PartialEq<u32> for Dev {
    fn eq(&self, other: &u32) -> (r: bool) {
        self.major() == Dev32::new(*other).major() && self.minor() == Dev32::new(*other).minor()
    }

    fn ne(&self, other: &u32) -> (r: bool) {
        self.major() != Dev32::new(*other).major() || self.minor() != Dev32::new(*other).minor()
    }
}

impl PartialEqSpecImpl<u32> for Dev {
    open spec fn obeys_eq_spec() -> bool {
        true
    }

    open spec fn eq_spec(&self, other: &u32) -> bool {
        self.pair() == (major32(*other), minor32(*other))
    }
}

impl PartialEq<(u32, u32)> for Dev {
    fn eq(&self, other: &(u32, u32)) -> (r: bool) {
        self.major() == other.0 && self.minor() == other.1
    }

    fn ne(&self, other: &(u32, u32)) -> (r: bool) {
        self.major() != other.0 || self.minor() != other.1
    }
}

impl PartialEqSpecImpl<(u32, u32)> for Dev {
    open spec fn obeys_eq_spec() -> bool {
        true
    }

    open spec fn eq_spec(&self, other: &(u32, u32)) -> bool {
        self.pair() == *other
    }
}

impl PartialEq<u64> for Dev {
    fn eq(&self, other: &u64) -> (r: bool) {
        self.major() == Dev64::new(*other).major() && self.minor() == Dev64::new(*other).minor()
    }

    fn ne(&self, other: &u64) -> (r: bool) {
        self.major() != Dev64::new(*other).major() || self.minor() != Dev64::new(*other).minor()
    }
}

impl PartialEqSpecImpl<u64> for Dev {
    open spec fn obeys_eq_spec() -> bool {
        true
    }

    open spec fn eq_spec(&self, other: &u64) -> bool {
        self.pair() == (major64(*other), minor64(*other))
    }
}

impl Eq for Dev {

}

} // verus!
