//! Order of device numbers: by the major number, then by the minor number,
//! whatever the encodings. A bare `u32` or `u64` stands for the device number
//! packed into it, a bare pair for itself.
use super::{major32, major64, minor32, minor64, Dev, Dev32, Dev64, DevSplit};
use std::cmp::Ordering;
use vstd::prelude::*;
use vstd::std_specs::cmp::PartialOrdSpecImpl;

verus! {

/// The order of two pairs: by the major number, then by the minor number.
pub open spec fn pair_order(a: (u32, u32), b: (u32, u32)) -> Ordering {
    if a.0 < b.0 {
        Ordering::Less
    } else if a.0 > b.0 {
        Ordering::Greater
    } else if a.1 < b.1 {
        Ordering::Less
    } else if a.1 > b.1 {
        Ordering::Greater
    } else {
        Ordering::Equal
    }
}

fn order(a_major: u32, a_minor: u32, b_major: u32, b_minor: u32) -> (r: Ordering)
    ensures
        r == pair_order((a_major, a_minor), (b_major, b_minor)),
{
    if a_major < b_major {
        Ordering::Less
    } else if a_major > b_major {
        Ordering::Greater
    } else if a_minor < b_minor {
        Ordering::Less
    } else if a_minor > b_minor {
        Ordering::Greater
    } else {
        Ordering::Equal
    }
}

impl Dev32 {
    /// The order of two device numbers.
    pub fn cmp(&self, other: &Self) -> (r: Ordering)
        ensures
            r == pair_order(self.pair(), other.pair()),
    {
        order(self.major(), self.minor(), other.major(), other.minor())
    }
}

impl PartialOrd for Dev32 {
    fn partial_cmp(&self, other: &Self) -> (r: Option<Ordering>) {
        Some(order(self.major(), self.minor(), other.major(), other.minor()))
    }

    fn lt(&self, other: &Self) -> (r: bool) {
        let major = other.major();
        self.major() < major || (self.major() == major && self.minor() < other.minor())
    }

    fn le(&self, other: &Self) -> (r: bool) {
        let major = other.major();
        self.major() < major || (self.major() == major && self.minor() <= other.minor())
    }

    fn gt(&self, other: &Self) -> (r: bool) {
        let major = other.major();
        self.major() > major || (self.major() == major && self.minor() > other.minor())
    }

    fn ge(&self, other: &Self) -> (r: bool) {
        let major = other.major();
        self.major() > major || (self.major() == major && self.minor() >= other.minor())
    }
}

impl PartialOrdSpecImpl for Dev32 {
    open spec fn obeys_partial_cmp_spec() -> bool {
        true
    }

    open spec fn partial_cmp_spec(&self, other: &Self) -> Option<Ordering> {
        Some(pair_order(self.pair(), other.pair()))
    }
}

impl PartialOrd<DevSplit> for Dev32 {
    fn partial_cmp(&self, other: &DevSplit) -> (r: Option<Ordering>) {
        Some(order(self.major(), self.minor(), other.major(), other.minor()))
    }

    fn lt(&self, other: &DevSplit) -> (r: bool) {
        let major = other.major();
        self.major() < major || (self.major() == major && self.minor() < other.minor())
    }

    fn le(&self, other: &DevSplit) -> (r: bool) {
        let major = other.major();
        self.major() < major || (self.major() == major && self.minor() <= other.minor())
    }

    fn gt(&self, other: &DevSplit) -> (r: bool) {
        let major = other.major();
        self.major() > major || (self.major() == major && self.minor() > other.minor())
    }

    fn ge(&self, other: &DevSplit) -> (r: bool) {
        let major = other.major();
        self.major() > major || (self.major() == major && self.minor() >= other.minor())
    }
}

impl PartialOrdSpecImpl<DevSplit> for Dev32 {
    open spec fn obeys_partial_cmp_spec() -> bool {
        true
    }

    open spec fn partial_cmp_spec(&self, other: &DevSplit) -> Option<Ordering> {
        Some(pair_order(self.pair(), other.pair()))
    }
}

impl PartialOrd<Dev64> for Dev32 {
    fn partial_cmp(&self, other: &Dev64) -> (r: Option<Ordering>) {
        Some(order(self.major(), self.minor(), other.major(), other.minor()))
    }

    fn lt(&self, other: &Dev64) -> (r: bool) {
        let major = other.major();
        self.major() < major || (self.major() == major && self.minor() < other.minor())
    }

    fn le(&self, other: &Dev64) -> (r: bool) {
        let major = other.major();
        self.major() < major || (self.major() == major && self.minor() <= other.minor())
    }

    fn gt(&self, other: &Dev64) -> (r: bool) {
        let major = other.major();
        self.major() > major || (self.major() == major && self.minor() > other.minor())
    }

    fn ge(&self, other: &Dev64) -> (r: bool) {
        let major = other.major();
        self.major() > major || (self.major() == major && self.minor() >= other.minor())
    }
}

impl PartialOrdSpecImpl<Dev64> for Dev32 {
    open spec fn obeys_partial_cmp_spec() -> bool {
        true
    }

    open spec fn partial_cmp_spec(&self, other: &Dev64) -> Option<Ordering> {
        Some(pair_order(self.pair(), other.pair()))
    }
}

impl PartialOrd<Dev> for Dev32 {
    fn partial_cmp(&self, other: &Dev) -> (r: Option<Ordering>) {
        Some(order(self.major(), self.minor(), other.major(), other.minor()))
    }

    fn lt(&self, other: &Dev) -> (r: bool) {
        let major = other.major();
        self.major() < major || (self.major() == major && self.minor() < other.minor())
    }

    fn le(&self, other: &Dev) -> (r: bool) {
        let major = other.major();
        self.major() < major || (self.major() == major && self.minor() <= other.minor())
    }

    fn gt(&self, other: &Dev) -> (r: bool) {
        let major = other.major();
        self.major() > major || (self.major() == major && self.minor() > other.minor())
    }

    fn ge(&self, other: &Dev) -> (r: bool) {
        let major = other.major();
        self.major() > major || (self.major() == major && self.minor() >= other.minor())
    }
}

impl PartialOrdSpecImpl<Dev> for Dev32 {
    open spec fn obeys_partial_cmp_spec() -> bool {
        true
    }

    open spec fn partial_cmp_spec(&self, other: &Dev) -> Option<Ordering> {
        Some(pair_order(self.pair(), other.pair()))
    }
}

impl PartialOrd<u32> for Dev32 {
    fn partial_cmp(&self, other: &u32) -> (r: Option<Ordering>) {
        Some(order(self.major(), self.minor(), Dev32::new(*other).major(), Dev32::new(*other).minor()))
    }

    fn lt(&self, other: &u32) -> (r: bool) {
        let major = Dev32::new(*other).major();
        self.major() < major || (self.major() == major && self.minor() < Dev32::new(*other).minor())
    }

    fn le(&self, other: &u32) -> (r: bool) {
        let major = Dev32::new(*other).major();
        self.major() < major || (self.major() == major && self.minor() <= Dev32::new(*other).minor())
    }

    fn gt(&self, other: &u32) -> (r: bool) {
        let major = Dev32::new(*other).major();
        self.major() > major || (self.major() == major && self.minor() > Dev32::new(*other).minor())
    }

    fn ge(&self, other: &u32) -> (r: bool) {
        let major = Dev32::new(*other).major();
        self.major() > major || (self.major() == major && self.minor() >= Dev32::new(*other).minor())
    }
}

impl PartialOrdSpecImpl<u32> for Dev32 {
    open spec fn obeys_partial_cmp_spec() -> bool {
        true
    }

    open spec fn partial_cmp_spec(&self, other: &u32) -> Option<Ordering> {
        Some(pair_order(self.pair(), (major32(*other), minor32(*other))))
    }
}

impl PartialOrd<(u32, u32)> for Dev32 {
    fn partial_cmp(&self, other: &(u32, u32)) -> (r: Option<Ordering>) {
        Some(order(self.major(), self.minor(), other.0, other.1))
    }

    fn lt(&self, other: &(u32, u32)) -> (r: bool) {
        let major = other.0;
        self.major() < major || (self.major() == major && self.minor() < other.1)
    }

    fn le(&self, other: &(u32, u32)) -> (r: bool) {
        let major = other.0;
        self.major() < major || (self.major() == major && self.minor() <= other.1)
    }

    fn gt(&self, other: &(u32, u32)) -> (r: bool) {
        let major = other.0;
        self.major() > major || (self.major() == major && self.minor() > other.1)
    }

    fn ge(&self, other: &(u32, u32)) -> (r: bool) {
        let major = other.0;
        self.major() > major || (self.major() == major && self.minor() >= other.1)
    }
}

impl PartialOrdSpecImpl<(u32, u32)> for Dev32 {
    open spec fn obeys_partial_cmp_spec() -> bool {
        true
    }

    open spec fn partial_cmp_spec(&self, other: &(u32, u32)) -> Option<Ordering> {
        Some(pair_order(self.pair(), *other))
    }
}

impl PartialOrd<u64> for Dev32 {
    fn partial_cmp(&self, other: &u64) -> (r: Option<Ordering>) {
        Some(order(self.major(), self.minor(), Dev64::new(*other).major(), Dev64::new(*other).minor()))
    }

    fn lt(&self, other: &u64) -> (r: bool) {
        let major = Dev64::new(*other).major();
        self.major() < major || (self.major() == major && self.minor() < Dev64::new(*other).minor())
    }

    fn le(&self, other: &u64) -> (r: bool) {
        let major = Dev64::new(*other).major();
        self.major() < major || (self.major() == major && self.minor() <= Dev64::new(*other).minor())
    }

    fn gt(&self, other: &u64) -> (r: bool) {
        let major = Dev64::new(*other).major();
        self.major() > major || (self.major() == major && self.minor() > Dev64::new(*other).minor())
    }

    fn ge(&self, other: &u64) -> (r: bool) {
        let major = Dev64::new(*other).major();
        self.major() > major || (self.major() == major && self.minor() >= Dev64::new(*other).minor())
    }
}

impl PartialOrdSpecImpl<u64> for Dev32 {
    open spec fn obeys_partial_cmp_spec() -> bool {
        true
    }

    open spec fn partial_cmp_spec(&self, other: &u64) -> Option<Ordering> {
        Some(pair_order(self.pair(), (major64(*other), minor64(*other))))
    }
}

impl DevSplit {
    /// The order of two device numbers.
    pub fn cmp(&self, other: &Self) -> (r: Ordering)
        ensures
            r == pair_order(self.pair(), other.pair()),
    {
        order(self.major(), self.minor(), other.major(), other.minor())
    }
}

impl PartialOrd<Dev32> for DevSplit {
    fn partial_cmp(&self, other: &Dev32) -> (r: Option<Ordering>) {
        Some(order(self.major(), self.minor(), other.major(), other.minor()))
    }

    fn lt(&self, other: &Dev32) -> (r: bool) {
        let major = other.major();
        self.major() < major || (self.major() == major && self.minor() < other.minor())
    }

    fn le(&self, other: &Dev32) -> (r: bool) {
        let major = other.major();
        self.major() < major || (self.major() == major && self.minor() <= other.minor())
    }

    fn gt(&self, other: &Dev32) -> (r: bool) {
        let major = other.major();
        self.major() > major || (self.major() == major && self.minor() > other.minor())
    }

    fn ge(&self, other: &Dev32) -> (r: bool) {
        let major = other.major();
        self.major() > major || (self.major() == major && self.minor() >= other.minor())
    }
}

impl PartialOrdSpecImpl<Dev32> for DevSplit {
    open spec fn obeys_partial_cmp_spec() -> bool {
        true
    }

    open spec fn partial_cmp_spec(&self, other: &Dev32) -> Option<Ordering> {
        Some(pair_order(self.pair(), other.pair()))
    }
}

impl PartialOrd for DevSplit {
    fn partial_cmp(&self, other: &Self) -> (r: Option<Ordering>) {
        Some(order(self.major(), self.minor(), other.major(), other.minor()))
    }

    fn lt(&self, other: &Self) -> (r: bool) {
        let major = other.major();
        self.major() < major || (self.major() == major && self.minor() < other.minor())
    }

    fn le(&self, other: &Self) -> (r: bool) {
        let major = other.major();
        self.major() < major || (self.major() == major && self.minor() <= other.minor())
    }

    fn gt(&self, other: &Self) -> (r: bool) {
        let major = other.major();
        self.major() > major || (self.major() == major && self.minor() > other.minor())
    }

    fn ge(&self, other: &Self) -> (r: bool) {
        let major = other.major();
        self.major() > major || (self.major() == major && self.minor() >= other.minor())
    }
}

impl PartialOrdSpecImpl for DevSplit {
    open spec fn obeys_partial_cmp_spec() -> bool {
        true
    }

    open spec fn partial_cmp_spec(&self, other: &Self) -> Option<Ordering> {
        Some(pair_order(self.pair(), other.pair()))
    }
}

impl PartialOrd<Dev64> for DevSplit {
    fn partial_cmp(&self, other: &Dev64) -> (r: Option<Ordering>) {
        Some(order(self.major(), self.minor(), other.major(), other.minor()))
    }

    fn lt(&self, other: &Dev64) -> (r: bool) {
        let major = other.major();
        self.major() < major || (self.major() == major && self.minor() < other.minor())
    }

    fn le(&self, other: &Dev64) -> (r: bool) {
        let major = other.major();
        self.major() < major || (self.major() == major && self.minor() <= other.minor())
    }

    fn gt(&self, other: &Dev64) -> (r: bool) {
        let major = other.major();
        self.major() > major || (self.major() == major && self.minor() > other.minor())
    }

    fn ge(&self, other: &Dev64) -> (r: bool) {
        let major = other.major();
        self.major() > major || (self.major() == major && self.minor() >= other.minor())
    }
}

impl PartialOrdSpecImpl<Dev64> for DevSplit {
    open spec fn obeys_partial_cmp_spec() -> bool {
        true
    }

    open spec fn partial_cmp_spec(&self, other: &Dev64) -> Option<Ordering> {
        Some(pair_order(self.pair(), other.pair()))
    }
}

impl PartialOrd<Dev> for DevSplit {
    fn partial_cmp(&self, other: &Dev) -> (r: Option<Ordering>) {
        Some(order(self.major(), self.minor(), other.major(), other.minor()))
    }

    fn lt(&self, other: &Dev) -> (r: bool) {
        let major = other.major();
        self.major() < major || (self.major() == major && self.minor() < other.minor())
    }

    fn le(&self, other: &Dev) -> (r: bool) {
        let major = other.major();
        self.major() < major || (self.major() == major && self.minor() <= other.minor())
    }

    fn gt(&self, other: &Dev) -> (r: bool) {
        let major = other.major();
        self.major() > major || (self.major() == major && self.minor() > other.minor())
    }

    fn ge(&self, other: &Dev) -> (r: bool) {
        let major = other.major();
        self.major() > major || (self.major() == major && self.minor() >= other.minor())
    }
}

impl PartialOrdSpecImpl<Dev> for DevSplit {
    open spec fn obeys_partial_cmp_spec() -> bool {
        true
    }

    open spec fn partial_cmp_spec(&self, other: &Dev) -> Option<Ordering> {
        Some(pair_order(self.pair(), other.pair()))
    }
}

impl PartialOrd<u32> for DevSplit {
    fn partial_cmp(&self, other: &u32) -> (r: Option<Ordering>) {
        Some(order(self.major(), self.minor(), Dev32::new(*other).major(), Dev32::new(*other).minor()))
    }

    fn lt(&self, other: &u32) -> (r: bool) {
        let major = Dev32::new(*other).major();
        self.major() < major || (self.major() == major && self.minor() < Dev32::new(*other).minor())
    }

    fn le(&self, other: &u32) -> (r: bool) {
        let major = Dev32::new(*other).major();
        self.major() < major || (self.major() == major && self.minor() <= Dev32::new(*other).minor())
    }

    fn gt(&self, other: &u32) -> (r: bool) {
        let major = Dev32::new(*other).major();
        self.major() > major || (self.major() == major && self.minor() > Dev32::new(*other).minor())
    }

    fn ge(&self, other: &u32) -> (r: bool) {
        let major = Dev32::new(*other).major();
        self.major() > major || (self.major() == major && self.minor() >= Dev32::new(*other).minor())
    }
}

impl PartialOrdSpecImpl<u32> for DevSplit {
    open spec fn obeys_partial_cmp_spec() -> bool {
        true
    }

    open spec fn partial_cmp_spec(&self, other: &u32) -> Option<Ordering> {
        Some(pair_order(self.pair(), (major32(*other), minor32(*other))))
    }
}

impl PartialOrd<(u32, u32)> for DevSplit {
    fn partial_cmp(&self, other: &(u32, u32)) -> (r: Option<Ordering>) {
        Some(order(self.major(), self.minor(), other.0, other.1))
    }

    fn lt(&self, other: &(u32, u32)) -> (r: bool) {
        let major = other.0;
        self.major() < major || (self.major() == major && self.minor() < other.1)
    }

    fn le(&self, other: &(u32, u32)) -> (r: bool) {
        let major = other.0;
        self.major() < major || (self.major() == major && self.minor() <= other.1)
    }

    fn gt(&self, other: &(u32, u32)) -> (r: bool) {
        let major = other.0;
        self.major() > major || (self.major() == major && self.minor() > other.1)
    }

    fn ge(&self, other: &(u32, u32)) -> (r: bool) {
        let major = other.0;
        self.major() > major || (self.major() == major && self.minor() >= other.1)
    }
}

impl PartialOrdSpecImpl<(u32, u32)> for DevSplit {
    open spec fn obeys_partial_cmp_spec() -> bool {
        true
    }

    open spec fn partial_cmp_spec(&self, other: &(u32, u32)) -> Option<Ordering> {
        Some(pair_order(self.pair(), *other))
    }
}

impl PartialOrd<u64> for DevSplit {
    fn partial_cmp(&self, other: &u64) -> (r: Option<Ordering>) {
        Some(order(self.major(), self.minor(), Dev64::new(*other).major(), Dev64::new(*other).minor()))
    }

    fn lt(&self, other: &u64) -> (r: bool) {
        let major = Dev64::new(*other).major();
        self.major() < major || (self.major() == major && self.minor() < Dev64::new(*other).minor())
    }

    fn le(&self, other: &u64) -> (r: bool) {
        let major = Dev64::new(*other).major();
        self.major() < major || (self.major() == major && self.minor() <= Dev64::new(*other).minor())
    }

    fn gt(&self, other: &u64) -> (r: bool) {
        let major = Dev64::new(*other).major();
        self.major() > major || (self.major() == major && self.minor() > Dev64::new(*other).minor())
    }

    fn ge(&self, other: &u64) -> (r: bool) {
        let major = Dev64::new(*other).major();
        self.major() > major || (self.major() == major && self.minor() >= Dev64::new(*other).minor())
    }
}

impl PartialOrdSpecImpl<u64> for DevSplit {
    open spec fn obeys_partial_cmp_spec() -> bool {
        true
    }

    open spec fn partial_cmp_spec(&self, other: &u64) -> Option<Ordering> {
        Some(pair_order(self.pair(), (major64(*other), minor64(*other))))
    }
}

impl Dev64 {
    /// The order of two device numbers.
    pub fn cmp(&self, other: &Self) -> (r: Ordering)
        ensures
            r == pair_order(self.pair(), other.pair()),
    {
        order(self.major(), self.minor(), other.major(), other.minor())
    }
}

impl PartialOrd<Dev32> for Dev64 {
    fn partial_cmp(&self, other: &Dev32) -> (r: Option<Ordering>) {
        Some(order(self.major(), self.minor(), other.major(), other.minor()))
    }

    fn lt(&self, other: &Dev32) -> (r: bool) {
        let major = other.major();
        self.major() < major || (self.major() == major && self.minor() < other.minor())
    }

    fn le(&self, other: &Dev32) -> (r: bool) {
        let major = other.major();
        self.major() < major || (self.major() == major && self.minor() <= other.minor())
    }

    fn gt(&self, other: &Dev32) -> (r: bool) {
        let major = other.major();
        self.major() > major || (self.major() == major && self.minor() > other.minor())
    }

    fn ge(&self, other: &Dev32) -> (r: bool) {
        let major = other.major();
        self.major() > major || (self.major() == major && self.minor() >= other.minor())
    }
}

impl PartialOrdSpecImpl<Dev32> for Dev64 {
    open spec fn obeys_partial_cmp_spec() -> bool {
        true
    }

    open spec fn partial_cmp_spec(&self, other: &Dev32) -> Option<Ordering> {
        Some(pair_order(self.pair(), other.pair()))
    }
}

impl PartialOrd<DevSplit> for Dev64 {
    fn partial_cmp(&self, other: &DevSplit) -> (r: Option<Ordering>) {
        Some(order(self.major(), self.minor(), other.major(), other.minor()))
    }

    fn lt(&self, other: &DevSplit) -> (r: bool) {
        let major = other.major();
        self.major() < major || (self.major() == major && self.minor() < other.minor())
    }

    fn le(&self, other: &DevSplit) -> (r: bool) {
        let major = other.major();
        self.major() < major || (self.major() == major && self.minor() <= other.minor())
    }

    fn gt(&self, other: &DevSplit) -> (r: bool) {
        let major = other.major();
        self.major() > major || (self.major() == major && self.minor() > other.minor())
    }

    fn ge(&self, other: &DevSplit) -> (r: bool) {
        let major = other.major();
        self.major() > major || (self.major() == major && self.minor() >= other.minor())
    }
}

impl PartialOrdSpecImpl<DevSplit> for Dev64 {
    open spec fn obeys_partial_cmp_spec() -> bool {
        true
    }

    open spec fn partial_cmp_spec(&self, other: &DevSplit) -> Option<Ordering> {
        Some(pair_order(self.pair(), other.pair()))
    }
}

impl PartialOrd for Dev64 {
    fn partial_cmp(&self, other: &Self) -> (r: Option<Ordering>) {
        Some(order(self.major(), self.minor(), other.major(), other.minor()))
    }

    fn lt(&self, other: &Self) -> (r: bool) {
        let major = other.major();
        self.major() < major || (self.major() == major && self.minor() < other.minor())
    }

    fn le(&self, other: &Self) -> (r: bool) {
        let major = other.major();
        self.major() < major || (self.major() == major && self.minor() <= other.minor())
    }

    fn gt(&self, other: &Self) -> (r: bool) {
        let major = other.major();
        self.major() > major || (self.major() == major && self.minor() > other.minor())
    }

    fn ge(&self, other: &Self) -> (r: bool) {
        let major = other.major();
        self.major() > major || (self.major() == major && self.minor() >= other.minor())
    }
}

impl PartialOrdSpecImpl for Dev64 {
    open spec fn obeys_partial_cmp_spec() -> bool {
        true
    }

    open spec fn partial_cmp_spec(&self, other: &Self) -> Option<Ordering> {
        Some(pair_order(self.pair(), other.pair()))
    }
}

impl PartialOrd<Dev> for Dev64 {
    fn partial_cmp(&self, other: &Dev) -> (r: Option<Ordering>) {
        Some(order(self.major(), self.minor(), other.major(), other.minor()))
    }

    fn lt(&self, other: &Dev) -> (r: bool) {
        let major = other.major();
        self.major() < major || (self.major() == major && self.minor() < other.minor())
    }

    fn le(&self, other: &Dev) -> (r: bool) {
        let major = other.major();
        self.major() < major || (self.major() == major && self.minor() <= other.minor())
    }

    fn gt(&self, other: &Dev) -> (r: bool) {
        let major = other.major();
        self.major() > major || (self.major() == major && self.minor() > other.minor())
    }

    fn ge(&self, other: &Dev) -> (r: bool) {
        let major = other.major();
        self.major() > major || (self.major() == major && self.minor() >= other.minor())
    }
}

impl PartialOrdSpecImpl<Dev> for Dev64 {
    open spec fn obeys_partial_cmp_spec() -> bool {
        true
    }

    open spec fn partial_cmp_spec(&self, other: &Dev) -> Option<Ordering> {
        Some(pair_order(self.pair(), other.pair()))
    }
}

impl PartialOrd<u32> for Dev64 {
    fn partial_cmp(&self, other: &u32) -> (r: Option<Ordering>) {
        Some(order(self.major(), self.minor(), Dev32::new(*other).major(), Dev32::new(*other).minor()))
    }

    fn lt(&self, other: &u32) -> (r: bool) {
        let major = Dev32::new(*other).major();
        self.major() < major || (self.major() == major && self.minor() < Dev32::new(*other).minor())
    }

    fn le(&self, other: &u32) -> (r: bool) {
        let major = Dev32::new(*other).major();
        self.major() < major || (self.major() == major && self.minor() <= Dev32::new(*other).minor())
    }

    fn gt(&self, other: &u32) -> (r: bool) {
        let major = Dev32::new(*other).major();
        self.major() > major || (self.major() == major && self.minor() > Dev32::new(*other).minor())
    }

    fn ge(&self, other: &u32) -> (r: bool) {
        let major = Dev32::new(*other).major();
        self.major() > major || (self.major() == major && self.minor() >= Dev32::new(*other).minor())
    }
}

impl PartialOrdSpecImpl<u32> for Dev64 {
    open spec fn obeys_partial_cmp_spec() -> bool {
        true
    }

    open spec fn partial_cmp_spec(&self, other: &u32) -> Option<Ordering> {
        Some(pair_order(self.pair(), (major32(*other), minor32(*other))))
    }
}

impl PartialOrd<(u32, u32)> for Dev64 {
    fn partial_cmp(&self, other: &(u32, u32)) -> (r: Option<Ordering>) {
        Some(order(self.major(), self.minor(), other.0, other.1))
    }

    fn lt(&self, other: &(u32, u32)) -> (r: bool) {
        let major = other.0;
        self.major() < major || (self.major() == major && self.minor() < other.1)
    }

    fn le(&self, other: &(u32, u32)) -> (r: bool) {
        let major = other.0;
        self.major() < major || (self.major() == major && self.minor() <= other.1)
    }

    fn gt(&self, other: &(u32, u32)) -> (r: bool) {
        let major = other.0;
        self.major() > major || (self.major() == major && self.minor() > other.1)
    }

    fn ge(&self, other: &(u32, u32)) -> (r: bool) {
        let major = other.0;
        self.major() > major || (self.major() == major && self.minor() >= other.1)
    }
}

impl PartialOrdSpecImpl<(u32, u32)> for Dev64 {
    open spec fn obeys_partial_cmp_spec() -> bool {
        true
    }

    open spec fn partial_cmp_spec(&self, other: &(u32, u32)) -> Option<Ordering> {
        Some(pair_order(self.pair(), *other))
    }
}

impl PartialOrd<u64> for Dev64 {
    fn partial_cmp(&self, other: &u64) -> (r: Option<Ordering>) {
        Some(order(self.major(), self.minor(), Dev64::new(*other).major(), Dev64::new(*other).minor()))
    }

    fn lt(&self, other: &u64) -> (r: bool) {
        let major = Dev64::new(*other).major();
        self.major() < major || (self.major() == major && self.minor() < Dev64::new(*other).minor())
    }

    fn le(&self, other: &u64) -> (r: bool) {
        let major = Dev64::new(*other).major();
        self.major() < major || (self.major() == major && self.minor() <= Dev64::new(*other).minor())
    }

    fn gt(&self, other: &u64) -> (r: bool) {
        let major = Dev64::new(*other).major();
        self.major() > major || (self.major() == major && self.minor() > Dev64::new(*other).minor())
    }

    fn ge(&self, other: &u64) -> (r: bool) {
        let major = Dev64::new(*other).major();
        self.major() > major || (self.major() == major && self.minor() >= Dev64::new(*other).minor())
    }
}

impl PartialOrdSpecImpl<u64> for Dev64 {
    open spec fn obeys_partial_cmp_spec() -> bool {
        true
    }

    open spec fn partial_cmp_spec(&self, other: &u64) -> Option<Ordering> {
        Some(pair_order(self.pair(), (major64(*other), minor64(*other))))
    }
}

impl Dev {
    /// The order of two device numbers.
    pub fn cmp(&self, other: &Self) -> (r: Ordering)
        ensures
            r == pair_order(self.pair(), other.pair()),
    {
        order(self.major(), self.minor(), other.major(), other.minor())
    }
}

impl PartialOrd<Dev32> for Dev {
    fn partial_cmp(&self, other: &Dev32) -> (r: Option<Ordering>) {
        Some(order(self.major(), self.minor(), other.major(), other.minor()))
    }

    fn lt(&self, other: &Dev32) -> (r: bool) {
        let major = other.major();
        self.major() < major || (self.major() == major && self.minor() < other.minor())
    }

    fn le(&self, other: &Dev32) -> (r: bool) {
        let major = other.major();
        self.major() < major || (self.major() == major && self.minor() <= other.minor())
    }

    fn gt(&self, other: &Dev32) -> (r: bool) {
        let major = other.major();
        self.major() > major || (self.major() == major && self.minor() > other.minor())
    }

    fn ge(&self, other: &Dev32) -> (r: bool) {
        let major = other.major();
        self.major() > major || (self.major() == major && self.minor() >= other.minor())
    }
}

impl PartialOrdSpecImpl<Dev32> for Dev {
    open spec fn obeys_partial_cmp_spec() -> bool {
        true
    }

    open spec fn partial_cmp_spec(&self, other: &Dev32) -> Option<Ordering> {
        Some(pair_order(self.pair(), other.pair()))
    }
}

impl PartialOrd<DevSplit> for Dev {
    fn partial_cmp(&self, other: &DevSplit) -> (r: Option<Ordering>) {
        Some(order(self.major(), self.minor(), other.major(), other.minor()))
    }

    fn lt(&self, other: &DevSplit) -> (r: bool) {
        let major = other.major();
        self.major() < major || (self.major() == major && self.minor() < other.minor())
    }

    fn le(&self, other: &DevSplit) -> (r: bool) {
        let major = other.major();
        self.major() < major || (self.major() == major && self.minor() <= other.minor())
    }

    fn gt(&self, other: &DevSplit) -> (r: bool) {
        let major = other.major();
        self.major() > major || (self.major() == major && self.minor() > other.minor())
    }

    fn ge(&self, other: &DevSplit) -> (r: bool) {
        let major = other.major();
        self.major() > major || (self.major() == major && self.minor() >= other.minor())
    }
}

impl PartialOrdSpecImpl<DevSplit> for Dev {
    open spec fn obeys_partial_cmp_spec() -> bool {
        true
    }

    open spec fn partial_cmp_spec(&self, other: &DevSplit) -> Option<Ordering> {
        Some(pair_order(self.pair(), other.pair()))
    }
}

impl PartialOrd<Dev64> for Dev {
    fn partial_cmp(&self, other: &Dev64) -> (r: Option<Ordering>) {
        Some(order(self.major(), self.minor(), other.major(), other.minor()))
    }

    fn lt(&self, other: &Dev64) -> (r: bool) {
        let major = other.major();
        self.major() < major || (self.major() == major && self.minor() < other.minor())
    }

    fn le(&self, other: &Dev64) -> (r: bool) {
        let major = other.major();
        self.major() < major || (self.major() == major && self.minor() <= other.minor())
    }

    fn gt(&self, other: &Dev64) -> (r: bool) {
        let major = other.major();
        self.major() > major || (self.major() == major && self.minor() > other.minor())
    }

    fn ge(&self, other: &Dev64) -> (r: bool) {
        let major = other.major();
        self.major() > major || (self.major() == major && self.minor() >= other.minor())
    }
}

impl PartialOrdSpecImpl<Dev64> for Dev {
    open spec fn obeys_partial_cmp_spec() -> bool {
        true
    }

    open spec fn partial_cmp_spec(&self, other: &Dev64) -> Option<Ordering> {
        Some(pair_order(self.pair(), other.pair()))
    }
}

impl PartialOrd for Dev {
    fn partial_cmp(&self, other: &Self) -> (r: Option<Ordering>) {
        Some(order(self.major(), self.minor(), other.major(), other.minor()))
    }

    fn lt(&self, other: &Self) -> (r: bool) {
        let major = other.major();
        self.major() < major || (self.major() == major && self.minor() < other.minor())
    }

    fn le(&self, other: &Self) -> (r: bool) {
        let major = other.major();
        self.major() < major || (self.major() == major && self.minor() <= other.minor())
    }

    fn gt(&self, other: &Self) -> (r: bool) {
        let major = other.major();
        self.major() > major || (self.major() == major && self.minor() > other.minor())
    }

    fn ge(&self, other: &Self) -> (r: bool) {
        let major = other.major();
        self.major() > major || (self.major() == major && self.minor() >= other.minor())
    }
}

impl PartialOrdSpecImpl for Dev {
    open spec fn obeys_partial_cmp_spec() -> bool {
        true
    }

    open spec fn partial_cmp_spec(&self, other: &Self) -> Option<Ordering> {
        Some(pair_order(self.pair(), other.pair()))
    }
}

impl PartialOrd<u32> for Dev {
    fn partial_cmp(&self, other: &u32) -> (r: Option<Ordering>) {
        Some(order(self.major(), self.minor(), Dev32::new(*other).major(), Dev32::new(*other).minor()))
    }

    fn lt(&self, other: &u32) -> (r: bool) {
        let major = Dev32::new(*other).major();
        self.major() < major || (self.major() == major && self.minor() < Dev32::new(*other).minor())
    }

    fn le(&self, other: &u32) -> (r: bool) {
        let major = Dev32::new(*other).major();
        self.major() < major || (self.major() == major && self.minor() <= Dev32::new(*other).minor())
    }

    fn gt(&self, other: &u32) -> (r: bool) {
        let major = Dev32::new(*other).major();
        self.major() > major || (self.major() == major && self.minor() > Dev32::new(*other).minor())
    }

    fn ge(&self, other: &u32) -> (r: bool) {
        let major = Dev32::new(*other).major();
        self.major() > major || (self.major() == major && self.minor() >= Dev32::new(*other).minor())
    }
}

impl PartialOrdSpecImpl<u32> for Dev {
    open spec fn obeys_partial_cmp_spec() -> bool {
        true
    }

    open spec fn partial_cmp_spec(&self, other: &u32) -> Option<Ordering> {
        Some(pair_order(self.pair(), (major32(*other), minor32(*other))))
    }
}

impl PartialOrd<(u32, u32)> for Dev {
    fn partial_cmp(&self, other: &(u32, u32)) -> (r: Option<Ordering>) {
        Some(order(self.major(), self.minor(), other.0, other.1))
    }

    fn lt(&self, other: &(u32, u32)) -> (r: bool) {
        let major = other.0;
        self.major() < major || (self.major() == major && self.minor() < other.1)
    }

    fn le(&self, other: &(u32, u32)) -> (r: bool) {
        let major = other.0;
        self.major() < major || (self.major() == major && self.minor() <= other.1)
    }

    fn gt(&self, other: &(u32, u32)) -> (r: bool) {
        let major = other.0;
        self.major() > major || (self.major() == major && self.minor() > other.1)
    }

    fn ge(&self, other: &(u32, u32)) -> (r: bool) {
        let major = other.0;
        self.major() > major || (self.major() == major && self.minor() >= other.1)
    }
}

impl PartialOrdSpecImpl<(u32, u32)> for Dev {
    open spec fn obeys_partial_cmp_spec() -> bool {
        true
    }

    open spec fn partial_cmp_spec(&self, other: &(u32, u32)) -> Option<Ordering> {
        Some(pair_order(self.pair(), *other))
    }
}

impl PartialOrd<u64> for Dev {
    fn partial_cmp(&self, other: &u64) -> (r: Option<Ordering>) {
        Some(order(self.major(), self.minor(), Dev64::new(*other).major(), Dev64::new(*other).minor()))
    }

    fn lt(&self, other: &u64) -> (r: bool) {
        let major = Dev64::new(*other).major();
        self.major() < major || (self.major() == major && self.minor() < Dev64::new(*other).minor())
    }

    fn le(&self, other: &u64) -> (r: bool) {
        let major = Dev64::new(*other).major();
        self.major() < major || (self.major() == major && self.minor() <= Dev64::new(*other).minor())
    }

    fn gt(&self, other: &u64) -> (r: bool) {
        let major = Dev64::new(*other).major();
        self.major() > major || (self.major() == major && self.minor() > Dev64::new(*other).minor())
    }

    fn ge(&self, other: &u64) -> (r: bool) {
        let major = Dev64::new(*other).major();
        self.major() > major || (self.major() == major && self.minor() >= Dev64::new(*other).minor())
    }
}

impl PartialOrdSpecImpl<u64> for Dev {
    open spec fn obeys_partial_cmp_spec() -> bool {
        true
    }

    open spec fn partial_cmp_spec(&self, other: &u64) -> Option<Ordering> {
        Some(pair_order(self.pair(), (major64(*other), minor64(*other))))
    }
}

} // verus!
