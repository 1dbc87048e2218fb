//! Conversions into the unified device number. Each keeps the encoding that
//! it was given.
use super::{Dev, Dev32, Dev64, DevSplit};
use vstd::prelude::*;
use vstd::std_specs::convert::FromSpecImpl;

verus! {

impl From<Dev32> for Dev {
    fn from(value: Dev32) -> (r: Self) {
        Dev::B32(value)
    }
}

impl FromSpecImpl<Dev32> for Dev {
    open spec fn obeys_from_spec() -> bool {
        true
    }

    open spec fn from_spec(value: Dev32) -> Self {
        Dev::B32(value)
    }
}

impl From<DevSplit> for Dev {
    fn from(value: DevSplit) -> (r: Self) {
        Dev::Split(value)
    }
}

impl FromSpecImpl<DevSplit> for Dev {
    open spec fn obeys_from_spec() -> bool {
        true
    }

    open spec fn from_spec(value: DevSplit) -> Self {
        Dev::Split(value)
    }
}

impl From<Dev64> for Dev {
    fn from(value: Dev64) -> (r: Self) {
        Dev::B64(value)
    }
}

impl FromSpecImpl<Dev64> for Dev {
    open spec fn obeys_from_spec() -> bool {
        true
    }

    open spec fn from_spec(value: Dev64) -> Self {
        Dev::B64(value)
    }
}

impl From<u32> for Dev {
    fn from(value: u32) -> (r: Self)
        ensures
            r matches Dev::B32(d) && d.bits() == value,
    {
        Dev::from_u32(value)
    }
}

impl FromSpecImpl<u32> for Dev {
    open spec fn obeys_from_spec() -> bool {
        true
    }

    closed spec fn from_spec(value: u32) -> Self {
        Dev::B32(Dev32(value))
    }
}

impl From<u64> for Dev {
    fn from(value: u64) -> (r: Self)
        ensures
            r matches Dev::B64(d) && d.bits() == value,
    {
        Dev::from_u64(value)
    }
}

impl FromSpecImpl<u64> for Dev {
    open spec fn obeys_from_spec() -> bool {
        true
    }

    closed spec fn from_spec(value: u64) -> Self {
        Dev::B64(Dev64(value))
    }
}

impl From<(u32, u32)> for Dev {
    fn from(value: (u32, u32)) -> (r: Self)
        ensures
            r is Split,
            r.pair() == value,
    {
        Dev::from_split(value.0, value.1)
    }
}

impl FromSpecImpl<(u32, u32)> for Dev {
    open spec fn obeys_from_spec() -> bool {
        true
    }

    closed spec fn from_spec(value: (u32, u32)) -> Self {
        Dev::Split(DevSplit(value.0, value.1))
    }
}

} // verus!
