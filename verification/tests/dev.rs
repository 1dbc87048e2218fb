use linux_stat::{Dev, Dev32, Dev64, DevSplit};
use std::cmp::Ordering;
use std::collections::hash_map::DefaultHasher;
use std::collections::HashSet;
use std::hash::{Hash, Hasher};

fn packed(major: u32, minor: u32) -> u64 {
    let major = major as u64;
    let minor = minor as u64;
    ((minor & 0xfffff000) << 32) | ((minor & 0xfff) << 8) | ((major & 0xffffff00) << 12) | (major & 0xff)
}

#[test]
fn dev32_decomposes_by_its_formula() {
    let d = Dev32::new(0x0000_0103);
    assert_eq!(d.major(), 1);
    assert_eq!(d.minor(), 3);
    assert_eq!(d.as_u32(), 0x0000_0103);
    let d = Dev32::new(0xfff8_ab12);
    assert_eq!(d.major(), 0xab);
    assert_eq!(d.minor(), 0x1fff | 0x12);
    for v in [0u32, 1, 0xff, 0x100, 0xffff, 0x7_ffff, 0x8_0000, 0x1234_5678, u32::MAX] {
        let d = Dev32::new(v);
        assert_eq!(d.major(), (v >> 8) & 0xff);
        assert_eq!(d.minor(), (v >> 19) | (v & 0xff));
    }
}

#[test]
fn pair_packs_into_64_bits_by_the_formula() {
    assert_eq!(DevSplit::new(1, 3).as_u64(), 0x301);
    assert_eq!(DevSplit::new(0x12, 0x34), packed(0x12, 0x34));
    assert_eq!(
        DevSplit::new(0x1234_5678, 0x9abc_def0).as_u64(),
        (0x9abc_d000u64 << 32) | (0xef0u64 << 8) | (0x1234_5600u64 << 12) | 0x78
    );
    assert_eq!(DevSplit::new(0, 0).as_u64(), 0);
    assert_eq!(DevSplit::new(u32::MAX, u32::MAX).as_u64(), u64::MAX);
}

#[test]
fn packing_and_unpacking_round_trip() {
    let samples = [0u32, 1, 3, 0xff, 0x100, 0xfff, 0x1000, 0x1234, 0xfffff, 0x10_0000, 0x8000_0000, u32::MAX];
    for &major in samples.iter() {
        for &minor in samples.iter() {
            let v = DevSplit::new(major, minor).as_u64();
            assert_eq!(v, packed(major, minor));
            let d = Dev64::new(v);
            assert_eq!((d.major(), d.minor()), (major, minor));
            assert_eq!(DevSplit::new(d.major(), d.minor()).as_u64(), v);
            assert_eq!(d.as_u64(), v);
        }
    }
}

#[test]
fn every_64_bit_number_is_the_packing_of_its_pair() {
    for v in [0u64, 0x301, 0x103, 0xdead_beef_cafe_f00d, u64::MAX, 1 << 63, 0x0000_ffff_0000_ffff] {
        let d = Dev64::new(v);
        assert_eq!(DevSplit::new(d.major(), d.minor()).as_u64(), v);
        assert_eq!(Dev::from_u64(v).as_u64(), v);
    }
}

#[test]
fn dev32_widens_without_loss() {
    for v in [0u32, 0x103, 0xfff8_ab12, u32::MAX, 0x0001_0000] {
        let d = Dev32::new(v);
        let wide = Dev64::new(d.as_u64());
        assert_eq!((wide.major(), wide.minor()), (d.major(), d.minor()));
        assert!(wide == d);
    }
}

#[test]
fn encodings_of_one_pair_are_equal() {
    let narrow = Dev32::new(0x0000_0103);
    let split = DevSplit::new(1, 3);
    let wide = Dev64::new(split.as_u64());
    assert!(narrow == split);
    assert!(split == wide);
    assert!(wide == narrow);
    assert!(Dev::from(narrow) == Dev::from(wide));
    assert!(Dev::from(split) == Dev::from(narrow));
    assert!(Dev::from_split(1, 3) == (1u32, 3u32));
    assert!(Dev::from_split(1, 3) == 0x0103u32);
    assert!(Dev::from_split(1, 3) == 0x301u64);
    assert!(split != DevSplit::new(3, 1));
    assert!(!(split != wide));
}

#[test]
fn dev32_equality_goes_by_the_pair_not_the_bits() {
    // Bits 16 to 18 belong to neither number.
    let a = Dev32::new(0x0000_0103);
    let b = Dev32::new(0x0007_0103);
    assert_ne!(a.as_u32(), b.as_u32());
    assert!(a == b);
    assert_eq!(a.as_u64(), b.as_u64());
    assert_eq!(a.cmp(&b), Ordering::Equal);
}

#[test]
fn order_is_by_major_then_minor() {
    assert!(DevSplit::new(1, 9) < DevSplit::new(2, 0));
    assert!(DevSplit::new(2, 0) > DevSplit::new(1, 9));
    assert!(DevSplit::new(1, 3) < DevSplit::new(1, 4));
    assert!(DevSplit::new(1, 3) <= DevSplit::new(1, 3));
    assert!(DevSplit::new(1, 3) >= DevSplit::new(1, 3));
    assert_eq!(DevSplit::new(1, 3).cmp(&DevSplit::new(1, 3)), Ordering::Equal);
    assert_eq!(DevSplit::new(0, 7).cmp(&DevSplit::new(1, 0)), Ordering::Less);
    assert_eq!(
        DevSplit::new(1, 3).partial_cmp(&DevSplit::new(1, 2)),
        Some(Ordering::Greater)
    );
    let low = Dev::from_u32(0x0000_0103);
    let high = Dev::from_u64(DevSplit::new(1, 4).as_u64());
    assert!(low < high);
    assert!(high > low);
    assert!(low < (1u32, 4u32));
    assert!(high >= 0x0103u32);
    assert_eq!(low.cmp(&high), Ordering::Less);
    assert_eq!(Dev64::new(0x301).cmp(&Dev64::new(0x301)), Ordering::Equal);
}

#[test]
fn dev64_order_goes_by_the_pair_not_the_bits() {
    // The minor number sits above the major number in the 64 bits.
    let a = Dev64::new(DevSplit::new(2, 0).as_u64());
    let b = Dev64::new(DevSplit::new(1, 5).as_u64());
    assert!(a.as_u64() < b.as_u64());
    assert!(a > b);
}

#[test]
fn unified_device_number_reads_every_encoding() {
    let d = Dev::from_u32(0x0000_0507);
    assert_eq!((d.major(), d.minor()), (5, 7));
    assert_eq!(d.as_u64(), packed(5, 7));
    let d = Dev::from_split(8, 1);
    assert_eq!((d.major(), d.minor()), (8, 1));
    let d = Dev::from_u64(packed(259, 70000));
    assert_eq!((d.major(), d.minor()), (259, 70000));
    let d: Dev = (4u32, 64u32).into();
    assert_eq!((d.major(), d.minor()), (4, 64));
    let d: Dev = 0x0000_0801u32.into();
    assert_eq!((d.major(), d.minor()), (8, 1));
    let d: Dev = packed(8, 17).into();
    assert_eq!((d.major(), d.minor()), (8, 17));
}

#[test]
fn device_numbers_print_as_major_and_minor() {
    assert_eq!(Dev32::new(0x0103).to_debug_string(), "Dev32(1:3)");
    assert_eq!(DevSplit::new(259, 0).to_debug_string(), "DevSplit(259:0)");
    assert_eq!(Dev64::new(0x301).to_debug_string(), "Dev64(1:3)");
    assert_eq!(Dev::from_split(8, 17).to_debug_string(), "Dev(8:17)");
    assert_eq!(
        DevSplit::new(u32::MAX, 10).to_debug_string(),
        "DevSplit(4294967295:10)"
    );
}

fn digest<T: Hash>(value: &T) -> u64 {
    let mut hasher = DefaultHasher::new();
    value.hash(&mut hasher);
    hasher.finish()
}

#[test]
fn equal_device_numbers_hash_alike() {
    let narrow = Dev32::new(0x0007_0103);
    let split = DevSplit::new(1, 3);
    let wide = Dev64::new(0x301);
    assert_eq!(digest(&narrow), digest(&split));
    assert_eq!(digest(&split), digest(&wide));
    assert_eq!(digest(&wide), digest(&Dev::from(narrow)));
    assert_eq!(digest(&Dev::from_split(1, 3)), digest(&0x301u64));
    assert_ne!(digest(&DevSplit::new(1, 3)), digest(&DevSplit::new(3, 1)));
    let mut seen = HashSet::new();
    assert!(seen.insert(Dev::from_u32(0x0103)));
    assert!(!seen.insert(Dev::from_split(1, 3)));
    assert!(!seen.insert(Dev::from_u64(0x301)));
    assert!(seen.insert(Dev::from_split(1, 4)));
    assert_eq!(seen.len(), 2);
}
