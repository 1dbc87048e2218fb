use linux_stat::flags::StatXAttr;
use linux_stat::raw;
use linux_stat::record::{StatFields, StatxFields};
use linux_stat::{FileType, Stat};

fn dev_null() -> StatFields {
    let mut f = StatFields::zeroed();
    f.dev = 0x0500;
    f.ino = 4;
    f.mode = 0o020666;
    f.nlink = 1;
    f.uid = 0;
    f.gid = 5;
    f.rdev = 0x0301;
    f.size = 0;
    f.blksize = 4096;
    f.blocks = 0;
    f.atime = 1_700_000_000;
    f.atime_nsec = 123_456_789;
    f.mtime = 1_700_000_001;
    f.mtime_nsec = 0;
    f.ctime = 1_700_000_002;
    f.ctime_nsec = 999_999_999;
    f
}

fn dev_null_extended() -> StatxFields {
    let mut f = StatxFields::zeroed();
    f.mask = 0x7ff;
    f.blksize = 4096;
    f.attributes = 0x10;
    f.nlink = 1;
    f.uid = 0;
    f.gid = 5;
    f.mode = 0o020666;
    f.ino = 4;
    f.size = 0;
    f.blocks = 0;
    f.attributes_mask = 0x30;
    f.atime = 1_700_000_000;
    f.atime_nsec = 123_456_789;
    f.btime = 1_600_000_000;
    f.btime_nsec = 7;
    f.ctime = 1_700_000_002;
    f.ctime_nsec = 999_999_999;
    f.mtime = 1_700_000_001;
    f.mtime_nsec = 0;
    f.rdev_major = 1;
    f.rdev_minor = 3;
    f.dev_major = 0;
    f.dev_minor = 5;
    f.mnt_id = 22;
    f.dio_mem_align = 512;
    f.dio_offset_align = 4096;
    f
}

#[test]
fn blank_records_are_zero_everywhere() {
    assert!(raw::arm::stat::uninit().has_zero_padding());
    assert!(raw::powerpc::stat::uninit().has_zero_padding());
    assert!(raw::riscv64::stat::uninit().has_zero_padding());
    assert!(raw::s390x::stat::uninit().has_zero_padding());
    assert!(raw::x86::stat::uninit().has_zero_padding());
    assert!(raw::Statx::uninit().has_zero_padding());
    let s = raw::x86::stat::uninit();
    assert_eq!(s.inode(), 0);
    assert_eq!(s.size(), 0);
    assert_eq!(s.atime().seconds(), 0);
    let x = raw::Statx::uninit();
    assert_eq!(x.inode(), 0);
    assert_eq!(x.mask().bits(), 0);
    assert_eq!(x.btime().nanoseconds(), 0);
}

#[test]
fn filled_records_keep_their_padding_zero() {
    let f = dev_null();
    assert!(raw::arm::stat::from_fields(&f).unwrap().has_zero_padding());
    assert!(raw::powerpc::stat::from_fields(&f).unwrap().has_zero_padding());
    assert!(raw::riscv64::stat::from_fields(&f).unwrap().has_zero_padding());
    assert!(raw::s390x::stat::from_fields(&f).unwrap().has_zero_padding());
    assert!(raw::x86::stat::from_fields(&f).unwrap().has_zero_padding());
    assert!(raw::Statx::from_fields(&dev_null_extended()).unwrap().has_zero_padding());
    assert!(raw::stat::X86(raw::x86::stat::from_fields(&f).unwrap()).has_zero_padding());
    assert!(Stat::Statx(raw::Statx::from_fields(&dev_null_extended()).unwrap()).has_zero_padding());
}

#[test]
fn x86_record_hands_back_what_it_was_given() {
    let s = raw::x86::stat::from_fields(&dev_null()).unwrap();
    assert_eq!(s.dev().as_u64(), 0x0500);
    assert_eq!(s.rdev().as_u64(), 0x0301);
    assert_eq!(s.inode(), 4);
    assert_eq!(s.nlink(), 1);
    assert_eq!(s.raw_mode(), 0o020666);
    assert_eq!(s.uid(), 0);
    assert_eq!(s.gid(), 5);
    assert_eq!(s.size(), 0);
    assert_eq!(s.block_size(), 4096);
    assert_eq!(s.blocks(), 0);
    assert_eq!(s.atime().seconds(), 1_700_000_000);
    assert_eq!(s.atime().nanoseconds(), 123_456_789);
    assert_eq!(s.mtime().seconds(), 1_700_000_001);
    assert_eq!(s.mtime().nanoseconds(), 0);
    assert_eq!(s.ctime().seconds(), 1_700_000_002);
    assert_eq!(s.ctime().nanoseconds(), 999_999_999);
}

#[test]
fn every_architecture_reads_the_same_values() {
    let f = dev_null();
    let records = [
        raw::stat::Arm(raw::arm::stat::from_fields(&f).unwrap()),
        raw::stat::PowerPc(raw::powerpc::stat::from_fields(&f).unwrap()),
        raw::stat::RiscV64(raw::riscv64::stat::from_fields(&f).unwrap()),
        raw::stat::S390x(raw::s390x::stat::from_fields(&f).unwrap()),
        raw::stat::X86(raw::x86::stat::from_fields(&f).unwrap()),
    ];
    for s in records.iter() {
        assert_eq!(s.dev().as_u64(), 0x0500);
        assert_eq!((s.dev_major(), s.dev_minor()), (0, 5));
        assert_eq!((s.rdev_major(), s.rdev_minor()), (1, 3));
        assert!(s.rdev() == (1u32, 3u32));
        assert_eq!(s.inode(), 4);
        assert_eq!(s.nlink(), 1);
        assert_eq!(s.raw_mode(), 0o020666);
        assert_eq!(s.mode().as_u16(), 0o666);
        assert_eq!(s.file_type(), FileType::Character);
        assert!(s.is_character());
        assert!(s.is_char());
        assert!(!s.is_block());
        assert!(!s.is_directory());
        assert!(!s.is_dir());
        assert!(!s.is_fifo());
        assert!(!s.is_link());
        assert!(!s.is_regular());
        assert!(!s.is_socket());
        assert_eq!(s.uid(), 0);
        assert_eq!(s.gid(), 5);
        assert_eq!(s.size(), 0);
        assert_eq!(s.block_size(), 4096);
        assert_eq!(s.blocks(), 0);
        assert_eq!(s.atime().nanoseconds(), 123_456_789);
        assert_eq!(s.mtime().seconds(), 1_700_000_001);
        assert_eq!(s.ctime().nanoseconds(), 999_999_999);
    }
}

#[test]
fn record_refuses_nanoseconds_beyond_a_second() {
    let mut f = dev_null();
    f.atime_nsec = 1_000_000_000;
    assert!(raw::x86::stat::from_fields(&f).is_none());
    assert!(raw::arm::stat::from_fields(&f).is_none());
    assert!(raw::powerpc::stat::from_fields(&f).is_none());
    assert!(raw::riscv64::stat::from_fields(&f).is_none());
    assert!(raw::s390x::stat::from_fields(&f).is_none());
    let mut f = dev_null();
    f.ctime_nsec = u64::MAX;
    assert!(raw::riscv64::stat::from_fields(&f).is_none());
    let mut f = dev_null();
    f.mtime_nsec = 999_999_999;
    assert!(raw::s390x::stat::from_fields(&f).is_some());
    let mut x = dev_null_extended();
    x.btime_nsec = 1_000_000_000;
    assert!(raw::Statx::from_fields(&x).is_none());
}

#[test]
fn record_refuses_values_wider_than_its_fields() {
    let mut f = dev_null();
    f.ino = u32::MAX as u64 + 1;
    assert!(raw::arm::stat::from_fields(&f).is_none());
    assert!(raw::x86::stat::from_fields(&f).is_some());
    let mut f = dev_null();
    f.dev = 1 << 32;
    assert!(raw::arm::stat::from_fields(&f).is_none());
    assert!(raw::powerpc::stat::from_fields(&f).is_some());
    let mut f = dev_null();
    f.atime = i32::MAX as i64 + 1;
    assert!(raw::x86::stat::from_fields(&f).is_none());
    assert!(raw::powerpc::stat::from_fields(&f).is_none());
    assert!(raw::riscv64::stat::from_fields(&f).is_some());
    assert!(raw::s390x::stat::from_fields(&f).is_some());
    let mut f = dev_null();
    f.nlink = u32::MAX as u64 + 1;
    assert!(raw::x86::stat::from_fields(&f).is_none());
    assert!(raw::s390x::stat::from_fields(&f).is_some());
    let mut f = dev_null();
    f.blksize = -1;
    assert!(raw::s390x::stat::from_fields(&f).is_none());
    assert!(raw::x86::stat::from_fields(&f).is_some());
    let mut f = dev_null();
    f.blksize = i32::MAX as i64 + 1;
    assert!(raw::x86::stat::from_fields(&f).is_none());
    assert!(raw::s390x::stat::from_fields(&f).is_some());
    let mut x = dev_null_extended();
    x.size = i64::MAX as u64 + 1;
    assert!(raw::Statx::from_fields(&x).is_none());
    let mut x = dev_null_extended();
    x.blksize = i32::MAX as u32 + 1;
    assert!(raw::Statx::from_fields(&x).is_none());
}

#[test]
fn wide_link_count_is_cut_to_32_bits() {
    let mut f = dev_null();
    f.nlink = (1u64 << 32) + 7;
    let s = raw::s390x::stat::from_fields(&f).unwrap();
    assert_eq!(s.nlink(), 7);
    f.blksize = (1i64 << 32) + 512;
    let s = raw::s390x::stat::from_fields(&f).unwrap();
    assert_eq!(s.block_size(), 512);
}

#[test]
fn extended_record_hands_back_what_it_was_given() {
    let x = raw::Statx::from_fields(&dev_null_extended()).unwrap();
    assert_eq!(x.mask().bits(), 0x7ff);
    assert_eq!(x.block_size(), 4096);
    assert_eq!(x.attributes(), 0x10);
    assert_eq!(x.attributes_mask().bits(), 0x30);
    assert_eq!(x.nlink(), 1);
    assert_eq!(x.uid(), 0);
    assert_eq!(x.gid(), 5);
    assert_eq!(x.raw_mode(), 0o020666);
    assert_eq!(x.mode().as_u16(), 0o666);
    assert_eq!(x.file_type(), FileType::Character);
    assert!(x.is_character() && x.is_char());
    assert!(!x.is_socket() && !x.is_link() && !x.is_regular() && !x.is_block());
    assert!(!x.is_directory() && !x.is_dir() && !x.is_fifo());
    assert_eq!(x.inode(), 4);
    assert_eq!(x.size(), 0);
    assert_eq!(x.blocks(), 0);
    assert_eq!(x.atime().seconds(), 1_700_000_000);
    assert_eq!(x.btime().seconds(), 1_600_000_000);
    assert_eq!(x.btime().nanoseconds(), 7);
    assert_eq!(x.ctime().nanoseconds(), 999_999_999);
    assert_eq!(x.mtime().seconds(), 1_700_000_001);
    assert_eq!((x.rdev_major(), x.rdev_minor()), (1, 3));
    assert_eq!((x.dev_major(), x.dev_minor()), (0, 5));
    assert!(x.rdev() == (1u32, 3u32));
    assert!(x.dev() == (0u32, 5u32));
    assert_eq!(x.rdev().as_u64(), 0x301);
    assert_eq!(x.mount_id(), 22);
    assert_eq!(x.dio_mem_align(), 512);
    assert_eq!(x.dio_offset_align(), 4096);
}

#[test]
fn attribute_means_something_only_under_the_mask() {
    let x = raw::Statx::from_fields(&dev_null_extended()).unwrap();
    assert_eq!(x.attribute(StatXAttr::from_bits(StatXAttr::IMMUTABLE)), Some(true));
    assert_eq!(x.attribute(StatXAttr::from_bits(StatXAttr::APPEND)), Some(false));
    assert_eq!(x.attribute(StatXAttr::from_bits(StatXAttr::COMPRESSED)), None);
    assert_eq!(x.attribute(StatXAttr::from_bits(StatXAttr::VERITY)), None);
}

#[test]
fn unified_record_reads_both_kinds_alike() {
    let legacy = Stat::Stat64(raw::stat::X86(raw::x86::stat::from_fields(&dev_null()).unwrap()));
    let extended = Stat::Statx(raw::Statx::from_fields(&dev_null_extended()).unwrap());
    for s in [legacy, extended].iter() {
        assert_eq!(s.block_size(), 4096);
        assert_eq!(s.nlink(), 1);
        assert_eq!(s.uid(), 0);
        assert_eq!(s.gid(), 5);
        assert_eq!(s.mode().as_u16(), 0o666);
        assert_eq!(s.file_type(), FileType::Character);
        assert!(s.is_character() && s.is_char());
        assert!(!s.is_socket() && !s.is_link() && !s.is_regular() && !s.is_block());
        assert!(!s.is_directory() && !s.is_dir() && !s.is_fifo());
        assert_eq!(s.inode(), 4);
        assert_eq!(s.size(), 0);
        assert_eq!(s.blocks(), 0);
        assert_eq!(s.atime().seconds(), 1_700_000_000);
        assert_eq!(s.ctime().seconds(), 1_700_000_002);
        assert_eq!(s.mtime().seconds(), 1_700_000_001);
        assert_eq!((s.rdev_major(), s.rdev_minor()), (1, 3));
        assert_eq!((s.dev_major(), s.dev_minor()), (0, 5));
        assert!(s.rdev() == (1u32, 3u32));
        assert!(s.dev() == (0u32, 5u32));
        assert_eq!(s.mode().as_u16() | s.file_type().as_u16(), 0o020666);
    }
    assert!(legacy.rdev() == extended.rdev());
    assert!(legacy.dev() == extended.dev());
}

#[test]
fn device_helpers_follow_the_64_bit_form() {
    assert_eq!(raw::makedev(1, 3), 0x301);
    assert_eq!(raw::major(0x301), 1);
    assert_eq!(raw::minor(0x301), 3);
    assert_eq!(raw::major(raw::makedev(0xabcd_ef01, 0x2345_6789)), 0xabcd_ef01);
    assert_eq!(raw::minor(raw::makedev(0xabcd_ef01, 0x2345_6789)), 0x2345_6789);
    assert_eq!(linux_stat::imp::sys::makedev(1, 3), 0x301);
}

#[test]
fn record_that_does_not_fit_is_an_overflow() {
    let overflow = linux_stat::Errno::new(linux_stat::errno::table::EOVERFLOW);
    let mut f = dev_null();
    assert_eq!(raw::x86_64::stat::decode(&f).unwrap().inode(), 4);
    assert_eq!(raw::arm::stat::decode(&f).unwrap().inode(), 4);
    f.mtime_nsec = 1_000_000_000;
    assert_eq!(raw::x86_64::stat::decode(&f).unwrap_err(), overflow);
    assert_eq!(raw::s390x::stat::decode(&f).unwrap_err(), overflow);
    let mut f = dev_null();
    f.ino = 1 << 40;
    assert_eq!(raw::arm::stat::decode(&f).unwrap_err(), overflow);
    assert_eq!(raw::aarch64::stat::decode(&f).unwrap().inode(), 1 << 40);
    let mut x = dev_null_extended();
    assert_eq!(raw::Statx::decode(&x).unwrap().inode(), 4);
    x.size = u64::MAX;
    assert_eq!(raw::Statx::decode(&x).unwrap_err(), overflow);
    assert_eq!(overflow.into_raw(), 75);
}
