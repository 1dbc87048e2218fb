use linux_stat::errno::table;
use linux_stat::imp;
use linux_stat::imp::arch;
use linux_stat::raw;
use linux_stat::record::{LegacyCall, StatFields, StatxFields};
use linux_stat::Errno;

fn sample() -> StatFields {
    let mut f = StatFields::zeroed();
    f.dev = 0x0801;
    f.ino = 77;
    f.mode = 0o100644;
    f.nlink = 2;
    f.uid = 1000;
    f.gid = 100;
    f.rdev = 0;
    f.size = 1234;
    f.blksize = 4096;
    f.blocks = 8;
    f.atime = 10;
    f.atime_nsec = 11;
    f.mtime = 20;
    f.mtime_nsec = 21;
    f.ctime = 30;
    f.ctime_nsec = 31;
    f
}

#[test]
fn call_numbers_are_those_of_the_kernel() {
    assert_eq!((arch::x86_64::SYS_fstatat, arch::x86_64::SYS_statx), (262, 332));
    assert_eq!((arch::x86::SYS_fstatat, arch::x86::SYS_statx), (300, 383));
    assert_eq!((arch::aarch64::SYS_fstatat, arch::aarch64::SYS_statx), (79, 291));
    assert_eq!((arch::arm::SYS_fstatat, arch::arm::SYS_statx), (327, 397));
    assert_eq!((arch::m68k::SYS_fstatat, arch::m68k::SYS_statx), (293, 379));
    assert_eq!((arch::mips::SYS_fstatat, arch::mips::SYS_statx), (4293, 4366));
    assert_eq!((arch::mips64::SYS_fstatat, arch::mips64::SYS_statx), (5252, 5326));
    assert_eq!((arch::powerpc::SYS_fstatat, arch::powerpc::SYS_statx), (291, 383));
    assert_eq!((arch::powerpc64::SYS_fstatat, arch::powerpc64::SYS_statx), (291, 383));
    assert_eq!((arch::riscv32::SYS_fstatat, arch::riscv32::SYS_statx), (79, 291));
    assert_eq!((arch::riscv64::SYS_fstatat, arch::riscv64::SYS_statx), (79, 291));
    assert_eq!((arch::s390x::SYS_fstatat, arch::s390x::SYS_statx), (293, 379));
    assert_eq!(arch::x86_64::SYS_fstatat as u32, linux_raw_sys::general::__NR_newfstatat);
    assert_eq!(arch::x86_64::SYS_statx as u32, linux_raw_sys::general::__NR_statx);
    assert_eq!(imp::sys::AT_FDCWD, linux_raw_sys::general::AT_FDCWD);
}

#[test]
fn legacy_call_goes_by_its_name_on_each_architecture() {
    assert_eq!(raw::arm::SYS_FSTATAT, LegacyCall::Fstatat64);
    assert_eq!(raw::powerpc::SYS_FSTATAT, LegacyCall::Fstatat64);
    assert_eq!(raw::x86::SYS_FSTATAT, LegacyCall::Fstatat64);
    assert_eq!(raw::riscv64::SYS_FSTATAT, LegacyCall::Fstatat);
    assert_eq!(raw::s390x::SYS_FSTATAT, LegacyCall::Newfstatat);
}

#[test]
fn blank_layout_records_have_zero_padding() {
    let s = arch::x86_64::stat::uninit();
    assert_eq!(s.__pad0, 0);
    assert_eq!(s.__unused, [0, 0, 0]);
    assert_eq!(s.st_size, 0);
    let s = arch::aarch64::stat::uninit();
    assert_eq!((s.__pad0, s.__unused), (0, [0, 0]));
    let s = arch::m68k::stat::uninit();
    assert_eq!((s.__st_dev_padding, s.__st_ino_truncated, s.__st_rdev_padding), (0, 0, 0));
    let s = arch::mips::stat::uninit();
    assert_eq!((s.__pad0, s.__pad1, s.__pad2, s.__pad3), ([0; 3], [0; 3], 0, [0; 14]));
    let s = arch::mips64::stat::uninit();
    assert_eq!((s.__pad0, s.__pad1, s.__pad2), ([0; 3], [0; 3], 0));
    let s = arch::riscv32::stat::uninit();
    assert_eq!((s.__pad1, s.__pad2, s.__unused4, s.__unused5), (0, 0, 0, 0));
    let s = arch::riscv64::stat::uninit();
    assert_eq!((s.__pad0, s.__pad1, s.__pad2), (0, 0, [0, 0]));
    assert!(arch::arm::stat::uninit().has_zero_padding());
    assert!(arch::powerpc::stat::uninit().has_zero_padding());
    assert!(arch::powerpc64::stat::uninit().has_zero_padding());
    assert!(arch::s390x::stat::uninit().has_zero_padding());
    assert!(arch::x86::stat::uninit().has_zero_padding());
    assert!(imp::sys::Statx::uninit().has_zero_padding());
}

#[test]
fn kernel_records_hand_back_what_they_were_given() {
    let f = sample();
    let s = arch::x86::stat::from_fields(&f).unwrap();
    assert!(s.has_zero_padding());
    assert_eq!(s.dev(), 0x0801);
    assert_eq!(s.ino(), 77);
    assert_eq!(s.nlink(), 2);
    assert_eq!(s.mode().as_u16(), 0o100644);
    assert_eq!(s.uid(), 1000);
    assert_eq!(s.gid(), 100);
    assert_eq!(s.rdev(), 0);
    assert_eq!(s.size(), 1234);
    assert_eq!(s.block_size(), 4096);
    assert_eq!(s.blocks(), 8);
    assert_eq!((s.atime().seconds(), s.atime().nanoseconds()), (10, 11));
    assert_eq!((s.mtime().seconds(), s.mtime().nanoseconds()), (20, 21));
    assert_eq!((s.ctime().seconds(), s.ctime().nanoseconds()), (30, 31));
    let s = arch::powerpc64::stat::from_fields(&f).unwrap();
    assert_eq!((s.dev(), s.ino(), s.nlink(), s.size(), s.block_size(), s.blocks()), (0x0801, 77, 2, 1234, 4096, 8));
    assert_eq!((s.mtime().seconds(), s.mtime().nanoseconds()), (20, 21));
    let s = arch::arm::stat::from_fields(&f).unwrap();
    assert_eq!((s.dev(), s.ino(), s.uid(), s.gid(), s.rdev()), (0x0801, 77, 1000, 100, 0));
    let s = arch::powerpc::stat::from_fields(&f).unwrap();
    assert_eq!((s.ctime().seconds(), s.ctime().nanoseconds()), (30, 31));
    let s = arch::s390x::stat::from_fields(&f).unwrap();
    assert_eq!((s.mode().as_u16(), s.nlink(), s.block_size()), (0o100644, 2, 4096));
    let mut wide = sample();
    wide.atime = 1 << 40;
    assert!(arch::x86::stat::from_fields(&wide).is_none());
    assert!(arch::powerpc64::stat::from_fields(&wide).is_some());
    wide.mtime_nsec = 1_000_000_000;
    assert!(arch::powerpc64::stat::from_fields(&wide).is_none());
}

#[test]
fn kernel_mode_word_splits_into_classes() {
    let m = imp::Mode::from_u16(0o104751);
    assert_eq!(m.owner().bits(), 0o7);
    assert_eq!(m.group().bits(), 0o5);
    assert_eq!(m.other().bits(), 0o1);
    assert!(m.suid());
    assert!(!m.sgid());
    assert!(!m.svtx());
    assert!(imp::Mode::from(0o3000u16).sgid());
    assert!(imp::Mode::from(0o3000u16).svtx());
    assert_eq!(m.as_u16(), 0o104751);
}

#[test]
fn kernel_extended_record_hands_back_what_it_was_given() {
    let mut f = StatxFields::zeroed();
    f.blksize = u32::MAX;
    f.size = u64::MAX;
    f.blocks = 9;
    f.mode = 0o040755;
    f.ino = 2;
    f.nlink = 3;
    f.uid = 4;
    f.gid = 5;
    f.attributes = 6;
    f.attributes_mask = 7;
    f.atime = 1;
    f.atime_nsec = 2;
    f.btime = 3;
    f.btime_nsec = 4;
    f.ctime = 5;
    f.ctime_nsec = 6;
    f.mtime = 7;
    f.mtime_nsec = 8;
    f.rdev_major = 1;
    f.rdev_minor = 3;
    f.dev_major = 8;
    f.dev_minor = 17;
    f.mnt_id = 99;
    f.dio_mem_align = 1;
    f.dio_offset_align = 2;
    let x = imp::sys::Statx::from_fields(&f).unwrap();
    assert!(x.has_zero_padding());
    assert_eq!(x.block_size(), u32::MAX);
    assert_eq!(x.size(), u64::MAX);
    assert_eq!(x.blocks(), 9);
    assert_eq!(x.mode().as_u16(), 0o040755);
    assert_eq!((x.ino(), x.nlink(), x.uid(), x.gid()), (2, 3, 4, 5));
    assert_eq!((x.attributes(), x.attributes_mask().bits()), (6, 7));
    assert_eq!((x.atime().seconds(), x.atime().nanoseconds()), (1, 2));
    assert_eq!((x.btime().seconds(), x.btime().nanoseconds()), (3, 4));
    assert_eq!((x.ctime().seconds(), x.ctime().nanoseconds()), (5, 6));
    assert_eq!((x.mtime().seconds(), x.mtime().nanoseconds()), (7, 8));
    assert_eq!((x.rdev_major(), x.rdev_minor(), x.dev_major(), x.dev_minor()), (1, 3, 8, 17));
    assert_eq!(x.rdev(), 0x301);
    assert_eq!(x.dev(), (17 << 8) | 8);
    assert_eq!((x.mount_id(), x.dio_mem_align(), x.dio_offset_align()), (99, 1, 2));
    f.ctime_nsec = 1_000_000_000;
    assert!(imp::sys::Statx::from_fields(&f).is_none());
}

#[test]
fn outcome_of_a_call_is_the_record_or_the_error() {
    assert_eq!(imp::sys::outcome(0, 5u8), Ok(5u8));
    assert_eq!(imp::sys::outcome(usize::MAX - 4096, "r"), Ok("r"));
    assert_eq!(imp::sys::outcome((-2isize) as usize, 5u8), Err(Errno::new(table::ENOENT)));
    assert_eq!(imp::sys::outcome(usize::MAX, ()), Err(Errno::new(1)));
}

#[test]
fn mips_failure_becomes_an_error_word() {
    assert_eq!(arch::mips::syscall_word(0, 0), 0);
    assert_eq!(arch::mips::syscall_word(17, 0), 17);
    assert_eq!(arch::mips::syscall_word(2, 1), (-2isize) as usize);
    assert_eq!(arch::mips::syscall_word(38, 1), 38usize.wrapping_neg());
    assert_eq!(arch::mips::syscall_word(0, 1), 0);
    assert_eq!(arch::mips64::syscall_word(4095, 7), 4095usize.wrapping_neg());
    assert_eq!(
        Errno::from_ret(arch::mips::syscall_word(38, 1)),
        Err(Errno::new(table::ENOSYS))
    );
    assert_eq!(Errno::from_ret(arch::mips::syscall_word(38, 0)), Ok(38));
}

#[test]
fn call_arguments_go_in_the_order_of_the_kernel() {
    let flags = linux_stat::StatAtFlags::from_bits(0x100);
    let mask = linux_stat::flags::StatXMask::from_bits(0x7ff);
    assert_eq!(
        imp::sys::fstatat_args(-100, 0x1000, 0x2000, flags),
        [(-100isize) as usize, 0x1000, 0x2000, 0x100]
    );
    assert_eq!(
        imp::sys::statx_args(3, 0x1000, flags, mask, 0x2000),
        [3, 0x1000, 0x100, 0x7ff, 0x2000]
    );
    assert_eq!(imp::sys::word_of_fd(0), 0);
    assert_eq!(imp::sys::word_of_fd(i32::MAX), i32::MAX as usize);
    assert_eq!(imp::sys::word_of_fd(-1), usize::MAX);
    assert_eq!(imp::sys::word_of_fd(i32::MIN), (i32::MIN as isize) as usize);
}

#[test]
fn kernel_records_print_what_their_accessors_give() {
    let mut f = sample();
    f.mtime = -20;
    let text = "stat { dev: 2049, ino: 77, nlink: 2, mode: Mode(33188), uid: 1000, gid: 100, \
                rdev: 0, size: 1234, block_size: 4096, blocks: 8, \
                atime: Timestamp { secs: 10, nsecs: 11 }, mtime: Timestamp { secs: -20, nsecs: 21 }, \
                ctime: Timestamp { secs: 30, nsecs: 31 } }";
    assert_eq!(arch::x86::stat::from_fields(&f).unwrap().to_debug_string(), text);
    assert_eq!(arch::arm::stat::from_fields(&f).unwrap().to_debug_string(), text);
    assert_eq!(arch::powerpc::stat::from_fields(&f).unwrap().to_debug_string(), text);
    assert_eq!(arch::powerpc64::stat::from_fields(&f).unwrap().to_debug_string(), text);
    assert_eq!(arch::s390x::stat::from_fields(&f).unwrap().to_debug_string(), text);
    assert_eq!(format!("{:?}", imp::Mode::from_u16(0o100644)), "Mode(33188)");
}

#[test]
fn kernel_extended_record_prints_what_its_accessors_give() {
    let mut f = StatxFields::zeroed();
    f.blksize = 4096;
    f.size = u64::MAX;
    f.blocks = 8;
    f.mode = 0o040755;
    f.ino = 2;
    f.nlink = 3;
    f.uid = 4;
    f.gid = 5;
    f.attributes = 16;
    f.attributes_mask = 48;
    f.atime = 1;
    f.atime_nsec = 2;
    f.btime = 3;
    f.btime_nsec = 4;
    f.ctime = 5;
    f.ctime_nsec = 6;
    f.mtime = 7;
    f.mtime_nsec = 8;
    f.rdev_major = 1;
    f.rdev_minor = 3;
    f.dev_major = 8;
    f.dev_minor = 17;
    f.mnt_id = 99;
    f.dio_mem_align = 1;
    f.dio_offset_align = 2;
    assert_eq!(
        imp::sys::Statx::from_fields(&f).unwrap().to_debug_string(),
        "stat { dev: 4360, ino: 2, nlink: 3, mode: Mode(16877), uid: 4, gid: 5, rdev: 769, \
         size: 18446744073709551615, block_size: 4096, blocks: 8, \
         atime: Timestamp { secs: 1, nsecs: 2 }, btime: Timestamp { secs: 3, nsecs: 4 }, \
         mtime: Timestamp { secs: 7, nsecs: 8 }, ctime: Timestamp { secs: 5, nsecs: 6 }, \
         attributes: 16, attributes_mask: StatXAttr(48), mount_id: 99, dio_mem_align: 1, \
         dio_offset_align: 2 }"
    );
}
