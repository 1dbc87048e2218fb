use linux_stat::flags::{StatXAttr, StatXMask};
use linux_stat::{FileType, Mode, ModePermission, StatAtFlags, Timestamp};

#[test]
fn mode_splits_into_three_classes() {
    let m = Mode::from_u16(0o754);
    assert_eq!(m.owner().bits(), 0o7);
    assert_eq!(m.group().bits(), 0o5);
    assert_eq!(m.other().bits(), 0o4);
    assert!(m.owner().contains(ModePermission::from_bits(ModePermission::WRITE)));
    assert!(!m.group().contains(ModePermission::from_bits(ModePermission::WRITE)));
    assert!(!m.other().contains(ModePermission::from_bits(ModePermission::EXEC)));
    assert_eq!(m.as_u16(), 0o754);
    assert_eq!(Mode::from(0o640u16), Mode::from_u16(0o640));
}

#[test]
fn mode_knows_its_special_bits() {
    assert!(Mode::from_u16(0o4755).suid());
    assert!(!Mode::from_u16(0o4755).sgid());
    assert!(Mode::from_u16(0o2755).sgid());
    assert!(Mode::from_u16(0o1777).svtx());
    assert!(!Mode::from_u16(0o0777).svtx());
    assert!(!Mode::from_u16(0o0777).suid());
}

#[test]
fn mode_prints_its_permissions() {
    assert_eq!(Mode::from_u16(0o755).to_debug_string(), "Mode(rwxr-xr-x)");
    assert_eq!(Mode::from_u16(0o640).to_debug_string(), "Mode(rw-r-----)");
    assert_eq!(Mode::from_u16(0o4755).to_debug_string(), "Mode(rwsr-xr-x)");
    assert_eq!(Mode::from_u16(0o2644).to_debug_string(), "Mode(rw-r-sr--)");
    assert_eq!(Mode::from_u16(0o1777).to_debug_string(), "Mode(rwxrwxrwx)");
    assert_eq!(Mode::from_u16(0).to_debug_string(), "Mode(---------)");
}

#[test]
fn mode_bits_agree_with_the_kernel_headers() {
    assert_eq!(linux_stat::S_IFMT as u32, linux_raw_sys::general::S_IFMT);
    assert_eq!(linux_stat::S_IFSOCK as u32, linux_raw_sys::general::S_IFSOCK);
    assert_eq!(linux_stat::S_IFLNK as u32, linux_raw_sys::general::S_IFLNK);
    assert_eq!(linux_stat::S_IFREG as u32, linux_raw_sys::general::S_IFREG);
    assert_eq!(linux_stat::S_IFBLK as u32, linux_raw_sys::general::S_IFBLK);
    assert_eq!(linux_stat::S_IFDIR as u32, linux_raw_sys::general::S_IFDIR);
    assert_eq!(linux_stat::S_IFCHR as u32, linux_raw_sys::general::S_IFCHR);
    assert_eq!(linux_stat::S_IFIFO as u32, linux_raw_sys::general::S_IFIFO);
    assert_eq!(linux_stat::S_ISUID as u32, linux_raw_sys::general::S_ISUID);
    assert_eq!(linux_stat::S_ISGID as u32, linux_raw_sys::general::S_ISGID);
    assert_eq!(linux_stat::S_ISVTX as u32, linux_raw_sys::general::S_ISVTX);
    assert_eq!(linux_stat::CURRENT_DIRECTORY, linux_raw_sys::general::AT_FDCWD);
}

#[test]
fn flags_agree_with_the_kernel_headers() {
    assert_eq!(StatAtFlags::EMPTY_PATH, linux_raw_sys::general::AT_EMPTY_PATH);
    assert_eq!(StatAtFlags::NO_AUTOMOUNT, linux_raw_sys::general::AT_NO_AUTOMOUNT);
    assert_eq!(
        StatAtFlags::SYMLINK_NOFOLLOW,
        linux_raw_sys::general::AT_SYMLINK_NOFOLLOW
    );
    assert_eq!(StatXMask::BASIC_STATS, linux_raw_sys::general::STATX_BASIC_STATS);
    assert_eq!(StatXMask::BTIME, linux_raw_sys::general::STATX_BTIME);
    assert_eq!(StatXMask::MNT_ID, linux_raw_sys::general::STATX_MNT_ID);
    assert_eq!(StatXMask::DIOALIGN, linux_raw_sys::general::STATX_DIOALIGN);
    assert_eq!(StatXAttr::VERITY, linux_raw_sys::general::STATX_ATTR_VERITY as u64);
    assert_eq!(StatXAttr::DAX, linux_raw_sys::general::STATX_ATTR_DAX as u64);
    assert_eq!(StatXAttr::IMMUTABLE, linux_raw_sys::general::STATX_ATTR_IMMUTABLE as u64);
    assert_eq!(StatXAttr::COMPRESSED, linux_raw_sys::general::STATX_ATTR_COMPRESSED as u64);
}

#[test]
fn flag_sets_insert_remove_and_toggle() {
    let mut f = StatAtFlags::empty();
    assert_eq!(f.bits(), 0);
    f.insert(StatAtFlags::from_bits(StatAtFlags::EMPTY_PATH));
    assert_eq!(f.bits(), 0x1000);
    f.insert(StatAtFlags::from_bits(StatAtFlags::SYMLINK_NOFOLLOW));
    assert_eq!(f.bits(), 0x1100);
    assert!(f.contains(StatAtFlags::from_bits(StatAtFlags::EMPTY_PATH)));
    assert!(!f.contains(StatAtFlags::from_bits(StatAtFlags::NO_AUTOMOUNT)));
    f.remove(StatAtFlags::from_bits(StatAtFlags::EMPTY_PATH));
    assert_eq!(f.bits(), 0x100);
    f.toggle(StatAtFlags::from_bits(StatAtFlags::SYMLINK_NOFOLLOW));
    assert_eq!(f, StatAtFlags::empty());
    f.toggle(StatAtFlags::from_bits(StatAtFlags::NO_AUTOMOUNT));
    assert_eq!(f.bits(), 0x800);
    assert_eq!(StatAtFlags::all().bits(), 0x1900);
    assert_eq!(StatXMask::all().bits(), 0x3fff);
    assert_eq!(ModePermission::all().bits(), 0o7);
    assert_eq!(StatXAttr::all().bits(), 0x30_3874);
    assert_eq!(StatXMask::from_bits(0xffff_0000).bits(), 0xffff_0000);
}

#[test]
fn toggle_of_a_partly_set_group_sets_it() {
    let mut m = StatXMask::from_bits(StatXMask::TYPE);
    m.toggle(StatXMask::from_bits(StatXMask::BASIC_STATS));
    assert_eq!(m.bits(), StatXMask::BASIC_STATS);
    m.toggle(StatXMask::from_bits(StatXMask::BASIC_STATS));
    assert_eq!(m.bits(), 0);
}

#[test]
fn timestamp_keeps_nanoseconds_within_a_second() {
    let t = Timestamp::new(-5, 999_999_999).unwrap();
    assert_eq!(t.seconds(), -5);
    assert_eq!(t.secs(), -5);
    assert_eq!(t.nanoseconds(), 999_999_999);
    assert_eq!(t.nanosecs(), 999_999_999);
    assert_eq!(t.nsecs(), 999_999_999);
    assert!(Timestamp::new(0, 1_000_000_000).is_none());
    assert!(Timestamp::new(0, u32::MAX).is_none());
    assert!(Timestamp::new(i64::MAX, 0).is_some());
    assert!(Timestamp::new(1, 5).unwrap() < Timestamp::new(1, 6).unwrap());
    assert!(Timestamp::new(1, 5).unwrap() < Timestamp::new(2, 0).unwrap());
}

#[test]
fn file_type_has_its_bits() {
    assert_eq!(FileType::Socket.as_u16(), 0o140000);
    assert_eq!(FileType::Link.as_u16(), 0o120000);
    assert_eq!(FileType::Regular.as_u16(), 0o100000);
    assert_eq!(FileType::Block.as_u16(), 0o060000);
    assert_eq!(FileType::Directory.as_u16(), 0o040000);
    assert_eq!(FileType::Character.as_u16(), 0o020000);
    assert_eq!(FileType::Fifo.as_u16(), 0o010000);
    assert_eq!(FileType::Unknown.as_u16(), 0);
}

#[test]
fn file_type_bits_stand_for_the_type_again() {
    for t in [
        FileType::Socket,
        FileType::Link,
        FileType::Regular,
        FileType::Block,
        FileType::Directory,
        FileType::Character,
        FileType::Fifo,
        FileType::Unknown,
    ] {
        assert_eq!(linux_stat::raw::file_type(t.as_u16() | 0o755), t);
    }
    assert_eq!(linux_stat::raw::file_type(0o150000), FileType::Unknown);
}
