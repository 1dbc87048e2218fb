use linux_stat::raw;
use linux_stat::record::{StatFields, StatxFields};
use linux_stat::Stat;

fn legacy() -> raw::stat {
    let mut f = StatFields::zeroed();
    f.dev = 0x0500;
    f.ino = 4;
    f.mode = 0o020666;
    f.nlink = 1;
    f.uid = 0;
    f.gid = 5;
    f.rdev = 0x0301;
    f.size = 0;
    f.blksize = 4096;
    f.blocks = 0;
    f.atime = 10;
    f.atime_nsec = 11;
    f.mtime = -20;
    f.mtime_nsec = 21;
    f.ctime = 30;
    f.ctime_nsec = 31;
    raw::stat::X86_64(raw::x86_64::stat::from_fields(&f).unwrap())
}

fn extended() -> raw::Statx {
    let mut f = StatxFields::zeroed();
    f.blksize = 4096;
    f.attributes = 16;
    f.nlink = 1;
    f.gid = 5;
    f.mode = 0o104755;
    f.ino = 4;
    f.size = 9;
    f.blocks = 8;
    f.attributes_mask = 48;
    f.atime = 10;
    f.atime_nsec = 11;
    f.btime = 1;
    f.btime_nsec = 2;
    f.ctime = 30;
    f.ctime_nsec = 31;
    f.mtime = 20;
    f.mtime_nsec = 21;
    f.rdev_major = 1;
    f.rdev_minor = 3;
    f.dev_major = 0;
    f.dev_minor = 5;
    f.mnt_id = 22;
    f.dio_mem_align = 512;
    f.dio_offset_align = 4096;
    raw::Statx::from_fields(&f).unwrap()
}

#[test]
fn legacy_record_prints_what_its_accessors_give() {
    assert_eq!(
        legacy().to_debug_string(),
        "stat { dev: Dev(0:5), ino: 4, nlink: 1, mode: Mode(rw-rw-rw-), uid: 0, gid: 5, \
         rdev: Dev(1:3), size: 0, block_size: 4096, blocks: 0, \
         atime: Timestamp { secs: 10, nsecs: 11 }, mtime: Timestamp { secs: -20, nsecs: 21 }, \
         ctime: Timestamp { secs: 30, nsecs: 31 } }"
    );
    assert!(legacy().debug("other").starts_with("other { dev: Dev(0:5), "));
}

#[test]
fn extended_record_prints_what_its_accessors_give() {
    assert_eq!(
        extended().to_debug_string(),
        "Statx { dev: Dev(0:5), ino: 4, nlink: 1, mode: Mode(rwsr-xr-x), uid: 0, gid: 5, \
         rdev: Dev(1:3), size: 9, block_size: 4096, blocks: 8, \
         atime: Timestamp { secs: 10, nsecs: 11 }, btime: Timestamp { secs: 1, nsecs: 2 }, \
         mtime: Timestamp { secs: 20, nsecs: 21 }, ctime: Timestamp { secs: 30, nsecs: 31 }, \
         attributes: 16, attributes_mask: StatXAttr(48), mount_id: 22, dio_mem_align: 512, \
         dio_offset_align: 4096 }"
    );
}

#[test]
fn unified_record_prints_under_its_own_name() {
    assert!(Stat::Stat64(legacy()).to_debug_string().starts_with("Stat { dev: Dev(0:5), ino: 4, "));
    assert!(Stat::Stat64(legacy()).to_debug_string().ends_with("ctime: Timestamp { secs: 30, nsecs: 31 } }"));
    assert!(Stat::Statx(extended()).to_debug_string().starts_with("Stat { dev: Dev(0:5), ino: 4, "));
    assert!(Stat::Statx(extended()).to_debug_string().ends_with(", dio_offset_align: 4096 }"));
}

#[test]
fn timestamp_prints_like_its_derived_form() {
    let s = legacy().atime();
    assert_eq!(format!("{:?}", s), "Timestamp { secs: 10, nsecs: 11 }");
}
