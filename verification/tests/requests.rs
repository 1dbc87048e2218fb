use linux_stat::errno::table;
use linux_stat::request;
use linux_stat::{
    empty_path, fstat, fstatat, fstatat_cstr, lstat, lstat_cstr, run_with_cstr, stat, stat_cstr, CPath,
    Errno, StatAtFlags, CURRENT_DIRECTORY,
};

#[test]
fn path_gets_its_final_nul() {
    assert_eq!(CPath::new(b"/dev/null").unwrap().as_bytes_with_nul(), b"/dev/null\0");
    assert_eq!(CPath::new(b"/dev/null\0").unwrap().as_bytes_with_nul(), b"/dev/null\0");
    assert_eq!(CPath::new(b"").unwrap().as_bytes_with_nul(), b"\0");
    assert_eq!(CPath::new(b"\0").unwrap().as_bytes_with_nul(), b"\0");
    assert_eq!(CPath::new(b"a").unwrap().len(), 1);
    assert_eq!(CPath::new(b"a\0").unwrap().len(), 1);
    assert_eq!(empty_path().as_bytes_with_nul(), b"\0");
    assert_eq!(empty_path().len(), 0);
    assert_eq!(CPath::empty().clone().as_bytes_with_nul(), b"\0");
}

#[test]
fn path_with_inner_nul_names_no_file() {
    assert_eq!(CPath::new(b"a\0b").unwrap_err(), Errno::new(table::ENOENT));
    assert_eq!(CPath::new(b"a\0b\0").unwrap_err(), Errno::new(table::ENOENT));
    assert_eq!(CPath::new(b"\0\0").unwrap_err(), Errno::new(table::ENOENT));
    assert_eq!(CPath::new(b"\0a").unwrap_err(), Errno::new(table::ENOENT));
}

#[test]
fn long_path_is_taken_whole() {
    let long = vec![b'x'; 5000];
    let p = CPath::new(&long).unwrap();
    assert_eq!(p.len(), 5000);
    assert_eq!(p.as_bytes_with_nul()[5000], 0);
    assert_eq!(&p.as_bytes_with_nul()[..5000], &long[..]);
}

#[test]
fn closure_gets_the_c_string() {
    let r = run_with_cstr(b"/tmp", |p: &CPath| Ok::<usize, Errno>(p.as_bytes_with_nul().len()));
    assert_eq!(r, Ok(5));
    let r = run_with_cstr(b"/tmp\0", |p: &CPath| Ok::<Vec<u8>, Errno>(p.as_bytes_with_nul().to_vec()));
    assert_eq!(r, Ok(b"/tmp\0".to_vec()));
    let r = run_with_cstr(b"/tmp", |_p: &CPath| Err::<u8, Errno>(Errno::new(table::EACCES)));
    assert_eq!(r, Err(Errno::new(table::EACCES)));
}

#[test]
fn closure_is_not_called_for_a_bad_path() {
    let mut called = false;
    let r = run_with_cstr(b"a\0b", |_p: &CPath| {
        called = true;
        Ok::<u8, Errno>(1)
    });
    assert_eq!(r, Err(Errno::new(table::ENOENT)));
    assert!(!called);
}

#[test]
fn stat_asks_from_the_current_directory() {
    let r = stat(b"/dev/null").unwrap();
    assert_eq!(r.dirfd, CURRENT_DIRECTORY);
    assert_eq!(r.dirfd, -100);
    assert_eq!(r.path.as_bytes_with_nul(), b"/dev/null\0");
    assert_eq!(r.flags, StatAtFlags::empty());
    let r = stat_cstr(CPath::new(b"x").unwrap());
    assert_eq!((r.dirfd, r.flags.bits()), (-100, 0));
    assert_eq!(r.path.as_bytes_with_nul(), b"x\0");
    assert_eq!(stat(b"a\0b").unwrap_err(), Errno::new(table::ENOENT));
}

#[test]
fn lstat_does_not_follow_links() {
    let r = lstat(b"/dev/stdin").unwrap();
    assert_eq!(r.dirfd, -100);
    assert_eq!(r.path.as_bytes_with_nul(), b"/dev/stdin\0");
    assert_eq!(r.flags.bits(), 0x100);
    let r = lstat_cstr(CPath::new(b"y\0").unwrap());
    assert_eq!((r.dirfd, r.flags.bits()), (-100, 0x100));
    assert_eq!(lstat(b"\0\0").unwrap_err(), Errno::new(table::ENOENT));
}

#[test]
fn fstatat_keeps_directory_and_flags() {
    let flags = StatAtFlags::from_bits(StatAtFlags::NO_AUTOMOUNT | StatAtFlags::SYMLINK_NOFOLLOW);
    let r = fstatat(7, b"rel/path", flags).unwrap();
    assert_eq!(r.dirfd, 7);
    assert_eq!(r.path.as_bytes_with_nul(), b"rel/path\0");
    assert_eq!(r.flags.bits(), 0x900);
    let r = fstatat_cstr(-100, CPath::empty(), flags);
    assert_eq!((r.dirfd, r.flags.bits()), (-100, 0x900));
    assert_eq!(fstatat(7, b"bad\0path", flags).unwrap_err(), Errno::new(table::ENOENT));
}

#[test]
fn fstat_refuses_a_negative_descriptor() {
    assert_eq!(fstat(-1).unwrap_err(), Errno::new(table::EBADF));
    assert_eq!(fstat(i32::MIN).unwrap_err(), Errno::new(table::EBADF));
    assert_eq!(fstat(-100).unwrap_err(), Errno::new(table::EBADF));
    let r = fstat(0).unwrap();
    assert_eq!(r.dirfd, 0);
    assert_eq!(r.path.as_bytes_with_nul(), b"\0");
    assert_eq!(r.flags.bits(), 0x1000);
    let r = fstat(i32::MAX).unwrap();
    assert_eq!(r.dirfd, i32::MAX);
}

#[test]
fn requests_for_c_strings_are_the_same() {
    let p = CPath::new(b"/etc/passwd").unwrap();
    let r = request::stat(&p);
    assert_eq!((r.dirfd, r.flags.bits()), (-100, 0));
    assert_eq!(r.path.as_bytes_with_nul(), b"/etc/passwd\0");
    let r = request::lstat(&p);
    assert_eq!((r.dirfd, r.flags.bits()), (-100, 0x100));
    let r = request::fstatat(3, &p, StatAtFlags::from_bits(StatAtFlags::EMPTY_PATH));
    assert_eq!((r.dirfd, r.flags.bits()), (3, 0x1000));
    assert_eq!(request::fstat(-5).unwrap_err(), Errno::new(table::EBADF));
    let r = request::fstat(5).unwrap();
    assert_eq!((r.dirfd, r.flags.bits()), (5, 0x1000));
    assert_eq!(r.path.as_bytes_with_nul(), b"\0");
    let r = linux_stat::imp::request::fstat(9).unwrap();
    assert_eq!(r.dirfd, 9);
}
