use linux_stat::errno::table;
use linux_stat::Errno;

#[test]
fn enoent_has_name_and_description() {
    let e = Errno::new(table::ENOENT);
    assert_eq!(e.into_raw(), 2);
    assert_eq!(e.name(), Some("ENOENT"));
    assert_eq!(e.description(), Some("No such file or directory"));
    assert_eq!(
        e.name_and_description(),
        Some(("ENOENT", "No such file or directory"))
    );
}

#[test]
fn unlisted_code_has_no_name_and_prints_its_magnitude() {
    let e = Errno::new(4000);
    assert_eq!(e.name(), None);
    assert_eq!(e.description(), None);
    assert!(e.is_valid());
    assert_eq!(e.to_string(), "4000");
    assert_eq!(Errno::new(-5).to_string(), "5");
    assert_eq!(Errno::new(0).to_string(), "0");
    assert_eq!(Errno::new(i32::MIN).to_string(), "2147483648");
}

#[test]
fn listed_code_prints_with_name_and_description() {
    assert_eq!(
        Errno::new(2).to_string(),
        "-2 ENOENT (No such file or directory)"
    );
    assert_eq!(
        Errno::new(table::ENOSYS).to_string(),
        "-38 ENOSYS (Invalid system call number)"
    );
    assert_eq!(
        Errno::new(531).to_string(),
        "-531 ENOGRACE (NFS file lock reclaim refused)"
    );
}

#[test]
fn code_beyond_the_limit_prints_in_hexadecimal() {
    let e = Errno::new(5000);
    assert!(!e.is_valid());
    assert_eq!(e.to_string(), "Unknown errno 0x1388");
    assert_eq!(Errno::new(4096).to_string(), "Unknown errno 0x1000");
    assert_eq!(Errno::new(i32::MAX).to_string(), "Unknown errno 0x7fffffff");
}

#[test]
fn debug_text_is_the_name_or_the_code() {
    assert_eq!(Errno::new(2).to_debug_string(), "ENOENT");
    assert_eq!(Errno::new(4000).to_debug_string(), "Errno(4000)");
    assert_eq!(Errno::new(-7).to_debug_string(), "Errno(-7)");
}

#[test]
fn validity_ends_at_4096() {
    assert!(Errno::new(4095).is_valid());
    assert!(!Errno::new(4096).is_valid());
    assert!(Errno::new(1).is_valid());
}

#[test]
fn return_word_below_the_boundary_is_a_result() {
    assert_eq!(Errno::from_ret(usize::MAX - 4096), Ok(usize::MAX - 4096));
    assert_eq!(Errno::from_ret(0), Ok(0));
    assert_eq!(Errno::from_ret(12345), Ok(12345));
}

#[test]
fn return_word_above_the_boundary_is_an_error() {
    assert_eq!(Errno::from_ret(usize::MAX - 4095), Err(Errno::new(4096)));
    assert_eq!(Errno::from_ret(usize::MAX), Err(Errno::new(1)));
    assert_eq!(
        Errno::from_ret((-2isize) as usize),
        Err(Errno::new(table::ENOENT))
    );
    assert_eq!(
        Errno::from_ret((-38isize) as usize),
        Err(Errno::new(table::ENOSYS))
    );
}

#[test]
fn errors_compare_by_their_code() {
    assert_eq!(Errno::new(2), Errno::new(table::ENOENT));
    assert_ne!(Errno::new(2), Errno::new(3));
    assert!(Errno::new(2) < Errno::new(3));
    assert!(Errno::new(-1) < Errno::new(0));
    assert_eq!(table::EWOULDBLOCK, table::EAGAIN);
}

#[test]
fn os_error_code_becomes_an_error() {
    assert_eq!(Errno::from_raw_os_error(Some(13)), Some(Errno::new(13)));
    assert_eq!(Errno::from_raw_os_error(None), None);
}

#[test]
fn io_error_gives_its_code() {
    let err = std::io::Error::from_raw_os_error(2);
    assert_eq!(Errno::from_io_error(err), Some(Errno::new(2)));
    let other = std::io::Error::new(std::io::ErrorKind::Other, "no code");
    assert_eq!(Errno::from_io_error(other), None);
}

#[test]
fn io_error_keeps_the_code() {
    let err = Errno::new(table::EBADF).into_io_error();
    assert_eq!(err.raw_os_error(), Some(9));
    assert_eq!(Errno::from_io_error(err), Some(Errno::new(9)));
}

#[test]
fn table_agrees_with_the_kernel_headers() {
    assert_eq!(table::ENOENT as u32, linux_raw_sys::errno::ENOENT);
    assert_eq!(table::EBADF as u32, linux_raw_sys::errno::EBADF);
    assert_eq!(table::ENOSYS as u32, linux_raw_sys::errno::ENOSYS);
    assert_eq!(table::EINTR as u32, linux_raw_sys::errno::EINTR);
    assert_eq!(table::EAGAIN as u32, linux_raw_sys::errno::EAGAIN);
    assert_eq!(table::EHWPOISON as u32, linux_raw_sys::errno::EHWPOISON);
}
