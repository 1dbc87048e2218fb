//! Verified core for reading Linux file metadata through raw system calls.
//!
//! The crate performs no I/O. It classifies raw kernel return words, holds
//! the per-architecture metadata records behind typed accessors, unifies the
//! encodings of device numbers, and decides which metadata call a caller has
//! to issue next.
#![allow(non_camel_case_types, non_upper_case_globals)]

pub mod dev;
pub mod errno;
pub mod errno_gen;
pub mod errno_table;
pub mod flags;
pub mod imp;
pub mod path;
pub mod raw;
pub mod record;
pub mod request;
pub mod resolve;
pub mod text;
pub mod unified;

use vstd::prelude::*;
use vstd::string::*;

pub use dev::{Dev, Dev32, Dev64, DevSplit};
pub use errno::Errno;
pub use flags::{ModePermission, StatAtFlags};
pub use path::{c_string_of, empty_path, run_with_cstr, CPath};
pub use request::{asks, Request};
pub use resolve::{Call, CapabilityState, Probe, Step};
pub use unified::Stat;

verus! {

/// Raw file descriptor.
pub type RawFd = i32;

/// The descriptor that stands for the current directory.
pub const CURRENT_DIRECTORY: RawFd = -100;

/// The bits of a mode word that hold the file type.
pub const S_IFMT: u16 = 0o170000;

/// File type bits of a socket.
pub const S_IFSOCK: u16 = 0o140000;

/// File type bits of a symbolic link.
pub const S_IFLNK: u16 = 0o120000;

/// File type bits of a regular file.
pub const S_IFREG: u16 = 0o100000;

/// File type bits of a block device.
pub const S_IFBLK: u16 = 0o060000;

/// File type bits of a directory.
pub const S_IFDIR: u16 = 0o040000;

/// File type bits of a character device.
pub const S_IFCHR: u16 = 0o020000;

/// File type bits of a FIFO.
pub const S_IFIFO: u16 = 0o010000;

/// Set-user-ID bit.
pub const S_ISUID: u16 = 0o4000;

/// Set-group-ID bit.
pub const S_ISGID: u16 = 0o2000;

/// Sticky bit.
pub const S_ISVTX: u16 = 0o1000;

/// Nanoseconds in a second.
pub const NANOS_PER_SEC: u32 = 1_000_000_000;

/// The request for the file at `path` relative to `dirfd`. A path that
/// contains a NUL before its end names no file.
pub fn fstatat(dirfd: RawFd, path: &[u8], flags: StatAtFlags) -> (r: Result<Request, Errno>)
    ensures
        r is Ok <==> c_string_of(path@) is Some,
        r matches Ok(request) ==> asks(request, dirfd, c_string_of(path@)->0, flags@),
        r matches Err(e) ==> e.code() == errno::table::ENOENT,
{
    match CPath::new(path) {
        Ok(p) => Ok(fstatat_cstr(dirfd, p, flags)),
        Err(e) => Err(e),
    }
}

/// The request for the file at `path` relative to `dirfd`.
pub fn fstatat_cstr(dirfd: RawFd, path: CPath, flags: StatAtFlags) -> (r: Request)
    ensures
        asks(r, dirfd, path@, flags@),
{
    Request { dirfd, path, flags }
}

/// The request for the file at `path`, symbolic links followed.
pub fn stat(path: &[u8]) -> (r: Result<Request, Errno>)
    ensures
        r is Ok <==> c_string_of(path@) is Some,
        r matches Ok(request) ==> asks(request, CURRENT_DIRECTORY, c_string_of(path@)->0, 0),
        r matches Err(e) ==> e.code() == errno::table::ENOENT,
{
    fstatat(CURRENT_DIRECTORY, path, StatAtFlags::empty())
}

/// The request for the file at `path`, symbolic links followed.
pub fn stat_cstr(path: CPath) -> (r: Request)
    ensures
        asks(r, CURRENT_DIRECTORY, path@, 0),
{
    fstatat_cstr(CURRENT_DIRECTORY, path, StatAtFlags::empty())
}

/// The request for the file at `path`, or for the symbolic link that is
/// there.
pub fn lstat(path: &[u8]) -> (r: Result<Request, Errno>)
    ensures
        r is Ok <==> c_string_of(path@) is Some,
        r matches Ok(request) ==> asks(
            request,
            CURRENT_DIRECTORY,
            c_string_of(path@)->0,
            StatAtFlags::SYMLINK_NOFOLLOW,
        ),
        r matches Err(e) ==> e.code() == errno::table::ENOENT,
{
    fstatat(CURRENT_DIRECTORY, path, StatAtFlags::from_bits(StatAtFlags::SYMLINK_NOFOLLOW))
}

/// The request for the file at `path`, or for the symbolic link that is
/// there.
pub fn lstat_cstr(path: CPath) -> (r: Request)
    ensures
        asks(r, CURRENT_DIRECTORY, path@, StatAtFlags::SYMLINK_NOFOLLOW),
{
    fstatat_cstr(CURRENT_DIRECTORY, path, StatAtFlags::from_bits(StatAtFlags::SYMLINK_NOFOLLOW))
}

/// The request for the file that the descriptor `dirfd` refers to. A negative
/// number is no descriptor: no call is issued for it.
pub fn fstat(dirfd: RawFd) -> (r: Result<Request, Errno>)
    ensures
        r is Err <==> dirfd < 0,
        r matches Err(e) ==> e.code() == errno::table::EBADF,
        r matches Ok(request) ==> asks(request, dirfd, seq![0u8], StatAtFlags::EMPTY_PATH),
{
    if dirfd < 0 {
        return Err(Errno::new(errno::table::EBADF));
    }
    Ok(fstatat_cstr(dirfd, empty_path(), StatAtFlags::from_bits(StatAtFlags::EMPTY_PATH)))
}

/// The three permission bits at the bottom of `bits`.
pub open spec fn permission_bits(bits: u16) -> u8 {
    (bits & 0o7) as u8
}

fn low_permission_bits(bits: u16) -> (r: u8)
    ensures
        r == permission_bits(bits),
{
    assert(bits & 0o7 <= 7) by (bit_vector);
    (bits & 0o7) as u8
}

/// The three characters of one class of users: `r` and `w` where the
/// permission is there, then `s` where the class has its set-ID bit, else `x`
/// where execution is permitted; `-` in each place otherwise.
pub open spec fn permission_text(bits: u8, set_id: bool) -> Seq<char> {
    seq![
        if bits & 0o4 == 0o4 {
            'r'
        } else {
            '-'
        },
        if bits & 0o2 == 0o2 {
            'w'
        } else {
            '-'
        },
        if set_id {
            's'
        } else if bits & 0o1 == 0o1 {
            'x'
        } else {
            '-'
        },
    ]
}

/// What a mode prints as: the permissions of owner, group and others.
pub open spec fn mode_text(bits: u16) -> Seq<char> {
    "Mode("@ + permission_text(permission_bits(bits >> 6), bits & S_ISUID == S_ISUID)
        + permission_text(permission_bits(bits >> 3), bits & S_ISGID == S_ISGID) + permission_text(
        permission_bits(bits),
        false,
    ) + seq![')']
}

/// The permission bits of a file, and its set-ID and sticky bits.
#[derive(Copy, Clone, Debug, PartialEq, Eq, Structural, PartialOrd, Ord, Hash)]
pub struct Mode(pub(crate) u16);

impl View for Mode {
    type V = u16;

    /// The bits of the mode.
    closed spec fn view(&self) -> u16 {
        self.0
    }
}

fn push_permission(out: &mut String, p: ModePermission, set_id: bool)
    ensures
        final(out)@ == old(out)@ + permission_text(p@, set_id),
{
    proof {
        reveal_strlit("r");
        reveal_strlit("w");
        reveal_strlit("x");
        reveal_strlit("s");
        reveal_strlit("-");
    }
    out.append(
        if p.contains(ModePermission::from_bits(ModePermission::READ)) {
            "r"
        } else {
            "-"
        },
    );
    out.append(
        if p.contains(ModePermission::from_bits(ModePermission::WRITE)) {
            "w"
        } else {
            "-"
        },
    );
    out.append(
        if set_id {
            "s"
        } else if p.contains(ModePermission::from_bits(ModePermission::EXEC)) {
            "x"
        } else {
            "-"
        },
    );
    assert(final(out)@ =~= old(out)@ + permission_text(p@, set_id));
}

impl Mode {
    /// The owner's permissions.
    pub fn owner(&self) -> (r: ModePermission)
        ensures
            r@ == permission_bits(self@ >> 6),
    {
        ModePermission::from_bits(low_permission_bits(self.0 >> 6))
    }

    /// The group's permissions.
    pub fn group(&self) -> (r: ModePermission)
        ensures
            r@ == permission_bits(self@ >> 3),
    {
        ModePermission::from_bits(low_permission_bits(self.0 >> 3))
    }

    /// The permissions of everybody else.
    pub fn other(&self) -> (r: ModePermission)
        ensures
            r@ == permission_bits(self@),
    {
        ModePermission::from_bits(low_permission_bits(self.0))
    }

    /// Whether the set-user-ID bit is set.
    pub fn suid(&self) -> (r: bool)
        ensures
            r == (self@ & S_ISUID == S_ISUID),
    {
        self.0 & S_ISUID == S_ISUID
    }

    /// Whether the set-group-ID bit is set.
    pub fn sgid(&self) -> (r: bool)
        ensures
            r == (self@ & S_ISGID == S_ISGID),
    {
        self.0 & S_ISGID == S_ISGID
    }

    /// Whether the sticky bit is set.
    pub fn svtx(&self) -> (r: bool)
        ensures
            r == (self@ & S_ISVTX == S_ISVTX),
    {
        self.0 & S_ISVTX == S_ISVTX
    }

    pub fn from_u16(value: u16) -> (r: Self)
        ensures
            r@ == value,
    {
        Mode(value)
    }

    pub fn as_u16(&self) -> (r: u16)
        ensures
            r == self@,
    {
        self.0
    }

    /// The text of the mode, such as `Mode(rwxr-xr-x)`.
    pub fn to_debug_string(&self) -> (r: String)
        ensures
            r@ == mode_text(self@),
    {
        let mut out = String::new();
        proof {
            reveal_strlit(")");
        }
        out.append("Mode(");
        push_permission(&mut out, self.owner(), self.suid());
        push_permission(&mut out, self.group(), self.sgid());
        push_permission(&mut out, self.other(), false);
        out.append(")");
        assert(out@ =~= mode_text(self@));
        out
    }
}

impl From<u16> for Mode {
    fn from(value: u16) -> (r: Self) {
        Mode(value)
    }
}

impl vstd::std_specs::convert::FromSpecImpl<u16> for Mode {
    open spec fn obeys_from_spec() -> bool {
        true
    }

    closed spec fn from_spec(value: u16) -> Self {
        Mode(value)
    }
}

/// A point in time: seconds since the epoch and the nanoseconds within the
/// second, which are always below one thousand million.
#[derive(Copy, Clone, Debug, PartialEq, Eq, Structural, PartialOrd, Ord, Hash)]
pub struct Timestamp {
    secs: i64,
    nsecs: u32,
}

impl View for Timestamp {
    type V = (i64, u32);

    /// Seconds and nanoseconds.
    closed spec fn view(&self) -> (i64, u32) {
        (self.secs, self.nsecs)
    }
}

impl Timestamp {
    #[verifier::type_invariant]
    spec fn inv(self) -> bool {
        self.nsecs < NANOS_PER_SEC
    }

    /// The timestamp of `secs` and `nsecs`, where the nanoseconds are within a
    /// second.
    pub fn new(secs: i64, nsecs: u32) -> (r: Option<Self>)
        ensures
            r is Some <==> nsecs < NANOS_PER_SEC,
            r matches Some(t) ==> t@ == (secs, nsecs),
    {
        if nsecs < NANOS_PER_SEC {
            Some(Timestamp { secs, nsecs })
        } else {
            None
        }
    }

    pub(crate) fn within_second(secs: i64, nsecs: u32) -> (r: Self)
        requires
            nsecs < NANOS_PER_SEC,
        ensures
            r@ == (secs, nsecs),
    {
        Timestamp { secs, nsecs }
    }

    pub fn seconds(&self) -> (r: i64)
        ensures
            r == self@.0,
    {
        self.secs
    }

    pub fn secs(&self) -> (r: i64)
        ensures
            r == self@.0,
    {
        self.secs
    }

    pub fn nanoseconds(&self) -> (r: u32)
        ensures
            r == self@.1,
            r < NANOS_PER_SEC,
    {
        proof {
            use_type_invariant(self);
        }
        self.nsecs
    }

    pub fn nanosecs(&self) -> (r: u32)
        ensures
            r == self@.1,
            r < NANOS_PER_SEC,
    {
        self.nanoseconds()
    }

    pub fn nsecs(&self) -> (r: u32)
        ensures
            r == self@.1,
            r < NANOS_PER_SEC,
    {
        self.nanoseconds()
    }
}

/// The type of a file.
#[derive(Copy, Clone, Debug, PartialEq, Eq, Structural, PartialOrd, Ord, Hash)]
pub enum FileType {
    Block,
    Character,
    Directory,
    Fifo,
    Link,
    Regular,
    Socket,
    Unknown,
}

/// The file type that the type bits of a mode word stand for.
pub open spec fn file_type_of(mode: u16) -> FileType {
    let bits = mode & S_IFMT;
    if bits == S_IFSOCK {
        FileType::Socket
    } else if bits == S_IFLNK {
        FileType::Link
    } else if bits == S_IFREG {
        FileType::Regular
    } else if bits == S_IFBLK {
        FileType::Block
    } else if bits == S_IFDIR {
        FileType::Directory
    } else if bits == S_IFCHR {
        FileType::Character
    } else if bits == S_IFIFO {
        FileType::Fifo
    } else {
        FileType::Unknown
    }
}

/// The type bits of a file type; none for the unknown type.
pub open spec fn file_type_bits(t: FileType) -> u16 {
    match t {
        FileType::Socket => S_IFSOCK,
        FileType::Link => S_IFLNK,
        FileType::Regular => S_IFREG,
        FileType::Block => S_IFBLK,
        FileType::Directory => S_IFDIR,
        FileType::Character => S_IFCHR,
        FileType::Fifo => S_IFIFO,
        FileType::Unknown => 0,
    }
}

impl FileType {
    /// The type bits of the mode word of such a file.
    pub fn as_u16(&self) -> (r: u16)
        ensures
            r == file_type_bits(*self),
    {
        match *self {
            FileType::Socket => S_IFSOCK,
            FileType::Link => S_IFLNK,
            FileType::Regular => S_IFREG,
            FileType::Block => S_IFBLK,
            FileType::Directory => S_IFDIR,
            FileType::Character => S_IFCHR,
            FileType::Fifo => S_IFIFO,
            FileType::Unknown => 0,
        }
    }
}

/// The type bits of a file type stand for that file type again, and they lie
/// wholly within the type bits of a mode word.
pub proof fn lemma_file_type_bits(t: FileType)
    ensures
        file_type_of(file_type_bits(t)) == t,
        file_type_bits(t) & S_IFMT == file_type_bits(t),
{
    assert(0o140000u16 & 0o170000 == 0o140000 && 0o120000u16 & 0o170000 == 0o120000 && 0o100000u16
        & 0o170000 == 0o100000 && 0o060000u16 & 0o170000 == 0o060000 && 0o040000u16 & 0o170000
        == 0o040000 && 0o020000u16 & 0o170000 == 0o020000 && 0o010000u16 & 0o170000 == 0o010000
        && 0u16 & 0o170000 == 0) by (bit_vector);
}

} // verus!
