//! Requests for the metadata of a file, for paths that are C strings already.
use crate::errno::table::EBADF;
use crate::flags::StatAtFlags;
use crate::path::CPath;
use crate::{Errno, RawFd, CURRENT_DIRECTORY};
use vstd::prelude::*;

verus! {

/// What a metadata call is issued with, apart from the record that it fills
/// in.
#[derive(Debug)]
pub struct Request {
    /// The directory that a relative path starts from.
    pub dirfd: RawFd,
    /// The path of the file.
    pub path: CPath,
    /// How the path is resolved.
    pub flags: StatAtFlags,
}

/// Whether `request` asks for `path` relative to `dirfd` with the flags whose
/// bits are `flags`.
pub open spec fn asks(request: Request, dirfd: RawFd, path: Seq<u8>, flags: u32) -> bool {
    &&& request.dirfd == dirfd
    &&& request.path@ == path
    &&& request.flags@ == flags
}

/// The request for the file at `path` relative to `dirfd`.
pub fn fstatat(dirfd: RawFd, path: &CPath, flags: StatAtFlags) -> (r: Request)
    ensures
        asks(r, dirfd, path@, flags@),
{
    Request { dirfd, path: path.clone(), flags }
}

/// The request for the file at `path`, symbolic links followed.
pub fn stat(path: &CPath) -> (r: Request)
    ensures
        asks(r, CURRENT_DIRECTORY, path@, 0),
{
    fstatat(CURRENT_DIRECTORY, path, StatAtFlags::empty())
}

/// The request for the file at `path`, or for the symbolic link that is
/// there.
pub fn lstat(path: &CPath) -> (r: Request)
    ensures
        asks(r, CURRENT_DIRECTORY, path@, StatAtFlags::SYMLINK_NOFOLLOW),
{
    fstatat(CURRENT_DIRECTORY, path, StatAtFlags::from_bits(StatAtFlags::SYMLINK_NOFOLLOW))
}

/// The request for the file that the descriptor `fd` refers to. A negative
/// number is no descriptor: no call is issued for it.
pub fn fstat(fd: RawFd) -> (r: Result<Request, Errno>)
    ensures
        r is Err <==> fd < 0,
        r matches Err(e) ==> e.code() == EBADF,
        r matches Ok(request) ==> asks(request, fd, seq![0u8], StatAtFlags::EMPTY_PATH),
{
    if fd < 0 {
        return Err(Errno::new(EBADF));
    }
    Ok(fstatat(fd, &CPath::empty(), StatAtFlags::from_bits(StatAtFlags::EMPTY_PATH)))
}

} // verus!
