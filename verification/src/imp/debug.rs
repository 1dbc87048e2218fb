//! The text of a kernel-level record: its name and, in braces, what its
//! accessors give.
use crate::imp::sys::Statx;
use crate::imp::Mode;
use crate::raw::debug::{push_timestamp, timestamp_text};
use crate::record::{StatFields, StatxFields};
use crate::text::{decimal, push_decimal, push_signed_decimal, signed_decimal};
use crate::Timestamp;
use vstd::prelude::*;
use vstd::string::*;

verus! {

/// What the values from the device to the device that the file stands for
/// print as, each behind its label.
pub open spec fn head_text(dev: u64, ino: u64, nlink: u32, mode: u16, uid: u32, gid: u32, rdev: u64)
    -> Seq<char> {
    "dev: "@ + decimal(dev as nat) + ", ino: "@ + decimal(ino as nat) + ", nlink: "@ + decimal(
        nlink as nat,
    ) + ", mode: Mode("@ + decimal(mode as nat) + "), uid: "@ + decimal(uid as nat) + ", gid: "@
        + decimal(gid as nat) + ", rdev: "@ + decimal(rdev as nat)
}

/// What size, block size, number of blocks and the time of the last access
/// print as, each behind its label.
pub open spec fn sizes_text(size: int, block_size: int, blocks: int, atime: (i64, u32)) -> Seq<
    char,
> {
    ", size: "@ + signed_decimal(size) + ", block_size: "@ + signed_decimal(block_size)
        + ", blocks: "@ + signed_decimal(blocks) + ", atime: "@ + timestamp_text(atime)
}

/// What a legacy record prints as under `name`.
pub open spec fn legacy_text(name: Seq<char>, f: StatFields) -> Seq<char> {
    name + " { "@ + head_text(f.dev, f.ino, f.nlink as u32, f.mode as u16, f.uid, f.gid, f.rdev)
        + sizes_text(
        f.size as int,
        (f.blksize as i32) as int,
        f.blocks as int,
        (f.atime, f.atime_nsec as u32),
    ) + ", mtime: "@ + timestamp_text((f.mtime, f.mtime_nsec as u32)) + ", ctime: "@
        + timestamp_text((f.ctime, f.ctime_nsec as u32)) + " }"@
}

/// What an extended record prints as under `name`.
pub open spec fn extended_text(name: Seq<char>, f: StatxFields) -> Seq<char> {
    name + " { "@ + head_text(
        crate::dev::pack64(f.dev_major, f.dev_minor),
        f.ino,
        f.nlink,
        f.mode,
        f.uid,
        f.gid,
        crate::dev::pack64(f.rdev_major, f.rdev_minor),
    ) + sizes_text(f.size as int, f.blksize as int, f.blocks as int, (f.atime, f.atime_nsec))
        + ", btime: "@ + timestamp_text((f.btime, f.btime_nsec)) + ", mtime: "@ + timestamp_text(
        (f.mtime, f.mtime_nsec),
    ) + ", ctime: "@ + timestamp_text((f.ctime, f.ctime_nsec)) + ", attributes: "@ + decimal(
        f.attributes as nat,
    ) + ", attributes_mask: StatXAttr("@ + decimal(f.attributes_mask as nat) + "), mount_id: "@
        + decimal(f.mnt_id as nat) + ", dio_mem_align: "@ + decimal(f.dio_mem_align as nat)
        + ", dio_offset_align: "@ + decimal(f.dio_offset_align as nat) + " }"@
}

fn push_head(
    out: &mut String,
    dev: u64,
    ino: u64,
    nlink: u32,
    mode: Mode,
    uid: u32,
    gid: u32,
    rdev: u64,
)
    ensures
        final(out)@ == old(out)@ + head_text(dev, ino, nlink, mode@, uid, gid, rdev),
{
    out.append("dev: ");
    push_decimal(out, dev);
    out.append(", ino: ");
    push_decimal(out, ino);
    out.append(", nlink: ");
    push_decimal(out, nlink as u64);
    out.append(", mode: Mode(");
    push_decimal(out, mode.as_u16() as u64);
    out.append("), uid: ");
    push_decimal(out, uid as u64);
    out.append(", gid: ");
    push_decimal(out, gid as u64);
    out.append(", rdev: ");
    push_decimal(out, rdev);
    assert(final(out)@ =~= old(out)@ + head_text(dev, ino, nlink, mode@, uid, gid, rdev));
}

/// The text of a legacy record under `name`, made of what its accessors
/// gave.
pub(crate) fn legacy_debug(
    name: &str,
    dev: u64,
    ino: u64,
    nlink: u32,
    mode: Mode,
    uid: u32,
    gid: u32,
    rdev: u64,
    size: i64,
    block_size: i32,
    blocks: i64,
    atime: Timestamp,
    mtime: Timestamp,
    ctime: Timestamp,
    Ghost(f): Ghost<StatFields>,
) -> (r: String)
    requires
        dev == f.dev,
        ino == f.ino,
        nlink == f.nlink as u32,
        mode@ == f.mode as u16,
        uid == f.uid,
        gid == f.gid,
        rdev == f.rdev,
        size == f.size,
        block_size == f.blksize as i32,
        blocks == f.blocks,
        atime@ == (f.atime, f.atime_nsec as u32),
        mtime@ == (f.mtime, f.mtime_nsec as u32),
        ctime@ == (f.ctime, f.ctime_nsec as u32),
    ensures
        r@ == legacy_text(name@, f),
{
    let mut out = String::new();
    out.append(name);
    out.append(" { ");
    push_head(&mut out, dev, ino, nlink, mode, uid, gid, rdev);
    out.append(", size: ");
    push_signed_decimal(&mut out, size);
    out.append(", block_size: ");
    push_signed_decimal(&mut out, block_size as i64);
    out.append(", blocks: ");
    push_signed_decimal(&mut out, blocks);
    out.append(", atime: ");
    push_timestamp(&mut out, atime);
    out.append(", mtime: ");
    push_timestamp(&mut out, mtime);
    out.append(", ctime: ");
    push_timestamp(&mut out, ctime);
    out.append(" }");
    assert(out@ =~= legacy_text(name@, f));
    out
}

impl Statx {
    /// The text of the record: its name and, in braces, what its accessors
    /// give.
    pub fn to_debug_string(&self) -> (r: String)
        ensures
            r@ == extended_text("stat"@, self@),
    {
        let mut out = String::new();
        out.append("stat");
        out.append(" { ");
        push_head(
            &mut out,
            self.dev(),
            self.ino(),
            self.nlink(),
            self.mode(),
            self.uid(),
            self.gid(),
            self.rdev(),
        );
        out.append(", size: ");
        push_decimal(&mut out, self.size());
        out.append(", block_size: ");
        push_decimal(&mut out, self.block_size() as u64);
        out.append(", blocks: ");
        push_decimal(&mut out, self.blocks());
        out.append(", atime: ");
        push_timestamp(&mut out, self.atime());
        out.append(", btime: ");
        push_timestamp(&mut out, self.btime());
        out.append(", mtime: ");
        push_timestamp(&mut out, self.mtime());
        out.append(", ctime: ");
        push_timestamp(&mut out, self.ctime());
        out.append(", attributes: ");
        push_decimal(&mut out, self.attributes());
        out.append(", attributes_mask: StatXAttr(");
        push_decimal(&mut out, self.attributes_mask().bits());
        out.append("), mount_id: ");
        push_decimal(&mut out, self.mount_id());
        out.append(", dio_mem_align: ");
        push_decimal(&mut out, self.dio_mem_align() as u64);
        out.append(", dio_offset_align: ");
        push_decimal(&mut out, self.dio_offset_align() as u64);
        out.append(" }");
        assert(out@ =~= extended_text("stat"@, self@));
        out
    }
}

} // verus!
