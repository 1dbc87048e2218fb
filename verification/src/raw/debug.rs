//! The text of a record: its name and, in braces, what its accessors give.
use super::{extended_metadata, stat, Statx};
use crate::dev::debug_pair;
use crate::record::{Metadata, StatxFields};
use crate::text::{decimal, push_decimal, push_signed_decimal, signed_decimal};
use crate::unified::Stat;
use crate::{mode_text, Dev, Mode, Timestamp, S_IFMT};
use vstd::prelude::*;
use vstd::string::*;

verus! {

/// What a timestamp prints as.
pub open spec fn timestamp_text(t: (i64, u32)) -> Seq<char> {
    "Timestamp { secs: "@ + signed_decimal(t.0 as int) + ", nsecs: "@ + decimal(t.1 as nat) + " }"@
}

/// What the values that all records share print as, each behind its label.
pub open spec fn shared_text(m: Metadata) -> Seq<char> {
    "dev: "@ + debug_pair("Dev"@, m.dev) + ", ino: "@ + decimal(m.ino as nat) + ", nlink: "@
        + decimal(m.nlink as nat) + ", mode: "@ + mode_text(m.mode & !S_IFMT) + ", uid: "@ + decimal(
        m.uid as nat,
    ) + ", gid: "@ + decimal(m.gid as nat) + ", rdev: "@ + debug_pair("Dev"@, m.rdev) + ", size: "@
        + signed_decimal(m.size as int) + ", block_size: "@ + signed_decimal(m.block_size as int)
        + ", blocks: "@ + signed_decimal(m.blocks as int) + ", atime: "@ + timestamp_text(m.atime)
}

/// What a legacy record prints as under `name`.
pub open spec fn legacy_text(name: Seq<char>, m: Metadata) -> Seq<char> {
    name + " { "@ + shared_text(m) + ", mtime: "@ + timestamp_text(m.mtime) + ", ctime: "@
        + timestamp_text(m.ctime) + " }"@
}

/// What an extended record prints as under `name`.
pub open spec fn extended_text(name: Seq<char>, f: StatxFields) -> Seq<char> {
    name + " { "@ + shared_text(extended_metadata(f)) + ", btime: "@ + timestamp_text(
        (f.btime, f.btime_nsec),
    ) + ", mtime: "@ + timestamp_text((f.mtime, f.mtime_nsec)) + ", ctime: "@ + timestamp_text(
        (f.ctime, f.ctime_nsec),
    ) + ", attributes: "@ + decimal(f.attributes as nat) + ", attributes_mask: StatXAttr("@
        + decimal(f.attributes_mask as nat) + "), mount_id: "@ + decimal(f.mnt_id as nat)
        + ", dio_mem_align: "@ + decimal(f.dio_mem_align as nat) + ", dio_offset_align: "@
        + decimal(f.dio_offset_align as nat) + " }"@
}

pub(crate) fn push_timestamp(out: &mut String, t: Timestamp)
    ensures
        final(out)@ == old(out)@ + timestamp_text(t@),
{
    out.append("Timestamp { secs: ");
    push_signed_decimal(out, t.seconds());
    out.append(", nsecs: ");
    push_decimal(out, t.nanoseconds() as u64);
    out.append(" }");
    assert(final(out)@ =~= old(out)@ + timestamp_text(t@));
}

fn push_shared(
    out: &mut String,
    dev: Dev,
    ino: u64,
    nlink: u32,
    mode: Mode,
    uid: u32,
    gid: u32,
    rdev: Dev,
    size: i64,
    block_size: i32,
    blocks: i64,
    atime: Timestamp,
    Ghost(m): Ghost<Metadata>,
)
    requires
        dev.pair() == m.dev,
        ino == m.ino,
        nlink == m.nlink,
        mode@ == m.mode & !S_IFMT,
        uid == m.uid,
        gid == m.gid,
        rdev.pair() == m.rdev,
        size == m.size,
        block_size == m.block_size,
        blocks == m.blocks,
        atime@ == m.atime,
    ensures
        final(out)@ == old(out)@ + shared_text(m),
{
    out.append("dev: ");
    let text = Dev::from_split(dev.major(), dev.minor()).to_debug_string();
    out.append(text.as_str());
    out.append(", ino: ");
    push_decimal(out, ino);
    out.append(", nlink: ");
    push_decimal(out, nlink as u64);
    out.append(", mode: ");
    let text = mode.to_debug_string();
    out.append(text.as_str());
    out.append(", uid: ");
    push_decimal(out, uid as u64);
    out.append(", gid: ");
    push_decimal(out, gid as u64);
    out.append(", rdev: ");
    let text = Dev::from_split(rdev.major(), rdev.minor()).to_debug_string();
    out.append(text.as_str());
    out.append(", size: ");
    push_signed_decimal(out, size);
    out.append(", block_size: ");
    push_signed_decimal(out, block_size as i64);
    out.append(", blocks: ");
    push_signed_decimal(out, blocks);
    out.append(", atime: ");
    push_timestamp(out, atime);
    assert(final(out)@ =~= old(out)@ + shared_text(m));
}

impl stat {
    /// The text of the record under `name`.
    pub fn debug(&self, name: &str) -> (r: String)
        ensures
            r@ == legacy_text(name@, self.metadata()),
    {
        let mut out = String::new();
        out.append(name);
        out.append(" { ");
        push_shared(
            &mut out,
            self.dev(),
            self.inode(),
            self.nlink(),
            self.mode(),
            self.uid(),
            self.gid(),
            self.rdev(),
            self.size(),
            self.block_size(),
            self.blocks(),
            self.atime(),
            Ghost(self.metadata()),
        );
        out.append(", mtime: ");
        push_timestamp(&mut out, self.mtime());
        out.append(", ctime: ");
        push_timestamp(&mut out, self.ctime());
        out.append(" }");
        assert(out@ =~= legacy_text(name@, self.metadata()));
        out
    }

    /// The text of the record.
    pub fn to_debug_string(&self) -> (r: String)
        ensures
            r@ == legacy_text("stat"@, self.metadata()),
    {
        self.debug("stat")
    }
}

impl Statx {
    /// The text of the record under `name`.
    pub fn debug(&self, name: &str) -> (r: String)
        ensures
            r@ == extended_text(name@, self@),
    {
        let mut out = String::new();
        out.append(name);
        out.append(" { ");
        push_shared(
            &mut out,
            self.dev(),
            self.inode(),
            self.nlink(),
            self.mode(),
            self.uid(),
            self.gid(),
            self.rdev(),
            self.size(),
            self.block_size(),
            self.blocks(),
            self.atime(),
            Ghost(self.metadata()),
        );
        out.append(", btime: ");
        push_timestamp(&mut out, self.btime());
        out.append(", mtime: ");
        push_timestamp(&mut out, self.mtime());
        out.append(", ctime: ");
        push_timestamp(&mut out, self.ctime());
        out.append(", attributes: ");
        push_decimal(&mut out, self.attributes());
        out.append(", attributes_mask: StatXAttr(");
        push_decimal(&mut out, self.attributes_mask().bits());
        out.append("), mount_id: ");
        push_decimal(&mut out, self.mount_id());
        out.append(", dio_mem_align: ");
        push_decimal(&mut out, self.dio_mem_align() as u64);
        out.append(", dio_offset_align: ");
        push_decimal(&mut out, self.dio_offset_align() as u64);
        out.append(" }");
        assert(out@ =~= extended_text(name@, self@));
        out
    }

    /// The text of the record.
    pub fn to_debug_string(&self) -> (r: String)
        ensures
            r@ == extended_text("Statx"@, self@),
    {
        self.debug("Statx")
    }
}

impl Stat {
    /// The text of the record, whichever call it came from.
    pub fn to_debug_string(&self) -> (r: String)
        ensures
            r@ == match self {
                Stat::Stat64(s) => legacy_text("Stat"@, s.metadata()),
                Stat::Statx(s) => extended_text("Stat"@, s@),
            },
    {
        match self {
            Stat::Stat64(s) => s.debug("Stat"),
            Stat::Statx(s) => s.debug("Stat"),
        }
    }
}

} // verus!
