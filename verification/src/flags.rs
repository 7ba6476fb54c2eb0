//! The flag sets of the status calls. Each is a set of bits: `union`,
//! `intersection`, `insert` and `remove` work on the raw bits, while
//! `complement` and `from_bits_truncate` keep only the bits of declared flags.

#![allow(non_snake_case)]

use vstd::prelude::*;

verus! {

/// Flags of the `*at` system calls.
#[derive(Clone, Copy, Debug, PartialEq, Eq, Structural)]
pub struct AtFlags {
    pub bits: i32,
}

/// The bits of all declared `AtFlags`: `0x8000_FF00`, from `AT_SYMLINK_NOFOLLOW`
/// (`0x100`) to `AT_RECURSIVE` (`0x8000`), and `AT_GETATTR_NOSEC` (the sign bit).
pub const AT_FLAGS_ALL: i32 = -2147418368i32;

impl AtFlags {
    /// Do not follow a symbolic link at the end of the path.
    pub fn AT_SYMLINK_NOFOLLOW() -> (r: Self)
        ensures
            r.bits == 0x100,
    {
        AtFlags { bits: 0x100 }
    }

    /// Do not trigger an automount at the end of the path.
    pub fn AT_NO_AUTOMOUNT() -> (r: Self)
        ensures
            r.bits == 0x800,
    {
        AtFlags { bits: 0x800 }
    }

    /// An empty path names the directory file descriptor itself.
    pub fn AT_EMPTY_PATH() -> (r: Self)
        ensures
            r.bits == 0x1000,
    {
        AtFlags { bits: 0x1000 }
    }

    /// The two bits that choose how `statx` synchronises with the file system.
    pub fn AT_STATX_SYNC_TYPE() -> (r: Self)
        ensures
            r.bits == 0x6000,
    {
        AtFlags { bits: 0x6000 }
    }

    /// Skip the security check of `getattr`.
    pub fn AT_GETATTR_NOSEC() -> (r: Self)
        ensures
            r.bits == i32::MIN,
    {
        AtFlags { bits: i32::MIN }
    }

    /// No flag set.
    pub fn empty() -> (r: Self)
        ensures
            r.bits == 0,
    {
        AtFlags { bits: 0 }
    }

    /// The flags among `bits`, other bits dropped.
    pub fn from_bits_truncate(bits: i32) -> (r: Self)
        ensures
            r.bits == bits & AT_FLAGS_ALL,
    {
        AtFlags { bits: bits & AT_FLAGS_ALL }
    }

    /// Whether every bit of `other` is set in `self`.
    pub fn contains(&self, other: Self) -> (r: bool)
        ensures
            r == (self.bits & other.bits == other.bits),
    {
        self.bits & other.bits == other.bits
    }

    /// Whether some bit of `other` is set in `self`.
    pub fn intersects(&self, other: Self) -> (r: bool)
        ensures
            r == (self.bits & other.bits != 0),
    {
        self.bits & other.bits != 0
    }

    /// The bits set in either.
    pub fn union(self, other: Self) -> (r: Self)
        ensures
            r.bits == self.bits | other.bits,
    {
        AtFlags { bits: self.bits | other.bits }
    }

    /// The declared flags not set in `self`.
    pub fn complement(self) -> (r: Self)
        ensures
            r.bits == !self.bits & AT_FLAGS_ALL,
    {
        AtFlags { bits: !self.bits & AT_FLAGS_ALL }
    }
}

/// The attributes that a `statx` caller asks for, and that a result holds.
#[derive(Clone, Copy, Debug, PartialEq, Eq, Structural)]
pub struct PosixStatxMask {
    pub bits: u32,
}

/// The bits of all declared `PosixStatxMask` flags: `STATX_TYPE` (`0x1`) to
/// `STATX_MNT_ID_UNIQUE` (`0x4000`), the change cookie and the reserved bit.
pub const STATX_MASK_ALL: u32 = 0xC000_7FFFu32;

impl PosixStatxMask {
    /// The file type.
    pub fn STATX_TYPE() -> (r: Self)
        ensures
            r.bits == 0x1,
    {
        PosixStatxMask { bits: 0x1 }
    }

    /// The permission bits of the mode.
    pub fn STATX_MODE() -> (r: Self)
        ensures
            r.bits == 0x2,
    {
        PosixStatxMask { bits: 0x2 }
    }

    /// The link count.
    pub fn STATX_NLINK() -> (r: Self)
        ensures
            r.bits == 0x4,
    {
        PosixStatxMask { bits: 0x4 }
    }

    /// The owner.
    pub fn STATX_UID() -> (r: Self)
        ensures
            r.bits == 0x8,
    {
        PosixStatxMask { bits: 0x8 }
    }

    /// The group.
    pub fn STATX_GID() -> (r: Self)
        ensures
            r.bits == 0x10,
    {
        PosixStatxMask { bits: 0x10 }
    }

    /// The last access time.
    pub fn STATX_ATIME() -> (r: Self)
        ensures
            r.bits == 0x20,
    {
        PosixStatxMask { bits: 0x20 }
    }

    /// The last modification time.
    pub fn STATX_MTIME() -> (r: Self)
        ensures
            r.bits == 0x40,
    {
        PosixStatxMask { bits: 0x40 }
    }

    /// The last status change time.
    pub fn STATX_CTIME() -> (r: Self)
        ensures
            r.bits == 0x80,
    {
        PosixStatxMask { bits: 0x80 }
    }

    /// The inode number.
    pub fn STATX_INO() -> (r: Self)
        ensures
            r.bits == 0x100,
    {
        PosixStatxMask { bits: 0x100 }
    }

    /// The size.
    pub fn STATX_SIZE() -> (r: Self)
        ensures
            r.bits == 0x200,
    {
        PosixStatxMask { bits: 0x200 }
    }

    /// The number of blocks.
    pub fn STATX_BLOCKS() -> (r: Self)
        ensures
            r.bits == 0x400,
    {
        PosixStatxMask { bits: 0x400 }
    }

    /// All that the older `stat` call returns: type to blocks.
    pub fn STATX_BASIC_STATS() -> (r: Self)
        ensures
            r.bits == 0x7ff,
    {
        PosixStatxMask { bits: 0x7ff }
    }

    /// The creation time.
    pub fn STATX_BTIME() -> (r: Self)
        ensures
            r.bits == 0x800,
    {
        PosixStatxMask { bits: 0x800 }
    }

    /// The basic stats and the creation time.
    pub fn STATX_ALL() -> (r: Self)
        ensures
            r.bits == 0xfff,
    {
        PosixStatxMask { bits: 0xfff }
    }

    /// The change cookie, which is never handed to user space.
    pub fn STATX_CHANGE_COOKIE() -> (r: Self)
        ensures
            r.bits == 0x4000_0000,
    {
        PosixStatxMask { bits: 0x4000_0000 }
    }

    /// Reserved for a future extension of the structure.
    pub fn STATX_RESERVED() -> (r: Self)
        ensures
            r.bits == 0x8000_0000,
    {
        PosixStatxMask { bits: 0x8000_0000 }
    }

    /// No flag set.
    pub fn empty() -> (r: Self)
        ensures
            r.bits == 0,
    {
        PosixStatxMask { bits: 0 }
    }

    /// The flags among `bits`, other bits dropped.
    pub fn from_bits_truncate(bits: u32) -> (r: Self)
        ensures
            r.bits == bits & STATX_MASK_ALL,
    {
        PosixStatxMask { bits: bits & STATX_MASK_ALL }
    }

    /// Whether every bit of `other` is set in `self`.
    pub fn contains(&self, other: Self) -> (r: bool)
        ensures
            r == (self.bits & other.bits == other.bits),
    {
        self.bits & other.bits == other.bits
    }

    /// Sets the bits of `other`.
    pub fn insert(&mut self, other: Self)
        ensures
            final(self).bits == old(self).bits | other.bits,
    {
        self.bits = self.bits | other.bits;
    }

    /// Clears the bits of `other`.
    pub fn remove(&mut self, other: Self)
        ensures
            final(self).bits == old(self).bits & !other.bits,
    {
        self.bits = self.bits & !other.bits;
    }

    /// The bits set in both.
    pub fn intersection(self, other: Self) -> (r: Self)
        ensures
            r.bits == self.bits & other.bits,
    {
        PosixStatxMask { bits: self.bits & other.bits }
    }

    /// The declared flags not set in `self`.
    pub fn complement(self) -> (r: Self)
        ensures
            r.bits == !self.bits & STATX_MASK_ALL,
    {
        PosixStatxMask { bits: !self.bits & STATX_MASK_ALL }
    }
}

/// Attributes of a file reported by `statx`.
#[derive(Clone, Copy, Debug, PartialEq, Eq, Structural)]
pub struct StxAttributes {
    pub bits: u64,
}

/// The bits of all declared `StxAttributes`: compressed, immutable, append,
/// nodump, encrypted, automount, mount root, verity, dax and the monotonic
/// change cookie.
pub const STX_ATTRIBUTES_ALL: u64 = 0x8000_0000_0030_3874u64;

impl StxAttributes {
    /// The file can only be opened in append mode.
    pub fn STATX_ATTR_APPEND() -> (r: Self)
        ensures
            r.bits == 0x20,
    {
        StxAttributes { bits: 0x20 }
    }

    /// The directory is an automount trigger.
    pub fn STATX_ATTR_AUTOMOUNT() -> (r: Self)
        ensures
            r.bits == 0x1000,
    {
        StxAttributes { bits: 0x1000 }
    }

    /// The file is the root of a mount.
    pub fn STATX_ATTR_MOUNT_ROOT() -> (r: Self)
        ensures
            r.bits == 0x2000,
    {
        StxAttributes { bits: 0x2000 }
    }

    /// The file is in direct access mode.
    pub fn STATX_ATTR_DAX() -> (r: Self)
        ensures
            r.bits == 0x20_0000,
    {
        StxAttributes { bits: 0x20_0000 }
    }

    /// The change cookie increases monotonically; kept inside the kernel.
    pub fn STATX_ATTR_CHANGE_MONOTONIC() -> (r: Self)
        ensures
            r.bits == 0x8000_0000_0000_0000,
    {
        StxAttributes { bits: 0x8000_0000_0000_0000 }
    }

    /// No flag set.
    pub fn empty() -> (r: Self)
        ensures
            r.bits == 0,
    {
        StxAttributes { bits: 0 }
    }

    /// Sets the bits of `other`.
    pub fn insert(&mut self, other: Self)
        ensures
            final(self).bits == old(self).bits | other.bits,
    {
        self.bits = self.bits | other.bits;
    }

    /// The bits set in either.
    pub fn union(self, other: Self) -> (r: Self)
        ensures
            r.bits == self.bits | other.bits,
    {
        StxAttributes { bits: self.bits | other.bits }
    }

    /// The bits set in both.
    pub fn intersection(self, other: Self) -> (r: Self)
        ensures
            r.bits == self.bits & other.bits,
    {
        StxAttributes { bits: self.bits & other.bits }
    }

    /// The declared flags not set in `self`.
    pub fn complement(self) -> (r: Self)
        ensures
            r.bits == !self.bits & STX_ATTRIBUTES_ALL,
    {
        StxAttributes { bits: !self.bits & STX_ATTRIBUTES_ALL }
    }
}

/// The mode of a file: its type and its permission bits.
#[derive(Clone, Copy, Debug, PartialEq, Eq, Structural)]
pub struct ModeType {
    pub bits: u32,
}

impl ModeType {
    /// Socket.
    pub fn S_IFSOCK() -> (r: Self)
        ensures
            r.bits == 0o140000,
    {
        ModeType { bits: 0o140000 }
    }

    /// Symbolic link.
    pub fn S_IFLNK() -> (r: Self)
        ensures
            r.bits == 0o120000,
    {
        ModeType { bits: 0o120000 }
    }

    /// Regular file.
    pub fn S_IFREG() -> (r: Self)
        ensures
            r.bits == 0o100000,
    {
        ModeType { bits: 0o100000 }
    }

    /// Block device.
    pub fn S_IFBLK() -> (r: Self)
        ensures
            r.bits == 0o060000,
    {
        ModeType { bits: 0o060000 }
    }

    /// Directory.
    pub fn S_IFDIR() -> (r: Self)
        ensures
            r.bits == 0o040000,
    {
        ModeType { bits: 0o040000 }
    }

    /// Character device.
    pub fn S_IFCHR() -> (r: Self)
        ensures
            r.bits == 0o020000,
    {
        ModeType { bits: 0o020000 }
    }

    /// Named pipe.
    pub fn S_IFIFO() -> (r: Self)
        ensures
            r.bits == 0o010000,
    {
        ModeType { bits: 0o010000 }
    }

    /// No bit set.
    pub fn empty() -> (r: Self)
        ensures
            r.bits == 0,
    {
        ModeType { bits: 0 }
    }

    /// The raw mode.
    pub fn bits(&self) -> (r: u32)
        ensures
            r == self.bits,
    {
        self.bits
    }

    /// The bits set in either.
    pub fn union(self, other: Self) -> (r: Self)
        ensures
            r.bits == self.bits | other.bits,
    {
        ModeType { bits: self.bits | other.bits }
    }
}

/// How a path walk proceeds.
#[derive(Clone, Copy, Debug, PartialEq, Eq, Structural)]
pub struct LookUpFlags {
    pub bits: u32,
}

impl LookUpFlags {
    /// Follow a symbolic link at the end of the path.
    pub fn FOLLOW() -> (r: Self)
        ensures
            r.bits == 0x1,
    {
        LookUpFlags { bits: 0x1 }
    }

    /// Trigger an automount at the end of the path.
    pub fn AUTOMOUNT() -> (r: Self)
        ensures
            r.bits == 0x4,
    {
        LookUpFlags { bits: 0x4 }
    }

    /// Accept an empty path.
    pub fn EMPTY() -> (r: Self)
        ensures
            r.bits == 0x4000,
    {
        LookUpFlags { bits: 0x4000 }
    }

    /// No flag set.
    pub fn empty() -> (r: Self)
        ensures
            r.bits == 0,
    {
        LookUpFlags { bits: 0 }
    }

    /// Sets the bits of `other`.
    pub fn insert(&mut self, other: Self)
        ensures
            final(self).bits == old(self).bits | other.bits,
    {
        self.bits = self.bits | other.bits;
    }
}

/// The path-walk flags that `at` asks for: follow the final link unless
/// `AT_SYMLINK_NOFOLLOW`, trigger automounts unless `AT_NO_AUTOMOUNT`, accept
/// an empty path with `AT_EMPTY_PATH`.
pub open spec fn lookup_bits_of(at: AtFlags) -> u32 {
    (if at.bits & 0x100 == 0x100 { 0u32 } else { 0x1u32 }) | (if at.bits & 0x800 == 0x800 {
        0u32
    } else {
        0x4u32
    }) | (if at.bits & 0x1000 == 0x1000 { 0x4000u32 } else { 0u32 })
}

impl From<AtFlags> for LookUpFlags {
    fn from(value: AtFlags) -> (r: Self) {
        let mut lookup_flags = LookUpFlags::empty();
        let ghost nofollow: bool = value.bits & 0x100 == 0x100;
        let ghost noauto: bool = value.bits & 0x800 == 0x800;
        let ghost empty: bool = value.bits & 0x1000 == 0x1000;

        if !value.contains(AtFlags::AT_SYMLINK_NOFOLLOW()) {
            lookup_flags.insert(LookUpFlags::FOLLOW());
        }
        let ghost b1: u32 = lookup_flags.bits;
        if !value.contains(AtFlags::AT_NO_AUTOMOUNT()) {
            lookup_flags.insert(LookUpFlags::AUTOMOUNT());
        }
        let ghost b2: u32 = lookup_flags.bits;
        if value.contains(AtFlags::AT_EMPTY_PATH()) {
            lookup_flags.insert(LookUpFlags::EMPTY());
        }
        let ghost b3: u32 = lookup_flags.bits;
        assert(b3 == (if nofollow { 0u32 } else { 0x1u32 }) | (if noauto { 0u32 } else {
            0x4u32
        }) | (if empty { 0x4000u32 } else { 0u32 })) by (bit_vector)
            requires
                nofollow ==> b1 == 0u32,
                !nofollow ==> b1 == (0u32 | 0x1u32),
                noauto ==> b2 == b1,
                !noauto ==> b2 == (b1 | 0x4u32),
                empty ==> b3 == (b2 | 0x4000u32),
                !empty ==> b3 == b2,
        ;
        lookup_flags
    }
}

impl vstd::std_specs::convert::FromSpecImpl<AtFlags> for LookUpFlags {
    open spec fn obeys_from_spec() -> bool {
        true
    }

    open spec fn from_spec(v: AtFlags) -> LookUpFlags {
        LookUpFlags { bits: lookup_bits_of(v) }
    }
}

/// The path walk follows a final symbolic link exactly when
/// `AT_SYMLINK_NOFOLLOW` (0x100) is not set, triggers automounts exactly when
/// `AT_NO_AUTOMOUNT` (0x800) is not set, and accepts an empty path exactly when
/// `AT_EMPTY_PATH` (0x1000) is set, whatever the other flags are; it asks for
/// nothing else.
pub proof fn lemma_lookup_bits_of(at: AtFlags)
    ensures
        (lookup_bits_of(at) & 0x1 == 0x1) == (at.bits & 0x100 != 0x100),
        (lookup_bits_of(at) & 0x4 == 0x4) == (at.bits & 0x800 != 0x800),
        (lookup_bits_of(at) & 0x4000 == 0x4000) == (at.bits & 0x1000 == 0x1000),
        lookup_bits_of(at) & !0x4005u32 == 0,
{
    let b = at.bits;
    let nofollow = b & 0x100 == 0x100;
    let noauto = b & 0x800 == 0x800;
    let empty = b & 0x1000 == 0x1000;
    let l = lookup_bits_of(at);
    assert(l == (if nofollow { 0u32 } else { 0x1u32 }) | (if noauto { 0u32 } else { 0x4u32 }) | (
    if empty { 0x4000u32 } else { 0u32 }));
    assert((l & 0x1 == 0x1) == !nofollow && (l & 0x4 == 0x4) == !noauto && (l & 0x4000 == 0x4000)
        == empty && l & !0x4005u32 == 0) by (bit_vector)
        requires
            l == (if nofollow { 0u32 } else { 0x1u32 }) | (if noauto { 0u32 } else { 0x4u32 }) | (
            if empty { 0x4000u32 } else { 0u32 }),
    ;
}

} // verus!
