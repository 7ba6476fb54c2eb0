//! The kernel's record of a file's status, how it is filled from the file's
//! metadata, and the calls that look a file up and stat it.

use vstd::prelude::*;

use crate::device::DeviceNumber;
use crate::error::SystemError;
use crate::flags::{
    lookup_bits_of, AtFlags, LookUpFlags, ModeType, PosixStatxMask, StxAttributes, AT_FLAGS_ALL,
    STATX_MASK_ALL,
};
use crate::inode::{file_type_mode_bits, IndexNode, Metadata};
use crate::time::{time_zero, PosixTimeSpec};

verus! {

/// The status of a file as the kernel gathers it for `stat` and `statx`.
#[derive(Clone, Copy, Debug, PartialEq, Eq, Structural)]
pub struct KStat {
    /// Which fields the caller got.
    pub result_mask: PosixStatxMask,
    pub mode: ModeType,
    pub nlink: u32,
    /// Preferred I/O size.
    pub blksize: u32,
    pub attributes: StxAttributes,
    pub attributes_mask: StxAttributes,
    pub ino: u64,
    pub dev: DeviceNumber,
    pub rdev: DeviceNumber,
    pub uid: u32,
    pub gid: u32,
    pub size: usize,
    pub atime: PosixTimeSpec,
    pub mtime: PosixTimeSpec,
    pub ctime: PosixTimeSpec,
    /// Creation time.
    pub btime: PosixTimeSpec,
    pub blocks: u64,
    pub mnt_id: u64,
    pub dio_mem_align: u32,
    pub dio_offset_align: u32,
}

/// The status with every field zero and every flag set empty.
pub open spec fn kstat_zero() -> KStat {
    KStat {
        result_mask: PosixStatxMask { bits: 0 },
        mode: ModeType { bits: 0 },
        nlink: 0,
        blksize: 0,
        attributes: StxAttributes { bits: 0 },
        attributes_mask: StxAttributes { bits: 0 },
        ino: 0,
        dev: DeviceNumber { data: 0 },
        rdev: DeviceNumber { data: 0 },
        uid: 0,
        gid: 0,
        size: 0,
        atime: time_zero(),
        mtime: time_zero(),
        ctime: time_zero(),
        btime: time_zero(),
        blocks: 0,
        mnt_id: 0,
        dio_mem_align: 0,
        dio_offset_align: 0,
    }
}

impl Default for KStat {
    fn default() -> (r: Self)
        ensures
            r == kstat_zero(),
            r.result_mask.bits == 0,
            r.mode.bits == 0,
            r.nlink == 0,
            r.blksize == 0,
            r.attributes.bits == 0,
            r.attributes_mask.bits == 0,
            r.ino == 0,
            r.dev.data == 0,
            r.rdev.data == 0,
            r.uid == 0,
            r.gid == 0,
            r.size == 0,
            r.atime.tv_sec == 0,
            r.atime.tv_nsec == 0,
            r.mtime.tv_sec == 0,
            r.mtime.tv_nsec == 0,
            r.ctime.tv_sec == 0,
            r.ctime.tv_nsec == 0,
            r.btime.tv_sec == 0,
            r.btime.tv_nsec == 0,
            r.blocks == 0,
            r.mnt_id == 0,
            r.dio_mem_align == 0,
            r.dio_offset_align == 0,
    {
        KStat {
            result_mask: PosixStatxMask::empty(),
            mode: ModeType::empty(),
            nlink: 0,
            blksize: 0,
            attributes: StxAttributes::empty(),
            attributes_mask: StxAttributes::empty(),
            ino: 0,
            dev: DeviceNumber::default(),
            rdev: DeviceNumber::default(),
            uid: 0,
            gid: 0,
            size: 0,
            atime: PosixTimeSpec::default(),
            mtime: PosixTimeSpec::default(),
            ctime: PosixTimeSpec::default(),
            btime: PosixTimeSpec::default(),
            blocks: 0,
            mnt_id: 0,
            dio_mem_align: 0,
            dio_offset_align: 0,
        }
    }
}

/// Whether `mask` asks for every bit of `flag`.
pub open spec fn asks(mask: PosixStatxMask, flag: u32) -> bool {
    mask.bits & flag == flag
}

/// The status that `getattr` gathers from `md` for a caller that asks for
/// `request_mask`: the basic fields are always marked as returned, but for the
/// access time where it is zero; the block size and the file type are always
/// filled; each other basic field and the creation time only where asked for;
/// attributes and device numbers only where all of `STATX_ALL` is asked for.
pub open spec fn kstat_of(md: Metadata, request_mask: PosixStatxMask) -> KStat {
    let all = asks(request_mask, 0xfff);
    KStat {
        result_mask: PosixStatxMask {
            bits: if md.atime == time_zero() {
                0x7dfu32
            } else {
                0x7ffu32
            },
        },
        mode: ModeType {
            bits: (if asks(request_mask, 0x2) || asks(request_mask, 0x1) {
                md.mode.bits
            } else {
                0u32
            }) | file_type_mode_bits(md.file_type),
        },
        nlink: if asks(request_mask, 0x4) {
            md.nlinks as u32
        } else {
            0
        },
        blksize: md.blk_size as u32,
        attributes: StxAttributes { bits: if all { 0x20u64 } else { 0u64 } },
        attributes_mask: StxAttributes { bits: if all { 0x20_1000u64 } else { 0u64 } },
        ino: if asks(request_mask, 0x100) {
            md.inode_id as u64
        } else {
            0
        },
        dev: DeviceNumber { data: if all { md.dev_id as u32 } else { 0 } },
        rdev: if all {
            md.raw_dev
        } else {
            DeviceNumber { data: 0 }
        },
        uid: if asks(request_mask, 0x8) {
            md.uid as u32
        } else {
            0
        },
        gid: if asks(request_mask, 0x10) {
            md.gid as u32
        } else {
            0
        },
        size: if asks(request_mask, 0x200) {
            md.size as usize
        } else {
            0
        },
        atime: if asks(request_mask, 0x20) {
            md.atime
        } else {
            time_zero()
        },
        mtime: if asks(request_mask, 0x40) {
            md.mtime
        } else {
            time_zero()
        },
        ctime: if asks(request_mask, 0x80) {
            md.ctime
        } else {
            time_zero()
        },
        btime: if asks(request_mask, 0x800) {
            md.btime
        } else {
            time_zero()
        },
        blocks: if asks(request_mask, 0x400) {
            md.blocks as u64
        } else {
            0
        },
        mnt_id: 0,
        dio_mem_align: 0,
        dio_offset_align: 0,
    }
}

/// Fills a status from the metadata of a file, for a caller that asks for
/// `request_mask`.
#[verifier::rlimit(30)]
pub fn kstat_from_metadata(metadata: &Metadata, request_mask: PosixStatxMask) -> (r: KStat)
    ensures
        r == kstat_of(*metadata, request_mask),
{
    let ghost goal = kstat_of(*metadata, request_mask);
    let mut kstat = KStat::default();
    kstat.result_mask.insert(PosixStatxMask::STATX_BASIC_STATS());
    assert(0u32 | 0x7ffu32 == 0x7ffu32) by (bit_vector);
    if metadata.atime.is_empty() {
        kstat.result_mask.remove(PosixStatxMask::STATX_ATIME());
        assert(0x7ffu32 & !0x20u32 == 0x7dfu32) by (bit_vector);
    }
    assert(kstat.result_mask == goal.result_mask);
    kstat.blksize = metadata.blk_size as u32;
    if request_mask.contains(PosixStatxMask::STATX_MODE()) || request_mask.contains(
        PosixStatxMask::STATX_TYPE(),
    ) {
        kstat.mode = metadata.mode;
    }
    if request_mask.contains(PosixStatxMask::STATX_NLINK()) {
        kstat.nlink = metadata.nlinks as u32;
    }
    assert(kstat.nlink == goal.nlink);
    if request_mask.contains(PosixStatxMask::STATX_UID()) {
        kstat.uid = metadata.uid as u32;
    }
    assert(kstat.uid == goal.uid);
    if request_mask.contains(PosixStatxMask::STATX_GID()) {
        kstat.gid = metadata.gid as u32;
    }
    assert(kstat.gid == goal.gid);
    if request_mask.contains(PosixStatxMask::STATX_ATIME()) {
        kstat.atime.tv_sec = metadata.atime.tv_sec;
        kstat.atime.tv_nsec = metadata.atime.tv_nsec;
    }
    assert(kstat.atime == goal.atime);
    if request_mask.contains(PosixStatxMask::STATX_MTIME()) {
        kstat.mtime.tv_sec = metadata.mtime.tv_sec;
        kstat.mtime.tv_nsec = metadata.mtime.tv_nsec;
    }
    assert(kstat.mtime == goal.mtime);
    if request_mask.contains(PosixStatxMask::STATX_CTIME()) {
        kstat.ctime.tv_sec = metadata.ctime.tv_sec;
        kstat.ctime.tv_nsec = metadata.ctime.tv_nsec;
    }
    assert(kstat.ctime == goal.ctime);
    if request_mask.contains(PosixStatxMask::STATX_INO()) {
        kstat.ino = metadata.inode_id as u64;
    }
    assert(kstat.ino == goal.ino);
    if request_mask.contains(PosixStatxMask::STATX_SIZE()) {
        kstat.size = metadata.size as usize;
    }
    assert(kstat.size == goal.size);
    if request_mask.contains(PosixStatxMask::STATX_BLOCKS()) {
        kstat.blocks = metadata.blocks as u64;
    }
    assert(kstat.blocks == goal.blocks);
    if request_mask.contains(PosixStatxMask::STATX_BTIME()) {
        kstat.btime.tv_sec = metadata.btime.tv_sec;
        kstat.btime.tv_nsec = metadata.btime.tv_nsec;
    }
    assert(kstat.btime == goal.btime);
    if request_mask.contains(PosixStatxMask::STATX_ALL()) {
        kstat.attributes = StxAttributes::STATX_ATTR_APPEND();
        kstat.attributes_mask.insert(
            StxAttributes::STATX_ATTR_AUTOMOUNT().union(StxAttributes::STATX_ATTR_DAX()),
        );
        assert(0u64 | (0x1000u64 | 0x20_0000u64) == 0x20_1000u64) by (bit_vector);
        kstat.dev = DeviceNumber::from(metadata.dev_id as u32);
        kstat.rdev = metadata.raw_dev;
    }
    kstat.mode = kstat.mode.union(metadata.file_type.into());
    kstat
}

/// Asks the file system for the status of `inode`, for a caller that asks
/// for `request_mask`, under the query flags `at_flags`.
pub fn vfs_getattr<I: IndexNode + ?Sized>(
    inode: &I,
    request_mask: PosixStatxMask,
    at_flags: AtFlags,
) -> (r: Result<KStat, SystemError>)
    ensures
        at_flags.bits & i32::MIN == i32::MIN ==> r == Err::<KStat, SystemError>(SystemError::EPERM),
        r matches Ok(k) ==> exists|md: Metadata| k == kstat_of(md, request_mask),
{
    if at_flags.contains(AtFlags::AT_GETATTR_NOSEC()) {
        return Err(SystemError::EPERM);
    }
    let metadata = inode.metadata()?;
    Ok(kstat_from_metadata(&metadata, request_mask))
}

/// The `AtFlags` that `statx` refuses: every declared flag but
/// `AT_SYMLINK_NOFOLLOW`, `AT_NO_AUTOMOUNT`, `AT_EMPTY_PATH` and the sync type.
pub open spec fn statx_refused_bits() -> i32 {
    !(0x100i32 | 0x800i32 | 0x1000i32 | 0x6000i32) & AT_FLAGS_ALL
}

/// Checks the flags of a `statx` call and gives the path-walk flags for its
/// lookup: `EINVAL` where a flag other than `AT_SYMLINK_NOFOLLOW`,
/// `AT_NO_AUTOMOUNT`, `AT_EMPTY_PATH` or the sync type is set.
pub fn statx_lookup_flags(flags: AtFlags) -> (r: Result<LookUpFlags, SystemError>)
    ensures
        flags.bits & statx_refused_bits() != 0 ==> r == Err::<LookUpFlags, SystemError>(
            SystemError::EINVAL,
        ),
        flags.bits & statx_refused_bits() == 0 ==> r == Ok::<LookUpFlags, SystemError>(
            LookUpFlags { bits: lookup_bits_of(flags) },
        ),
        (r is Ok) == (flags.bits & (0x200i32 | 0x400i32 | 0x8000i32 | i32::MIN) == 0),
{
    proof {
        lemma_statx_accepts_allowed_flags(flags);
    }
    let lookup_flags: LookUpFlags = flags.into();
    if flags.intersects(
        AtFlags::AT_SYMLINK_NOFOLLOW().union(AtFlags::AT_NO_AUTOMOUNT()).union(
            AtFlags::AT_EMPTY_PATH(),
        ).union(AtFlags::AT_STATX_SYNC_TYPE()).complement(),
    ) {
        return Err(SystemError::EINVAL);
    }
    Ok(lookup_flags)
}

/// `kstat` with `STATX_ATTR_MOUNT_ROOT` among the attributes it can report,
/// and among those it holds where `is_mount_root`.
pub open spec fn mount_root_marked(kstat: KStat, is_mount_root: bool) -> KStat {
    KStat {
        attributes: StxAttributes {
            bits: if is_mount_root {
                kstat.attributes.bits | 0x2000u64
            } else {
                kstat.attributes.bits
            },
        },
        attributes_mask: StxAttributes { bits: kstat.attributes_mask.bits | 0x2000u64 },
        ..kstat
    }
}

/// Completes the status of a `statx` call once the lookup found the file:
/// `STATX_ATTR_MOUNT_ROOT` is always among the attributes the status can
/// report, and is set where the file is the root of a mount.
pub fn statx_mark_mount_root(kstat: KStat, is_mount_root: bool) -> (r: KStat)
    ensures
        r == mount_root_marked(kstat, is_mount_root),
{
    let mut kstat = kstat;
    if is_mount_root {
        kstat.attributes.insert(StxAttributes::STATX_ATTR_MOUNT_ROOT());
    }
    kstat.attributes_mask.insert(StxAttributes::STATX_ATTR_MOUNT_ROOT());
    kstat
}

/// The status of the file that the file table maps a descriptor to: `EBADF`
/// where the descriptor names no open file, else the basic stats.
pub fn vfs_fstat<I: IndexNode + ?Sized>(inode: Option<&I>) -> (r: Result<KStat, SystemError>)
    ensures
        inode is None ==> r == Err::<KStat, SystemError>(SystemError::EBADF),
        r matches Ok(k) ==> exists|md: Metadata| k == kstat_of(md, PosixStatxMask { bits: 0x7ff }),
{
    match inode {
        None => Err(SystemError::EBADF),
        Some(inode) => vfs_getattr(inode, PosixStatxMask::STATX_BASIC_STATS(), AtFlags::empty()),
    }
}

/// What `fstatat` goes on to stat.
#[derive(Clone, Copy, Debug, PartialEq, Eq, Structural)]
pub enum StatTarget {
    /// The open file of this descriptor, as `fstat` does.
    Fd(i32),
    /// The path walked from `dfd`, as `statx` does with these flags and mask.
    Path { dfd: i32, flags: AtFlags, request_mask: PosixStatxMask },
}

/// The target of `fstatat(dfd, path, flags)`: the open file `dfd` where
/// `dfd` is a descriptor and the flags are exactly `AT_EMPTY_PATH`; else
/// the path, walked without triggering automounts, for the basic stats.
pub open spec fn fstatat_target(dfd: i32, flags: AtFlags) -> StatTarget {
    if dfd >= 0 && flags.bits == 0x1000 {
        StatTarget::Fd(dfd)
    } else {
        StatTarget::Path {
            dfd,
            flags: AtFlags { bits: flags.bits | 0x800 },
            request_mask: PosixStatxMask { bits: 0x7ff },
        }
    }
}

/// Decides what `fstatat(dfd, path, flags)` stats.
pub fn vfs_fstatat(dfd: i32, flags: AtFlags) -> (r: StatTarget)
    ensures
        r == fstatat_target(dfd, flags),
{
    let statx_flags = flags.union(AtFlags::AT_NO_AUTOMOUNT());
    if dfd >= 0 && flags == AtFlags::AT_EMPTY_PATH() {
        return StatTarget::Fd(dfd);
    }
    StatTarget::Path { dfd, flags: statx_flags, request_mask: PosixStatxMask::STATX_BASIC_STATS() }
}

/// The target of the `newfstatat` system call, whose raw flags keep only the
/// declared `AtFlags`.
pub fn do_newfstatat(dfd: i32, flags: u32) -> (r: StatTarget)
    ensures
        r == fstatat_target(dfd, AtFlags { bits: (flags as i32) & AT_FLAGS_ALL }),
{
    vfs_fstatat(dfd, AtFlags::from_bits_truncate(#[verifier::truncate] (flags as i32)))
}

/// Checks the raw flags and mask of the `statx` system call and gives them as
/// flag sets, undeclared bits dropped: `EINVAL` where the mask holds the
/// reserved bit, or the flags hold both sync bits.
pub fn do_statx(flags: u32, mask: u32) -> (r: Result<(AtFlags, PosixStatxMask), SystemError>)
    ensures
        mask & 0x8000_0000u32 != 0 ==> r == Err::<(AtFlags, PosixStatxMask), SystemError>(
            SystemError::EINVAL,
        ),
        mask & 0x8000_0000u32 == 0 && (flags as i32) & 0x6000i32 == 0x6000i32 ==> r == Err::<
            (AtFlags, PosixStatxMask),
            SystemError,
        >(SystemError::EINVAL),
        mask & 0x8000_0000u32 == 0 && (flags as i32) & 0x6000i32 != 0x6000i32 ==> r == Ok::<
            (AtFlags, PosixStatxMask),
            SystemError,
        >(
            (
                AtFlags { bits: (flags as i32) & AT_FLAGS_ALL },
                PosixStatxMask { bits: mask & STATX_MASK_ALL },
            ),
        ),
{
    let ghost raw_mask: u32 = mask;
    let ghost raw_flags: i32 = flags as i32;
    assert((raw_mask & STATX_MASK_ALL) & 0x8000_0000u32 == 0x8000_0000u32 <==> raw_mask
        & 0x8000_0000u32 != 0) by (bit_vector);
    assert((raw_flags & AT_FLAGS_ALL) & 0x6000i32 == 0x6000i32 <==> raw_flags & 0x6000i32
        == 0x6000i32) by (bit_vector);
    let mask = PosixStatxMask::from_bits_truncate(mask);
    if mask.contains(PosixStatxMask::STATX_RESERVED()) {
        return Err(SystemError::EINVAL);
    }
    let flags = AtFlags::from_bits_truncate(#[verifier::truncate] (flags as i32));
    if flags.contains(AtFlags::AT_STATX_SYNC_TYPE()) {
        return Err(SystemError::EINVAL);
    }
    Ok((flags, mask))
}

/// A caller that asks for the basic stats, as `fstat` and `fstatat` do, gets
/// every basic field of the metadata, the mode with its type bits, and neither
/// the creation time, the attributes nor the device numbers.
pub proof fn lemma_basic_stats_fill_basic_fields(md: Metadata)
    ensures
        ({
            let k = kstat_of(md, PosixStatxMask { bits: 0x7ff });
            &&& k.mode.bits == md.mode.bits | file_type_mode_bits(md.file_type)
            &&& k.nlink == md.nlinks as u32
            &&& k.uid == md.uid as u32
            &&& k.gid == md.gid as u32
            &&& k.ino == md.inode_id as u64
            &&& k.size == md.size as usize
            &&& k.blocks == md.blocks as u64
            &&& k.blksize == md.blk_size as u32
            &&& k.atime == md.atime
            &&& k.mtime == md.mtime
            &&& k.ctime == md.ctime
            &&& k.btime == time_zero()
            &&& k.attributes.bits == 0
            &&& k.attributes_mask.bits == 0
            &&& k.dev.data == 0
            &&& k.rdev.data == 0
        }),
{
    assert(0x7ffu32 & 0x1u32 == 0x1u32 && 0x7ffu32 & 0x2u32 == 0x2u32 && 0x7ffu32 & 0x4u32 == 0x4u32
        && 0x7ffu32 & 0x8u32 == 0x8u32 && 0x7ffu32 & 0x10u32 == 0x10u32 && 0x7ffu32 & 0x20u32
        == 0x20u32 && 0x7ffu32 & 0x40u32 == 0x40u32 && 0x7ffu32 & 0x80u32 == 0x80u32 && 0x7ffu32
        & 0x100u32 == 0x100u32 && 0x7ffu32 & 0x200u32 == 0x200u32 && 0x7ffu32 & 0x400u32
        == 0x400u32 && 0x7ffu32 & 0x800u32 != 0x800u32 && 0x7ffu32 & 0xfffu32 != 0xfffu32)
        by (bit_vector);
}

/// Whatever is asked for, the status holds the type bits of the file in its
/// mode.
pub proof fn lemma_mode_holds_file_type(md: Metadata, request_mask: PosixStatxMask)
    ensures
        kstat_of(md, request_mask).mode.bits & file_type_mode_bits(md.file_type)
            == file_type_mode_bits(md.file_type),
{
    let m = if asks(request_mask, 0x2) || asks(request_mask, 0x1) {
        md.mode.bits
    } else {
        0u32
    };
    let t = file_type_mode_bits(md.file_type);
    assert((m | t) & t == t) by (bit_vector);
}

/// `statx` refuses `AT_GETATTR_NOSEC`, so its `getattr` never fails for
/// lack of permission.
pub proof fn lemma_statx_refuses_getattr_nosec(flags: AtFlags)
    requires
        flags.bits & i32::MIN == i32::MIN,
    ensures
        flags.bits & statx_refused_bits() != 0,
{
    let f = flags.bits;
    assert(f & (!(0x100i32 | 0x800i32 | 0x1000i32 | 0x6000i32) & AT_FLAGS_ALL) != 0)
        by (bit_vector)
        requires
            f & i32::MIN == i32::MIN,
    ;
}

/// Where the caller does not ask for all of `STATX_ALL`, every attribute
/// that `statx` reports is among those it says it can report.
pub proof fn lemma_statx_attributes_within_mask(
    md: Metadata,
    request_mask: PosixStatxMask,
    is_mount_root: bool,
)
    requires
        !asks(request_mask, 0xfff),
    ensures
        ({
            let k = mount_root_marked(kstat_of(md, request_mask), is_mount_root);
            k.attributes.bits & !k.attributes_mask.bits == 0
        }),
{
    assert((0u64 | 0x2000u64) & !(0u64 | 0x2000u64) == 0 && 0u64 & !(0u64 | 0x2000u64) == 0)
        by (bit_vector);
}

/// Each field that a request can ask for is the metadata's own value exactly
/// when the request holds its bit, and zero otherwise: the link count for
/// `STATX_NLINK` (0x4), owner `STATX_UID` (0x8), group `STATX_GID` (0x10),
/// access time `STATX_ATIME` (0x20), modification time `STATX_MTIME` (0x40),
/// status change time `STATX_CTIME` (0x80), inode number `STATX_INO` (0x100),
/// size `STATX_SIZE` (0x200), blocks `STATX_BLOCKS` (0x400) and creation time
/// `STATX_BTIME` (0x800). The mode takes the metadata's mode for `STATX_MODE`
/// (0x2) or `STATX_TYPE` (0x1), and always holds the type bits; the block size
/// is always filled; attributes and device numbers come only with all of
/// `STATX_ALL` (0xfff); no mount id or direct-I/O alignment is filled.
pub proof fn lemma_kstat_fields_follow_request(md: Metadata, request_mask: PosixStatxMask)
    ensures
        ({
            let k = kstat_of(md, request_mask);
            let m = request_mask.bits;
            let zero = PosixTimeSpec { tv_sec: 0, tv_nsec: 0 };
            &&& k.nlink == (if m & 0x4 == 0x4 { md.nlinks as u32 } else { 0 })
            &&& k.uid == (if m & 0x8 == 0x8 { md.uid as u32 } else { 0 })
            &&& k.gid == (if m & 0x10 == 0x10 { md.gid as u32 } else { 0 })
            &&& k.atime == (if m & 0x20 == 0x20 { md.atime } else { zero })
            &&& k.mtime == (if m & 0x40 == 0x40 { md.mtime } else { zero })
            &&& k.ctime == (if m & 0x80 == 0x80 { md.ctime } else { zero })
            &&& k.ino == (if m & 0x100 == 0x100 { md.inode_id as u64 } else { 0 })
            &&& k.size == (if m & 0x200 == 0x200 { md.size as usize } else { 0 })
            &&& k.blocks == (if m & 0x400 == 0x400 { md.blocks as u64 } else { 0 })
            &&& k.btime == (if m & 0x800 == 0x800 { md.btime } else { zero })
            &&& k.mode.bits == (if m & 0x2 == 0x2 || m & 0x1 == 0x1 {
                md.mode.bits
            } else {
                0
            }) | file_type_mode_bits(md.file_type)
            &&& k.blksize == md.blk_size as u32
            &&& k.attributes.bits == (if m & 0xfff == 0xfff { 0x20u64 } else { 0 })
            &&& k.attributes_mask.bits == (if m & 0xfff == 0xfff { 0x20_1000u64 } else { 0 })
            &&& k.dev.data == (if m & 0xfff == 0xfff { md.dev_id as u32 } else { 0 })
            &&& k.rdev.data == (if m & 0xfff == 0xfff { md.raw_dev.data } else { 0 })
            &&& k.mnt_id == 0 && k.dio_mem_align == 0 && k.dio_offset_align == 0
        }),
{
}

/// Whatever is asked for, the status says it returns every basic field but
/// the access time, and the access time exactly where it is not zero; it
/// never says it returns more.
pub proof fn lemma_kstat_result_mask(md: Metadata, request_mask: PosixStatxMask)
    ensures
        ({
            let r = kstat_of(md, request_mask).result_mask.bits;
            &&& r & 0x7df == 0x7df
            &&& r & !0x7ffu32 == 0
            &&& (r & 0x20 == 0x20) == !(md.atime.tv_sec == 0 && md.atime.tv_nsec == 0)
        }),
{
    assert(0x7dfu32 & 0x7dfu32 == 0x7dfu32 && 0x7ffu32 & 0x7dfu32 == 0x7dfu32 && 0x7dfu32
        & !0x7ffu32 == 0 && 0x7ffu32 & !0x7ffu32 == 0 && 0x7dfu32 & 0x20u32 != 0x20u32 && 0x7ffu32
        & 0x20u32 == 0x20u32) by (bit_vector);
}

/// `statx` refuses exactly `AT_REMOVEDIR`, `AT_SYMLINK_FOLLOW`,
/// `AT_RECURSIVE` and `AT_GETATTR_NOSEC`, and accepts any flags made only of
/// `AT_SYMLINK_NOFOLLOW`, `AT_NO_AUTOMOUNT`, `AT_EMPTY_PATH` and the sync bits.
pub proof fn lemma_statx_accepts_allowed_flags(flags: AtFlags)
    ensures
        statx_refused_bits() == 0x200i32 | 0x400i32 | 0x8000i32 | i32::MIN,
        flags.bits & !(0x100i32 | 0x800i32 | 0x1000i32 | 0x6000i32) == 0 ==> flags.bits
            & statx_refused_bits() == 0,
{
    let f = flags.bits;
    assert(!(0x100i32 | 0x800i32 | 0x1000i32 | 0x6000i32) & AT_FLAGS_ALL == 0x200i32 | 0x400i32
        | 0x8000i32 | i32::MIN) by (bit_vector);
    assert(f & !(0x100i32 | 0x800i32 | 0x1000i32 | 0x6000i32) == 0 ==> f & (0x200i32 | 0x400i32
        | 0x8000i32 | i32::MIN) == 0) by (bit_vector);
}

/// Marking a mount root makes `STATX_ATTR_MOUNT_ROOT` (0x2000) reportable,
/// sets it where the file is a mount root, and changes nothing else.
pub proof fn lemma_mount_root_marked(kstat: KStat, is_mount_root: bool)
    ensures
        ({
            let r = mount_root_marked(kstat, is_mount_root);
            &&& r.attributes_mask.bits & 0x2000 == 0x2000
            &&& r.attributes_mask.bits & !0x2000u64 == kstat.attributes_mask.bits & !0x2000u64
            &&& (r.attributes.bits & 0x2000 == 0x2000) == (is_mount_root || kstat.attributes.bits
                & 0x2000 == 0x2000)
            &&& r.attributes.bits & !0x2000u64 == kstat.attributes.bits & !0x2000u64
            &&& r == (KStat { attributes: r.attributes, attributes_mask: r.attributes_mask, ..kstat })
        }),
{
    let a = kstat.attributes.bits;
    let m = kstat.attributes_mask.bits;
    assert((m | 0x2000u64) & 0x2000u64 == 0x2000u64 && (m | 0x2000u64) & !0x2000u64 == m
        & !0x2000u64 && (a | 0x2000u64) & 0x2000u64 == 0x2000u64 && (a | 0x2000u64) & !0x2000u64 == a
        & !0x2000u64) by (bit_vector);
}

/// `fstatat` stats the descriptor itself only for a descriptor with exactly
/// `AT_EMPTY_PATH`; for any other flags, 0 among them, it walks the path from
/// `dfd` with `AT_NO_AUTOMOUNT` (0x800) added, for the basic stats (0x7ff).
pub proof fn lemma_fstatat_target(dfd: i32, flags: AtFlags)
    ensures
        (fstatat_target(dfd, flags) is Fd) <==> (dfd >= 0 && flags.bits == 0x1000),
        fstatat_target(dfd, flags) is Fd ==> fstatat_target(dfd, flags) == StatTarget::Fd(dfd),
        !(dfd >= 0 && flags.bits == 0x1000) ==> fstatat_target(dfd, flags) == (StatTarget::Path {
            dfd,
            flags: AtFlags { bits: flags.bits | 0x800 },
            request_mask: PosixStatxMask { bits: 0x7ff },
        }),
{
}

} // verus!
