//! The structures that the status calls hand to user space, and how they are
//! filled from a `KStat`.

use vstd::prelude::*;

use crate::device::{
    lemma_major_minor_recompose, lemma_new_encode_extends_old, major_of, minor_of, new_encode_of,
    old_valid_of,
};
use crate::error::SystemError;
use crate::flags::{ModeType, PosixStatxMask, StxAttributes, STATX_MASK_ALL, STX_ATTRIBUTES_ALL};
use crate::stat::KStat;
use crate::time::{time_zero, PosixTimeSpec};

verus! {

/// The structure that `stat`, `fstat` and `fstatat` fill.
#[derive(Clone, Copy, Debug, PartialEq, Eq, Structural)]
pub struct GenericPosixStat {
    /// Device ID.
    pub st_dev: u64,
    /// File serial number (inode).
    pub st_ino: u64,
    /// File mode.
    pub st_mode: u32,
    /// Link count.
    pub st_nlink: u32,
    /// User ID of the file's owner.
    pub st_uid: u32,
    /// Group ID of the file's group.
    pub st_gid: u32,
    /// Device number, if device.
    pub st_rdev: u64,
    /// Padding.
    pub __pad1: u64,
    /// Size of file, in bytes.
    pub st_size: i64,
    /// Optimal block size for I/O.
    pub st_blksize: i32,
    /// Padding.
    pub __pad2: i32,
    /// Number of 512-byte blocks allocated.
    pub st_blocks: i64,
    /// Time of last access (seconds).
    pub st_atime: i64,
    /// Time of last access (nanoseconds).
    pub st_atime_nsec: u64,
    /// Time of last modification (seconds).
    pub st_mtime: i64,
    /// Time of last modification (nanoseconds).
    pub st_mtime_nsec: u64,
    /// Time of last status change (seconds).
    pub st_ctime: i64,
    /// Time of last status change (nanoseconds).
    pub st_ctime_nsec: u64,
    /// Unused.
    pub __unused4: u32,
    /// Unused.
    pub __unused5: u32,
}

impl Default for GenericPosixStat {
    fn default() -> (r: Self)
        ensures
            r == posix_stat_zero(),
            r.st_dev == 0,
            r.st_ino == 0,
            r.st_mode == 0,
            r.st_nlink == 0,
            r.st_uid == 0,
            r.st_gid == 0,
            r.st_rdev == 0,
            r.__pad1 == 0,
            r.st_size == 0,
            r.st_blksize == 0,
            r.__pad2 == 0,
            r.st_blocks == 0,
            r.st_atime == 0,
            r.st_atime_nsec == 0,
            r.st_mtime == 0,
            r.st_mtime_nsec == 0,
            r.st_ctime == 0,
            r.st_ctime_nsec == 0,
            r.__unused4 == 0,
            r.__unused5 == 0,
    {
        GenericPosixStat {
            st_dev: 0,
            st_ino: 0,
            st_mode: 0,
            st_nlink: 0,
            st_uid: 0,
            st_gid: 0,
            st_rdev: 0,
            __pad1: 0,
            st_size: 0,
            st_blksize: 0,
            __pad2: 0,
            st_blocks: 0,
            st_atime: 0,
            st_atime_nsec: 0,
            st_mtime: 0,
            st_mtime_nsec: 0,
            st_ctime: 0,
            st_ctime_nsec: 0,
            __unused4: 0,
            __unused5: 0,
        }
    }
}

/// The `stat` structure with every field zero.
pub open spec fn posix_stat_zero() -> GenericPosixStat {
    GenericPosixStat {
        st_dev: 0,
        st_ino: 0,
        st_mode: 0,
        st_nlink: 0,
        st_uid: 0,
        st_gid: 0,
        st_rdev: 0,
        __pad1: 0,
        st_size: 0,
        st_blksize: 0,
        __pad2: 0,
        st_blocks: 0,
        st_atime: 0,
        st_atime_nsec: 0,
        st_mtime: 0,
        st_mtime_nsec: 0,
        st_ctime: 0,
        st_ctime_nsec: 0,
        __unused4: 0,
        __unused5: 0,
    }
}

/// The `stat` structure for `k`: the device in its new 32-bit encoding, the
/// special device as the kernel keeps it, each other number cast to the width
/// of its field, padding zero.
pub open spec fn posix_stat_of(k: KStat) -> GenericPosixStat {
    GenericPosixStat {
        st_dev: new_encode_of(k.dev.data) as u64,
        st_ino: k.ino,
        st_mode: k.mode.bits,
        st_nlink: k.nlink,
        st_uid: k.uid,
        st_gid: k.gid,
        st_rdev: k.rdev.data as u64,
        __pad1: 0,
        st_size: k.size as i64,
        st_blksize: k.blksize as i32,
        __pad2: 0,
        st_blocks: k.blocks as i64,
        st_atime: k.atime.tv_sec,
        st_atime_nsec: k.atime.tv_nsec as u64,
        st_mtime: k.mtime.tv_sec,
        st_mtime_nsec: k.mtime.tv_nsec as u64,
        st_ctime: k.ctime.tv_sec,
        st_ctime_nsec: k.ctime.tv_nsec as u64,
        __unused4: 0,
        __unused5: 0,
    }
}

impl TryFrom<KStat> for GenericPosixStat {
    type Error = SystemError;

    /// Converts the kernel's status to the `stat` structure. The checks for
    /// device and inode numbers too wide for their fields never fail here:
    /// both fields are 64 bits wide.
    fn try_from(kstat: KStat) -> (r: Result<Self, Self::Error>) {
        broadcast use vstd::layout::layout_of_primitives;

        let mut tmp = GenericPosixStat::default();
        // `st_dev` and `st_rdev` are `u64`.
        if core::mem::size_of::<u64>() < 4 && !kstat.dev.old_valid_dev() {
            return Err(SystemError::EOVERFLOW);
        }
        if core::mem::size_of::<u64>() < 4 && !kstat.rdev.old_valid_dev() {
            return Err(SystemError::EOVERFLOW);
        }
        tmp.st_dev = kstat.dev.new_encode_dev() as u64;
        tmp.st_ino = kstat.ino;
        // `st_ino` and `kstat.ino` are both `u64`.
        if core::mem::size_of::<u64>() < core::mem::size_of::<u64>() && tmp.st_ino != kstat.ino {
            return Err(SystemError::EOVERFLOW);
        }
        tmp.st_mode = kstat.mode.bits();
        tmp.st_nlink = kstat.nlink;
        tmp.st_uid = kstat.uid;
        tmp.st_gid = kstat.gid;
        tmp.st_rdev = kstat.rdev.data() as u64;
        tmp.st_size = kstat.size as i64;
        tmp.st_atime = kstat.atime.tv_sec;
        tmp.st_mtime = kstat.mtime.tv_sec;
        tmp.st_ctime = kstat.ctime.tv_sec;
        tmp.st_atime_nsec = kstat.atime.tv_nsec as u64;
        tmp.st_mtime_nsec = kstat.mtime.tv_nsec as u64;
        tmp.st_ctime_nsec = kstat.ctime.tv_nsec as u64;
        tmp.st_blocks = kstat.blocks as i64;
        tmp.st_blksize = kstat.blksize as i32;
        Ok(tmp)
    }
}

impl vstd::std_specs::convert::TryFromSpecImpl<KStat> for GenericPosixStat {
    open spec fn obeys_try_from_spec() -> bool {
        true
    }

    open spec fn try_from_spec(v: KStat) -> Result<GenericPosixStat, SystemError> {
        Ok(posix_stat_of(v))
    }
}

/// The structure that `statx` fills.
#[derive(Clone, Copy, Debug, PartialEq, Eq, Structural)]
pub struct PosixStatx {
    /// Which fields are filled.
    pub stx_mask: PosixStatxMask,
    /// Preferred I/O size.
    pub stx_blksize: u32,
    pub stx_attributes: StxAttributes,
    pub stx_nlink: u32,
    pub stx_uid: u32,
    pub stx_gid: u32,
    pub stx_mode: ModeType,
    pub stx_inode: u64,
    pub stx_size: i64,
    pub stx_blocks: u64,
    /// Which attributes the file system can report.
    pub stx_attributes_mask: StxAttributes,
    pub stx_atime: PosixTimeSpec,
    pub stx_btime: PosixTimeSpec,
    pub stx_ctime: PosixTimeSpec,
    pub stx_mtime: PosixTimeSpec,
    /// The special device, if the file is a device file.
    pub stx_rdev_major: u32,
    pub stx_rdev_minor: u32,
    /// The device the file lives on.
    pub stx_dev_major: u32,
    pub stx_dev_minor: u32,
    pub stx_mnt_id: u64,
    pub stx_dio_mem_align: u32,
    pub stx_dio_offset_align: u32,
}

/// The `statx` structure with every field zero and every flag set empty.
pub open spec fn posix_statx_zero() -> PosixStatx {
    PosixStatx {
        stx_mask: PosixStatxMask { bits: 0 },
        stx_blksize: 0,
        stx_attributes: StxAttributes { bits: 0 },
        stx_nlink: 0,
        stx_uid: 0,
        stx_gid: 0,
        stx_mode: ModeType { bits: 0 },
        stx_inode: 0,
        stx_size: 0,
        stx_blocks: 0,
        stx_attributes_mask: StxAttributes { bits: 0 },
        stx_atime: time_zero(),
        stx_btime: time_zero(),
        stx_ctime: time_zero(),
        stx_mtime: time_zero(),
        stx_rdev_major: 0,
        stx_rdev_minor: 0,
        stx_dev_major: 0,
        stx_dev_minor: 0,
        stx_mnt_id: 0,
        stx_dio_mem_align: 0,
        stx_dio_offset_align: 0,
    }
}

/// The `statx` structure for `k`: the change cookie and the monotonic-change
/// attribute are kept inside the kernel, device numbers are split into major
/// and minor, and the size is cast to a signed 64-bit number.
pub open spec fn posix_statx_of(k: KStat) -> PosixStatx {
    PosixStatx {
        stx_mask: PosixStatxMask { bits: k.result_mask.bits & (!0x4000_0000u32 & STATX_MASK_ALL) },
        stx_blksize: k.blksize,
        stx_attributes: StxAttributes {
            bits: k.attributes.bits & (!0x8000_0000_0000_0000u64 & STX_ATTRIBUTES_ALL),
        },
        stx_nlink: k.nlink,
        stx_uid: k.uid,
        stx_gid: k.gid,
        stx_mode: k.mode,
        stx_inode: k.ino,
        stx_size: k.size as i64,
        stx_blocks: k.blocks,
        stx_attributes_mask: k.attributes_mask,
        stx_atime: k.atime,
        stx_btime: k.btime,
        stx_ctime: k.ctime,
        stx_mtime: k.mtime,
        stx_rdev_major: major_of(k.rdev.data),
        stx_rdev_minor: minor_of(k.rdev.data),
        stx_dev_major: major_of(k.dev.data),
        stx_dev_minor: minor_of(k.dev.data),
        stx_mnt_id: k.mnt_id,
        stx_dio_mem_align: k.dio_mem_align,
        stx_dio_offset_align: k.dio_offset_align,
    }
}

impl PosixStatx {
    /// The structure with every field zero.
    pub fn new() -> (r: Self)
        ensures
            r == posix_statx_zero(),
            r.stx_mask.bits == 0,
            r.stx_blksize == 0,
            r.stx_attributes.bits == 0,
            r.stx_nlink == 0,
            r.stx_uid == 0,
            r.stx_gid == 0,
            r.stx_mode.bits == 0,
            r.stx_inode == 0,
            r.stx_size == 0,
            r.stx_blocks == 0,
            r.stx_attributes_mask.bits == 0,
            r.stx_atime.tv_sec == 0,
            r.stx_atime.tv_nsec == 0,
            r.stx_btime.tv_sec == 0,
            r.stx_btime.tv_nsec == 0,
            r.stx_ctime.tv_sec == 0,
            r.stx_ctime.tv_nsec == 0,
            r.stx_mtime.tv_sec == 0,
            r.stx_mtime.tv_nsec == 0,
            r.stx_rdev_major == 0,
            r.stx_rdev_minor == 0,
            r.stx_dev_major == 0,
            r.stx_dev_minor == 0,
            r.stx_mnt_id == 0,
            r.stx_dio_mem_align == 0,
            r.stx_dio_offset_align == 0,
    {
        PosixStatx {
            stx_mask: PosixStatxMask::empty(),
            stx_blksize: 0,
            stx_attributes: StxAttributes::empty(),
            stx_nlink: 0,
            stx_uid: 0,
            stx_gid: 0,
            stx_mode: ModeType::empty(),
            stx_inode: 0,
            stx_size: 0,
            stx_blocks: 0,
            stx_attributes_mask: StxAttributes::empty(),
            stx_atime: PosixTimeSpec::default(),
            stx_btime: PosixTimeSpec::default(),
            stx_ctime: PosixTimeSpec::default(),
            stx_mtime: PosixTimeSpec::default(),
            stx_rdev_major: 0,
            stx_rdev_minor: 0,
            stx_dev_major: 0,
            stx_dev_minor: 0,
            stx_mnt_id: 0,
            stx_dio_mem_align: 0,
            stx_dio_offset_align: 0,
        }
    }

    /// The structure that `statx` hands to user space for the status `kstat`.
    pub fn from_kstat(kstat: &KStat) -> (r: Self)
        ensures
            r == posix_statx_of(*kstat),
    {
        let mut statx = PosixStatx::new();
        statx.stx_mask = kstat.result_mask.intersection(
            PosixStatxMask::STATX_CHANGE_COOKIE().complement(),
        );
        statx.stx_blksize = kstat.blksize;
        statx.stx_attributes = kstat.attributes.intersection(
            StxAttributes::STATX_ATTR_CHANGE_MONOTONIC().complement(),
        );
        statx.stx_nlink = kstat.nlink;
        statx.stx_uid = kstat.uid;
        statx.stx_gid = kstat.gid;
        statx.stx_mode = kstat.mode;
        statx.stx_inode = kstat.ino;
        statx.stx_size = kstat.size as i64;
        statx.stx_blocks = kstat.blocks;
        statx.stx_attributes_mask = kstat.attributes_mask;

        statx.stx_atime = kstat.atime;
        statx.stx_btime = kstat.btime;
        statx.stx_ctime = kstat.ctime;
        statx.stx_mtime = kstat.mtime;

        statx.stx_rdev_major = kstat.rdev.major();
        statx.stx_rdev_minor = kstat.rdev.minor();
        statx.stx_dev_major = kstat.dev.major();
        statx.stx_dev_minor = kstat.dev.minor();

        statx.stx_mnt_id = kstat.mnt_id;
        statx.stx_dio_mem_align = kstat.dio_mem_align;
        statx.stx_dio_offset_align = kstat.dio_offset_align;
        statx
    }
}

/// `statx` never hands user space the change cookie or the monotonic-change
/// attribute.
pub proof fn lemma_statx_hides_kernel_bits(k: KStat)
    ensures
        posix_statx_of(k).stx_mask.bits & 0x4000_0000u32 == 0,
        posix_statx_of(k).stx_attributes.bits & 0x8000_0000_0000_0000u64 == 0,
{
    let m = k.result_mask.bits;
    let a = k.attributes.bits;
    assert((m & (!0x4000_0000u32 & STATX_MASK_ALL)) & 0x4000_0000u32 == 0) by (bit_vector);
    assert((a & (!0x8000_0000_0000_0000u64 & STX_ATTRIBUTES_ALL)) & 0x8000_0000_0000_0000u64 == 0)
        by (bit_vector);
}

/// The major and minor numbers that `statx` reports give back the device
/// numbers of the status.
pub proof fn lemma_statx_device_numbers_recompose(k: KStat)
    ensures
        (posix_statx_of(k).stx_dev_major << 20u32) | posix_statx_of(k).stx_dev_minor == k.dev.data,
        (posix_statx_of(k).stx_rdev_major << 20u32) | posix_statx_of(k).stx_rdev_minor
            == k.rdev.data,
{
    lemma_major_minor_recompose(k.dev.data);
    lemma_major_minor_recompose(k.rdev.data);
}

/// `stat` and `statx` report the same status: the fields they share agree,
/// up to the width of the `stat` field, and the `stat` device is the new
/// encoding of the major and minor numbers that `statx` reports.
pub proof fn lemma_stat_agrees_with_statx(k: KStat)
    ensures
        posix_stat_of(k).st_ino == posix_statx_of(k).stx_inode,
        posix_stat_of(k).st_mode == posix_statx_of(k).stx_mode.bits,
        posix_stat_of(k).st_nlink == posix_statx_of(k).stx_nlink,
        posix_stat_of(k).st_uid == posix_statx_of(k).stx_uid,
        posix_stat_of(k).st_gid == posix_statx_of(k).stx_gid,
        posix_stat_of(k).st_size == posix_statx_of(k).stx_size,
        posix_stat_of(k).st_blocks == posix_statx_of(k).stx_blocks as i64,
        posix_stat_of(k).st_blksize == posix_statx_of(k).stx_blksize as i32,
        posix_stat_of(k).st_atime == posix_statx_of(k).stx_atime.tv_sec,
        posix_stat_of(k).st_mtime == posix_statx_of(k).stx_mtime.tv_sec,
        posix_stat_of(k).st_ctime == posix_statx_of(k).stx_ctime.tv_sec,
        posix_stat_of(k).st_atime_nsec == posix_statx_of(k).stx_atime.tv_nsec as u64,
        posix_stat_of(k).st_mtime_nsec == posix_statx_of(k).stx_mtime.tv_nsec as u64,
        posix_stat_of(k).st_ctime_nsec == posix_statx_of(k).stx_ctime.tv_nsec as u64,
        posix_stat_of(k).st_dev == new_encode_of(
            (posix_statx_of(k).stx_dev_major << 20u32) | posix_statx_of(k).stx_dev_minor,
        ) as u64,
        posix_stat_of(k).st_rdev == ((posix_statx_of(k).stx_rdev_major << 20u32)
            | posix_statx_of(k).stx_rdev_minor) as u64,
{
    lemma_statx_device_numbers_recompose(k);
}

/// `statx` reports every declared attribute of the status but the
/// monotonic-change one, `STATX_ATTR_MOUNT_ROOT` (0x2000) among them, and
/// every declared mask bit but the change cookie; the attribute mask, mode
/// and times are handed on as they are.
pub proof fn lemma_statx_keeps_status_bits(k: KStat)
    ensures
        posix_statx_of(k).stx_attributes.bits == k.attributes.bits & 0x0030_3874u64,
        posix_statx_of(k).stx_attributes.bits & 0x2000 == k.attributes.bits & 0x2000,
        posix_statx_of(k).stx_mask.bits == k.result_mask.bits & 0x8000_7fffu32,
        posix_statx_of(k).stx_attributes_mask == k.attributes_mask,
        posix_statx_of(k).stx_mode == k.mode,
        posix_statx_of(k).stx_atime == k.atime,
        posix_statx_of(k).stx_btime == k.btime,
        posix_statx_of(k).stx_ctime == k.ctime,
        posix_statx_of(k).stx_mtime == k.mtime,
        posix_statx_of(k).stx_blksize == k.blksize,
        posix_statx_of(k).stx_mnt_id == k.mnt_id,
        posix_statx_of(k).stx_dio_mem_align == k.dio_mem_align,
        posix_statx_of(k).stx_dio_offset_align == k.dio_offset_align,
{
    let a = k.attributes.bits;
    let m = k.result_mask.bits;
    assert(a & (!0x8000_0000_0000_0000u64 & STX_ATTRIBUTES_ALL) == a & 0x0030_3874u64 && (a
        & 0x0030_3874u64) & 0x2000u64 == a & 0x2000u64) by (bit_vector);
    assert(m & (!0x4000_0000u32 & STATX_MASK_ALL) == m & 0x8000_7fffu32) by (bit_vector);
}

/// `stat` reports the status's own numbers: inode, mode, link count, owner,
/// group, size, blocks, block size and times, each at the width of its
/// field; the special device as the kernel keeps it; and, for a device that
/// fits the old encoding, the device as its major number above its minor.
pub proof fn lemma_stat_fields(k: KStat)
    ensures
        posix_stat_of(k).st_ino == k.ino,
        posix_stat_of(k).st_mode == k.mode.bits,
        posix_stat_of(k).st_nlink == k.nlink,
        posix_stat_of(k).st_uid == k.uid,
        posix_stat_of(k).st_gid == k.gid,
        posix_stat_of(k).st_size == k.size as i64,
        posix_stat_of(k).st_blocks == k.blocks as i64,
        posix_stat_of(k).st_blksize == k.blksize as i32,
        posix_stat_of(k).st_atime == k.atime.tv_sec,
        posix_stat_of(k).st_mtime == k.mtime.tv_sec,
        posix_stat_of(k).st_ctime == k.ctime.tv_sec,
        posix_stat_of(k).st_atime_nsec == k.atime.tv_nsec as u64,
        posix_stat_of(k).st_mtime_nsec == k.mtime.tv_nsec as u64,
        posix_stat_of(k).st_ctime_nsec == k.ctime.tv_nsec as u64,
        posix_stat_of(k).st_rdev == k.rdev.data as u64,
        old_valid_of(k.dev.data) ==> posix_stat_of(k).st_dev == (((k.dev.data >> 20u32) << 8u32)
            | (k.dev.data & 0xfffffu32)) as u64,
        posix_stat_of(k).__pad1 == 0 && posix_stat_of(k).__pad2 == 0,
        posix_stat_of(k).__unused4 == 0 && posix_stat_of(k).__unused5 == 0,
{
    if old_valid_of(k.dev.data) {
        lemma_new_encode_extends_old(k.dev.data);
    }
}

} // verus!
