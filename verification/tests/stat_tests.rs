use vfs_stat::device::DeviceNumber;
use vfs_stat::flags::{AtFlags, LookUpFlags, ModeType, PosixStatxMask, StxAttributes};
use vfs_stat::inode::{FileType, IndexNode, Metadata};
use vfs_stat::posix::{GenericPosixStat, PosixStatx};
use vfs_stat::stat::{
    do_newfstatat, do_statx, kstat_from_metadata, statx_lookup_flags, statx_mark_mount_root,
    vfs_fstat, vfs_fstatat, vfs_getattr, KStat, StatTarget,
};
use vfs_stat::time::PosixTimeSpec;
use vfs_stat::SystemError;

fn ts(sec: i64, nsec: i64) -> PosixTimeSpec {
    PosixTimeSpec { tv_sec: sec, tv_nsec: nsec }
}

fn sample_metadata() -> Metadata {
    Metadata {
        dev_id: 0x0080_0003,
        inode_id: 42,
        size: 4096,
        blk_size: 512,
        blocks: 8,
        atime: ts(100, 1),
        mtime: ts(200, 2),
        ctime: ts(300, 3),
        btime: ts(50, 5),
        file_type: FileType::File,
        mode: ModeType { bits: 0o644 },
        nlinks: 3,
        uid: 1000,
        gid: 100,
        raw_dev: DeviceNumber::from(0x0100_0007u32),
    }
}

struct Node {
    md: Result<Metadata, SystemError>,
}

impl IndexNode for Node {
    fn metadata(&self) -> Result<Metadata, SystemError> {
        self.md
    }
}

#[test]
fn lookup_flags_from_empty_at_flags_follow_and_automount() {
    let l = LookUpFlags::from(AtFlags::empty());
    assert_eq!(l.bits, 0x1 | 0x4);
}

#[test]
fn lookup_flags_from_nofollow_noautomount_empty_path() {
    let at = AtFlags::AT_SYMLINK_NOFOLLOW()
        .union(AtFlags::AT_NO_AUTOMOUNT())
        .union(AtFlags::AT_EMPTY_PATH());
    let l: LookUpFlags = at.into();
    assert_eq!(l, LookUpFlags::EMPTY());
}

#[test]
fn lookup_flags_from_empty_path_only() {
    let l = LookUpFlags::from(AtFlags::AT_EMPTY_PATH());
    assert_eq!(l.bits, 0x1 | 0x4 | 0x4000);
}

#[test]
fn kstat_default_is_zero() {
    let k = KStat::default();
    assert_eq!(k.result_mask.bits, 0);
    assert_eq!(k.mode.bits, 0);
    assert_eq!(k.ino, 0);
    assert_eq!(k.dev.data(), 0);
    assert_eq!(k.atime, ts(0, 0));
    assert_eq!(k.dio_offset_align, 0);
}

#[test]
fn getattr_basic_stats_fill_basic_fields() {
    let md = sample_metadata();
    let k = kstat_from_metadata(&md, PosixStatxMask::STATX_BASIC_STATS());
    assert_eq!(k.result_mask.bits, 0x7ff);
    assert_eq!(k.mode.bits, 0o100644);
    assert_eq!(k.nlink, 3);
    assert_eq!(k.uid, 1000);
    assert_eq!(k.gid, 100);
    assert_eq!(k.ino, 42);
    assert_eq!(k.size, 4096);
    assert_eq!(k.blocks, 8);
    assert_eq!(k.blksize, 512);
    assert_eq!(k.atime, ts(100, 1));
    assert_eq!(k.mtime, ts(200, 2));
    assert_eq!(k.ctime, ts(300, 3));
    assert_eq!(k.btime, ts(0, 0));
    assert_eq!(k.attributes.bits, 0);
    assert_eq!(k.attributes_mask.bits, 0);
    assert_eq!(k.dev.data(), 0);
    assert_eq!(k.rdev.data(), 0);
}

#[test]
fn getattr_unrequested_fields_stay_zero_but_type_and_blksize() {
    let md = sample_metadata();
    let k = kstat_from_metadata(&md, PosixStatxMask::STATX_NLINK());
    assert_eq!(k.nlink, 3);
    assert_eq!(k.uid, 0);
    assert_eq!(k.ino, 0);
    assert_eq!(k.size, 0);
    assert_eq!(k.atime, ts(0, 0));
    assert_eq!(k.mode.bits, 0o100000);
    assert_eq!(k.blksize, 512);
    assert_eq!(k.result_mask.bits, 0x7ff);
}

#[test]
fn getattr_zero_atime_drops_atime_from_result_mask() {
    let mut md = sample_metadata();
    md.atime = ts(0, 0);
    let k = kstat_from_metadata(&md, PosixStatxMask::STATX_BASIC_STATS());
    assert_eq!(k.result_mask.bits, 0x7df);
}

#[test]
fn getattr_statx_all_fills_attributes_and_devices() {
    let md = sample_metadata();
    let k = kstat_from_metadata(&md, PosixStatxMask::STATX_ALL());
    assert_eq!(k.attributes, StxAttributes::STATX_ATTR_APPEND());
    assert_eq!(k.attributes_mask.bits, 0x1000 | 0x20_0000);
    assert_eq!(k.dev.data(), 0x0080_0003);
    assert_eq!(k.rdev.data(), 0x0100_0007);
    assert_eq!(k.btime, ts(50, 5));
}

#[test]
fn getattr_mode_from_type_request_only() {
    let mut md = sample_metadata();
    md.file_type = FileType::Dir;
    md.mode = ModeType { bits: 0o755 };
    let k = kstat_from_metadata(&md, PosixStatxMask::STATX_TYPE());
    assert_eq!(k.mode.bits, 0o040755);
}

#[test]
fn getattr_device_files_are_character_devices_but_block() {
    let mut md = sample_metadata();
    md.mode = ModeType::empty();
    md.file_type = FileType::KvmDevice;
    assert_eq!(kstat_from_metadata(&md, PosixStatxMask::empty()).mode, ModeType::S_IFCHR());
    md.file_type = FileType::FramebufferDevice;
    assert_eq!(kstat_from_metadata(&md, PosixStatxMask::empty()).mode, ModeType::S_IFCHR());
    md.file_type = FileType::BlockDevice;
    assert_eq!(kstat_from_metadata(&md, PosixStatxMask::empty()).mode, ModeType::S_IFBLK());
    md.file_type = FileType::SymLink;
    assert_eq!(kstat_from_metadata(&md, PosixStatxMask::empty()).mode, ModeType::S_IFLNK());
    md.file_type = FileType::Socket;
    assert_eq!(kstat_from_metadata(&md, PosixStatxMask::empty()).mode, ModeType::S_IFSOCK());
    md.file_type = FileType::Pipe;
    assert_eq!(kstat_from_metadata(&md, PosixStatxMask::empty()).mode, ModeType::S_IFIFO());
}

#[test]
fn getattr_casts_wide_values() {
    let mut md = sample_metadata();
    md.size = -1;
    md.blk_size = 0x1_0000_0200;
    let k = kstat_from_metadata(&md, PosixStatxMask::STATX_SIZE());
    assert_eq!(k.size, usize::MAX);
    assert_eq!(k.blksize, 0x200);
}

#[test]
fn vfs_getattr_nosec_is_eperm() {
    let node = Node { md: Ok(sample_metadata()) };
    let r = vfs_getattr(&node, PosixStatxMask::STATX_BASIC_STATS(), AtFlags::AT_GETATTR_NOSEC());
    assert_eq!(r, Err(SystemError::EPERM));
}

#[test]
fn vfs_getattr_passes_metadata_error_on() {
    let node = Node { md: Err(SystemError::EFAULT) };
    let r = vfs_getattr(&node, PosixStatxMask::STATX_BASIC_STATS(), AtFlags::empty());
    assert_eq!(r, Err(SystemError::EFAULT));
}

#[test]
fn vfs_getattr_ok_matches_metadata() {
    let md = sample_metadata();
    let node = Node { md: Ok(md) };
    let r = vfs_getattr(&node, PosixStatxMask::STATX_BASIC_STATS(), AtFlags::AT_STATX_SYNC_TYPE());
    assert_eq!(r, Ok(kstat_from_metadata(&md, PosixStatxMask::STATX_BASIC_STATS())));
}

#[test]
fn vfs_fstat_without_file_is_ebadf() {
    let r = vfs_fstat::<Node>(None);
    assert_eq!(r, Err(SystemError::EBADF));
}

#[test]
fn vfs_fstat_reports_basic_stats() {
    let md = sample_metadata();
    let node = Node { md: Ok(md) };
    let r = vfs_fstat(Some(&node)).unwrap();
    assert_eq!(r.ino, 42);
    assert_eq!(r.result_mask, PosixStatxMask::STATX_BASIC_STATS());
}

#[test]
fn statx_lookup_flags_accepts_allowed_flags() {
    let flags = AtFlags::AT_SYMLINK_NOFOLLOW().union(AtFlags::AT_STATX_SYNC_TYPE());
    assert_eq!(statx_lookup_flags(flags), Ok(LookUpFlags { bits: 0x4 }));
}

#[test]
fn statx_lookup_flags_refuses_removedir() {
    assert_eq!(
        statx_lookup_flags(AtFlags::from_bits_truncate(0x200)),
        Err(SystemError::EINVAL)
    );
}

#[test]
fn statx_lookup_flags_refuses_getattr_nosec() {
    assert_eq!(
        statx_lookup_flags(AtFlags::AT_GETATTR_NOSEC()),
        Err(SystemError::EINVAL)
    );
}

#[test]
fn statx_mark_mount_root_sets_mask_always() {
    let md = sample_metadata();
    let k = kstat_from_metadata(&md, PosixStatxMask::STATX_BASIC_STATS());
    let not_root = statx_mark_mount_root(k, false);
    assert_eq!(not_root.attributes.bits, 0);
    assert_eq!(not_root.attributes_mask, StxAttributes::STATX_ATTR_MOUNT_ROOT());
    let root = statx_mark_mount_root(k, true);
    assert_eq!(root.attributes, StxAttributes::STATX_ATTR_MOUNT_ROOT());
    assert_eq!(root.attributes_mask, StxAttributes::STATX_ATTR_MOUNT_ROOT());
    assert_eq!(root.ino, k.ino);
}

#[test]
fn fstatat_empty_path_on_descriptor_is_fstat() {
    assert_eq!(vfs_fstatat(3, AtFlags::AT_EMPTY_PATH()), StatTarget::Fd(3));
}

#[test]
fn fstatat_negative_dfd_walks_path() {
    let t = vfs_fstatat(-100, AtFlags::AT_EMPTY_PATH());
    assert_eq!(
        t,
        StatTarget::Path {
            dfd: -100,
            flags: AtFlags { bits: 0x1800 },
            request_mask: PosixStatxMask::STATX_BASIC_STATS(),
        }
    );
}

#[test]
fn fstatat_other_flags_walk_path_without_automount() {
    let t = vfs_fstatat(5, AtFlags::AT_SYMLINK_NOFOLLOW());
    assert_eq!(
        t,
        StatTarget::Path {
            dfd: 5,
            flags: AtFlags { bits: 0x900 },
            request_mask: PosixStatxMask { bits: 0x7ff },
        }
    );
}

#[test]
fn newfstatat_drops_undeclared_flags() {
    assert_eq!(do_newfstatat(4, 0x1000 | 0x1), StatTarget::Fd(4));
}

#[test]
fn do_statx_refuses_reserved_mask_bit() {
    assert_eq!(do_statx(0, 0x8000_0000), Err(SystemError::EINVAL));
}

#[test]
fn do_statx_refuses_both_sync_bits() {
    assert_eq!(do_statx(0x6000, 0x7ff), Err(SystemError::EINVAL));
}

#[test]
fn do_statx_truncates_flags_and_mask() {
    assert_eq!(
        do_statx(0x2000 | 0x100 | 0x1, 0x7ff | 0x0100_0000),
        Ok((AtFlags { bits: 0x2100 }, PosixStatxMask { bits: 0x7ff }))
    );
}

#[test]
fn device_number_parts() {
    let d = DeviceNumber::from(0x0123_4567u32);
    assert_eq!(d.major(), 0x12);
    assert_eq!(d.minor(), 0x3_4567);
    assert!(!d.old_valid_dev());
    assert_eq!(d.new_encode_dev(), 0x67 | (0x12 << 8) | (0x3_4500 << 12));
    assert_eq!((d.major() << 20) | d.minor(), d.data());
}

#[test]
fn device_number_old_encoding_agrees_for_small_numbers() {
    let d = DeviceNumber::from((8u32 << 20) | 17);
    assert!(d.old_valid_dev());
    assert_eq!(d.new_encode_dev(), (8 << 8) | 17);
}

#[test]
fn generic_stat_from_kstat() {
    let md = sample_metadata();
    let k = kstat_from_metadata(&md, PosixStatxMask::STATX_ALL());
    let s = GenericPosixStat::try_from(k).unwrap();
    assert_eq!(s.st_dev, DeviceNumber::from(0x0080_0003u32).new_encode_dev() as u64);
    assert_eq!(s.st_dev, 0x3 | (0x8 << 8));
    assert_eq!(s.st_rdev, 0x0100_0007);
    assert_eq!(s.st_ino, 42);
    assert_eq!(s.st_mode, 0o100644);
    assert_eq!(s.st_nlink, 3);
    assert_eq!(s.st_uid, 1000);
    assert_eq!(s.st_gid, 100);
    assert_eq!(s.st_size, 4096);
    assert_eq!(s.st_blksize, 512);
    assert_eq!(s.st_blocks, 8);
    assert_eq!(s.st_atime, 100);
    assert_eq!(s.st_atime_nsec, 1);
    assert_eq!(s.st_mtime_nsec, 2);
    assert_eq!(s.st_ctime, 300);
    assert_eq!(s.__pad1, 0);
}

#[test]
fn generic_stat_default_is_zero() {
    let s = GenericPosixStat::default();
    assert_eq!(s.st_dev, 0);
    assert_eq!(s.st_ctime_nsec, 0);
}

#[test]
fn statx_from_kstat_hides_kernel_bits() {
    let md = sample_metadata();
    let mut k = kstat_from_metadata(&md, PosixStatxMask::STATX_ALL());
    k.result_mask.insert(PosixStatxMask::STATX_CHANGE_COOKIE());
    k.attributes.insert(StxAttributes::STATX_ATTR_CHANGE_MONOTONIC());
    let x = PosixStatx::from_kstat(&k);
    assert_eq!(x.stx_mask.bits, 0x7ff);
    assert_eq!(x.stx_attributes, StxAttributes::STATX_ATTR_APPEND());
    assert_eq!(x.stx_dev_major, 0x8);
    assert_eq!(x.stx_dev_minor, 0x3);
    assert_eq!(x.stx_rdev_major, 0x10);
    assert_eq!(x.stx_rdev_minor, 0x7);
    assert_eq!(x.stx_btime, ts(50, 5));
    assert_eq!(x.stx_size, 4096);
}

#[test]
fn stat_agrees_with_statx() {
    let md = sample_metadata();
    let k = kstat_from_metadata(&md, PosixStatxMask::STATX_ALL());
    let s = GenericPosixStat::try_from(k).unwrap();
    let x = PosixStatx::from_kstat(&k);
    assert_eq!(s.st_ino, x.stx_inode);
    assert_eq!(s.st_mode, x.stx_mode.bits());
    assert_eq!(s.st_size, x.stx_size);
    assert_eq!(
        s.st_dev,
        DeviceNumber::from((x.stx_dev_major << 20) | x.stx_dev_minor).new_encode_dev() as u64
    );
}

#[test]
fn statx_new_is_zero() {
    let x = PosixStatx::new();
    assert_eq!(x.stx_mask.bits, 0);
    assert_eq!(x.stx_mnt_id, 0);
}

#[test]
fn statx_attributes_within_mask_unless_all_requested() {
    let md = sample_metadata();
    let k = statx_mark_mount_root(
        kstat_from_metadata(&md, PosixStatxMask::STATX_BASIC_STATS()),
        true,
    );
    assert_eq!(k.attributes.bits & !k.attributes_mask.bits, 0);
    let all = statx_mark_mount_root(kstat_from_metadata(&md, PosixStatxMask::STATX_ALL()), true);
    assert_ne!(all.attributes.bits & !all.attributes_mask.bits, 0);
}

#[test]
fn flag_operations() {
    let mut m = PosixStatxMask::from_bits_truncate(0xffff_ffff);
    assert_eq!(m.bits, 0xC000_7FFF);
    m.remove(PosixStatxMask::STATX_RESERVED());
    assert!(!m.contains(PosixStatxMask::STATX_RESERVED()));
    assert!(m.contains(PosixStatxMask::STATX_ALL()));
    assert_eq!(PosixStatxMask::STATX_CHANGE_COOKIE().complement().bits, 0x8000_7FFF);
    assert!(AtFlags::AT_STATX_SYNC_TYPE().intersects(AtFlags::from_bits_truncate(0x2000)));
    assert!(!AtFlags::AT_STATX_SYNC_TYPE().contains(AtFlags::from_bits_truncate(0x2100)));
    assert_eq!(
        StxAttributes::STATX_ATTR_CHANGE_MONOTONIC().complement().bits,
        0x0000_0000_0030_3874
    );
}

#[test]
fn distinct_devices_encode_differently() {
    let a = DeviceNumber::from((1u32 << 20) | 0x100);
    let b = DeviceNumber::from(0x100u32);
    let c = DeviceNumber::from(0x0010_0001u32);
    assert_ne!(a.new_encode_dev(), b.new_encode_dev());
    assert_ne!(a.new_encode_dev(), c.new_encode_dev());
}
