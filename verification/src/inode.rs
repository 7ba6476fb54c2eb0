//! What the status calls read of a file: its metadata, as a file system's
//! inode reports it.

use vstd::prelude::*;

use crate::device::DeviceNumber;
use crate::error::SystemError;
use crate::flags::ModeType;
use crate::time::PosixTimeSpec;

verus! {

/// The type of a file.
#[derive(Clone, Copy, Debug, PartialEq, Eq, Structural)]
pub enum FileType {
    File,
    Dir,
    BlockDevice,
    CharDevice,
    FramebufferDevice,
    KvmDevice,
    Pipe,
    SymLink,
    Socket,
}

/// The type bits of the mode of a file of type `t`; devices that are not
/// block devices are character devices.
pub open spec fn file_type_mode_bits(t: FileType) -> u32 {
    match t {
        FileType::File => 0o100000u32,
        FileType::Dir => 0o040000u32,
        FileType::BlockDevice => 0o060000u32,
        FileType::CharDevice => 0o020000u32,
        FileType::SymLink => 0o120000u32,
        FileType::Socket => 0o140000u32,
        FileType::Pipe => 0o010000u32,
        FileType::KvmDevice => 0o020000u32,
        FileType::FramebufferDevice => 0o020000u32,
    }
}

impl From<FileType> for ModeType {
    fn from(val: FileType) -> (r: Self) {
        match val {
            FileType::File => ModeType::S_IFREG(),
            FileType::Dir => ModeType::S_IFDIR(),
            FileType::BlockDevice => ModeType::S_IFBLK(),
            FileType::CharDevice => ModeType::S_IFCHR(),
            FileType::SymLink => ModeType::S_IFLNK(),
            FileType::Socket => ModeType::S_IFSOCK(),
            FileType::Pipe => ModeType::S_IFIFO(),
            FileType::KvmDevice => ModeType::S_IFCHR(),
            FileType::FramebufferDevice => ModeType::S_IFCHR(),
        }
    }
}

impl vstd::std_specs::convert::FromSpecImpl<FileType> for ModeType {
    open spec fn obeys_from_spec() -> bool {
        true
    }

    open spec fn from_spec(v: FileType) -> ModeType {
        ModeType { bits: file_type_mode_bits(v) }
    }
}

/// The metadata of a file.
#[derive(Clone, Copy, Debug, PartialEq, Eq, Structural)]
pub struct Metadata {
    /// The device the file lives on.
    pub dev_id: usize,
    /// The inode number.
    pub inode_id: usize,
    /// The size in bytes.
    pub size: i64,
    /// The preferred size of an I/O.
    pub blk_size: usize,
    /// The number of blocks.
    pub blocks: usize,
    /// Last access.
    pub atime: PosixTimeSpec,
    /// Last modification.
    pub mtime: PosixTimeSpec,
    /// Last status change.
    pub ctime: PosixTimeSpec,
    /// Creation.
    pub btime: PosixTimeSpec,
    pub file_type: FileType,
    pub mode: ModeType,
    /// The number of hard links.
    pub nlinks: usize,
    pub uid: usize,
    pub gid: usize,
    /// The device the file stands for, if it is a device file.
    pub raw_dev: DeviceNumber,
}

/// A file as a file system presents it.
pub trait IndexNode {
    /// The file's metadata.
    fn metadata(&self) -> Result<Metadata, SystemError>;
}

/// The type bits tell the file types apart as POSIX does: a regular file,
/// directory, block device, symbolic link, socket and pipe each have their
/// own, and every other device reads as a character device.
pub proof fn lemma_file_type_mode_bits(t: FileType)
    ensures
        file_type_mode_bits(t) & !0o170000u32 == 0,
        (file_type_mode_bits(t) == 0o100000) == (t == FileType::File),
        (file_type_mode_bits(t) == 0o040000) == (t == FileType::Dir),
        (file_type_mode_bits(t) == 0o060000) == (t == FileType::BlockDevice),
        (file_type_mode_bits(t) == 0o120000) == (t == FileType::SymLink),
        (file_type_mode_bits(t) == 0o140000) == (t == FileType::Socket),
        (file_type_mode_bits(t) == 0o010000) == (t == FileType::Pipe),
        (file_type_mode_bits(t) == 0o020000) == (t == FileType::CharDevice || t
            == FileType::KvmDevice || t == FileType::FramebufferDevice),
{
    assert(0o100000u32 & !0o170000u32 == 0 && 0o040000u32 & !0o170000u32 == 0 && 0o060000u32
        & !0o170000u32 == 0 && 0o020000u32 & !0o170000u32 == 0 && 0o120000u32 & !0o170000u32 == 0
        && 0o140000u32 & !0o170000u32 == 0 && 0o010000u32 & !0o170000u32 == 0) by (bit_vector);
}

} // verus!
