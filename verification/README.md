# vfs_stat

File status for a kernel's virtual file system, verified with Verus.

- `src/flags.rs`: the flag sets (`AtFlags`, `PosixStatxMask`, `StxAttributes`,
  `ModeType`, `LookUpFlags`) and the path-walk flags that `*at` flags ask for.
- `src/device.rs`, `src/time.rs`: device numbers and timestamps.
- `src/inode.rs`: file types, metadata and the `IndexNode` trait that file
  systems implement.
- `src/stat.rs`: `KStat`, how `getattr` fills it from metadata, and the
  decisions of `statx`, `fstat` and `fstatat`.
- `src/posix.rs`: the `stat` and `statx` structures handed to user space.
- `app/`: the system calls, run against the kernel's lookup, descriptor table
  and user memory.
