use vstd::prelude::*;

verus! {

/// The kernel errors that the file status calls report.
#[derive(Clone, Copy, Debug, PartialEq, Eq, Structural)]
pub enum SystemError {
    /// Operation not permitted.
    EPERM,
    /// Bad file descriptor.
    EBADF,
    /// Bad address.
    EFAULT,
    /// Invalid argument.
    EINVAL,
    /// Value too large for defined data type.
    EOVERFLOW,
}

} // verus!
