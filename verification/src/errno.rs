use vstd::prelude::*;

verus! {

/// The closed error space of the filesystem layer. Every operation resolves
/// to success or to exactly one member of this enumeration.
#[derive(Clone, Copy, Debug, PartialEq, Eq, Structural)]
pub enum Errno {
    /// A name is absent from a directory.
    ENOENT,
    /// A descriptor is out of range or its slot is empty.
    EBADF,
    /// A mutating call was rejected by an immutable backend.
    EPERM,
    /// A second mount was attempted while an exclusive backend is mounted.
    EBUSY,
    /// A name to be created already exists in the directory.
    EEXIST,
    /// A directory operation was applied to a non-directory.
    ENOTDIR,
    /// A directory to be removed still has children.
    ENOTEMPTY,
}

impl Errno {
    /// The conventional positive number of this error.
    pub open spec fn spec_code(self) -> i32 {
        match self {
            Errno::EPERM => 1,
            Errno::ENOENT => 2,
            Errno::EBADF => 9,
            Errno::EBUSY => 16,
            Errno::EEXIST => 17,
            Errno::ENOTDIR => 20,
            Errno::ENOTEMPTY => 39,
        }
    }

    /// The conventional positive number of this error.
    pub fn code(&self) -> (c: i32)
        ensures
            c == self.spec_code(),
            0 < c,
    {
        match self {
            Errno::EPERM => 1,
            Errno::ENOENT => 2,
            Errno::EBADF => 9,
            Errno::EBUSY => 16,
            Errno::EEXIST => 17,
            Errno::ENOTDIR => 20,
            Errno::ENOTEMPTY => 39,
        }
    }

    /// Encode this error for the syscall return convention: zero or positive
    /// means success, so an error travels as its negated code.
    pub fn as_ret(&self) -> (r: i32)
        ensures
            r == -self.spec_code(),
            r < 0,
    {
        -self.code()
    }
}

} // verus!
