//! The single error kind of the library: a failed operating-system step.
//!
//! Every fallible step of the attribute construction surfaces the OS's
//! last-error code, or, for the batch ACL build, the status code that the
//! call itself returned.

use vstd::prelude::*;

verus! {

/// Why an attribute construction failed.
///
/// Each variant names the step that failed and carries the numeric code the
/// operating system reported, where the failing call reports one. A failed
/// descriptor buffer allocation signals failure by a null handle alone, so
/// that variant carries no code.
#[derive(Clone, Copy, Debug, PartialEq, Eq, Structural)]
pub enum BuildError {
    /// The local-memory allocation for the security descriptor buffer
    /// returned a null handle.
    DescriptorAllocationFailed,
    /// Initializing the freshly allocated descriptor buffer failed; carries
    /// the OS last-error code.
    DescriptorInitFailed { code: u32 },
    /// Looking up the well-known "Everyone" group identifier failed; carries
    /// the OS last-error code.
    SidLookupFailed { code: u32 },
    /// The batch ACL build reported a non-success status; carries that
    /// status code.
    AclBuildFailed { status: u32 },
    /// Attaching the list to the descriptor failed; carries the OS
    /// last-error code.
    DaclAttachFailed { code: u32 },
}

impl BuildError {
    /// The numeric code the operating system reported, or `None` for a
    /// failed allocation, which reports no code.
    pub fn os_code(&self) -> (r: Option<u32>)
        ensures
            r == self.os_code_spec(),
    {
        match self {
            BuildError::DescriptorAllocationFailed => None,
            BuildError::DescriptorInitFailed { code } => Some(*code),
            BuildError::SidLookupFailed { code } => Some(*code),
            BuildError::AclBuildFailed { status } => Some(*status),
            BuildError::DaclAttachFailed { code } => Some(*code),
        }
    }

    /// What `os_code` returns.
    pub open spec fn os_code_spec(&self) -> Option<u32> {
        match *self {
            BuildError::DescriptorAllocationFailed => None,
            BuildError::DescriptorInitFailed { code } => Some(code),
            BuildError::SidLookupFailed { code } => Some(code),
            BuildError::AclBuildFailed { status } => Some(status),
            BuildError::DaclAttachFailed { code } => Some(code),
        }
    }
}

} // verus!
