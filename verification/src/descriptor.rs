//! The owned security descriptor buffer, in its two lifecycle stages.

use vstd::prelude::*;
use crate::acl::AccessControlList;
use crate::error::BuildError;
use crate::os_model::OsCall;

verus! {

/// A descriptor buffer that has been allocated but not yet initialized.
///
/// The view is the raw native handle, non-null by construction. The buffer
/// must not be read as a descriptor yet; it either becomes a
/// [`SecurityDescriptor`] through [`UninitializedDescriptor::initialized`]
/// or is released through [`UninitializedDescriptor::into_release`].
#[derive(Debug)]
pub struct UninitializedDescriptor {
    handle: u64,
}

impl View for UninitializedDescriptor {
    type V = u64;

    /// The raw native handle.
    closed spec fn view(&self) -> u64 {
        self.handle
    }
}

impl UninitializedDescriptor {
    /// The buffer handle is non-null.
    pub open spec fn wf(&self) -> bool {
        self@ != 0
    }

    /// Takes the outcome of the local-memory allocation of the descriptor
    /// buffer. A null handle is the allocation's failure signal and yields
    /// the allocation error; any other handle yields the owned buffer.
    pub fn from_allocation(handle: u64) -> (r: Result<UninitializedDescriptor, BuildError>)
        ensures
            handle != 0 ==> (r matches Ok(d) && d@ == handle && d.wf()),
            handle == 0 ==> r == Err::<UninitializedDescriptor, BuildError>(
                BuildError::DescriptorAllocationFailed,
            ),
    {
        if handle != 0 {
            Ok(UninitializedDescriptor { handle })
        } else {
            Err(BuildError::DescriptorAllocationFailed)
        }
    }

    /// Takes the outcome of the descriptor initialization call. On success
    /// the buffer becomes a valid empty descriptor with no list attached;
    /// on failure the call's last-error code is surfaced together with the
    /// release call of the buffer, which a partial construction must still
    /// perform.
    pub fn initialized(self, ok: bool, last_error: u32) -> (r: Result<
        SecurityDescriptor,
        (BuildError, OsCall),
    >)
        ensures
            ok ==> (r matches Ok(d) && d@ == self@ && d.dacl() is None && (self.wf() ==> d.wf())),
            !ok ==> (r matches Err(e) && e.0 == (BuildError::DescriptorInitFailed {
                code: last_error,
            }) && e.1 == (OsCall::FreeLocal { handle: self@ })),
    {
        if ok {
            Ok(SecurityDescriptor { handle: self.handle, dacl: None })
        } else {
            Err(
                (
                    BuildError::DescriptorInitFailed { code: last_error },
                    OsCall::FreeLocal { handle: self.handle },
                ),
            )
        }
    }

    /// The raw handle, valid only while the buffer is alive.
    pub fn as_raw(&self) -> (r: u64)
        ensures
            r == self@,
    {
        self.handle
    }

    /// Consumes the buffer and returns the local-memory release call paired
    /// with its allocation.
    pub fn into_release(self) -> (r: OsCall)
        ensures
            r == (OsCall::FreeLocal { handle: self@ }),
    {
        OsCall::FreeLocal { handle: self.handle }
    }
}

/// An owned, initialized security descriptor.
///
/// The view is the raw native handle. The descriptor optionally carries a
/// reference to an access control list it does not own: [`Self::dacl`] is
/// the raw handle of the attached list, and whoever owns both must keep the
/// list alive for as long as the descriptor can be read.
#[derive(Debug)]
pub struct SecurityDescriptor {
    handle: u64,
    dacl: Option<u64>,
}

impl View for SecurityDescriptor {
    type V = u64;

    /// The raw native handle of the descriptor buffer.
    closed spec fn view(&self) -> u64 {
        self.handle
    }
}

impl SecurityDescriptor {
    /// The raw handle of the attached discretionary ACL, if one is
    /// attached.
    pub closed spec fn dacl(&self) -> Option<u64> {
        self.dacl
    }

    /// The descriptor handle is non-null.
    pub open spec fn wf(&self) -> bool {
        self@ != 0
    }

    /// Takes the outcome of the call that attaches `acl` as the
    /// descriptor's discretionary ACL, explicit and not defaulted. On
    /// success the descriptor records the borrowed list's handle; on
    /// failure the call's last-error code is surfaced and the descriptor is
    /// unchanged.
    pub fn set_dacl(&mut self, acl: &AccessControlList, ok: bool, last_error: u32) -> (r: Result<
        (),
        BuildError,
    >)
        ensures
            final(self)@ == old(self)@,
            ok ==> r is Ok && final(self).dacl() == Some(acl@),
            !ok ==> r == Err::<(), BuildError>(BuildError::DaclAttachFailed { code: last_error })
                && final(self).dacl() == old(self).dacl(),
    {
        if ok {
            self.dacl = Some(acl.as_raw());
            Ok(())
        } else {
            Err(BuildError::DaclAttachFailed { code: last_error })
        }
    }

    /// The raw handle, valid only while the descriptor is alive.
    pub fn as_raw(&self) -> (r: u64)
        ensures
            r == self@,
    {
        self.handle
    }

    /// Consumes the descriptor and returns the local-memory release call
    /// paired with its allocation. The attached list, if any, is not the
    /// descriptor's to release.
    pub fn into_release(self) -> (r: OsCall)
        ensures
            r == (OsCall::FreeLocal { handle: self@ }),
    {
        OsCall::FreeLocal { handle: self.handle }
    }
}

} // verus!
