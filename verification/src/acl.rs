//! Access control entries and the owned access control list.

use vstd::prelude::*;
use crate::error::BuildError;
use crate::os_model::{AceRecord, OsCall, ERROR_SUCCESS, TRUSTEE_IS_SID};
use crate::sid::Sid;

verus! {

/// One access control entry, bound to the `Sid` it names as trustee.
///
/// The entry borrows its `Sid`, so it cannot outlive it: an entry whose
/// trustee has already been released is unrepresentable. Unset fields start
/// zeroed, so no undefined native state can leak into the batch submission.
/// The setters consume and return the entry, so a configuration chains into
/// one expression and finalizes into an immutable [`AceRecord`].
pub struct AccessControlEntry<'a> {
    sid: &'a Sid,
    trustee_kind: u32,
    access_mode: u32,
    permissions: u32,
    inheritance: u32,
}

impl<'a> AccessControlEntry<'a> {
    /// The batch-ready record the entry currently denotes.
    pub closed spec fn record_spec(&self) -> AceRecord {
        AceRecord {
            trustee_sid: self.sid@,
            trustee_form: TRUSTEE_IS_SID,
            trustee_kind: self.trustee_kind,
            access_mode: self.access_mode,
            permissions: self.permissions,
            inheritance: self.inheritance,
        }
    }

    /// A default entry naming `sid` as trustee of the given kind, with the
    /// trustee identified by its SID and every access field zeroed.
    pub fn new(sid: &'a Sid, trustee_kind: u32) -> (r: AccessControlEntry<'a>)
        ensures
            r.record_spec() == (AceRecord {
                trustee_sid: sid@,
                trustee_form: TRUSTEE_IS_SID,
                trustee_kind,
                access_mode: 0,
                permissions: 0,
                inheritance: 0,
            }),
    {
        AccessControlEntry { sid, trustee_kind, access_mode: 0, permissions: 0, inheritance: 0 }
    }

    /// Sets how the entry combines with existing rights of the trustee.
    pub fn set_access_mode(self, access_mode: u32) -> (r: AccessControlEntry<'a>)
        ensures
            r.record_spec() == (AceRecord { access_mode, ..self.record_spec() }),
    {
        AccessControlEntry { access_mode, ..self }
    }

    /// Sets the permission bitmask granted to the trustee.
    pub fn set_access_permissions(self, permissions: u32) -> (r: AccessControlEntry<'a>)
        ensures
            r.record_spec() == (AceRecord { permissions, ..self.record_spec() }),
    {
        AccessControlEntry { permissions, ..self }
    }

    /// Sets the inheritance flags of the entry.
    pub fn allow_inheritance(self, inheritance: u32) -> (r: AccessControlEntry<'a>)
        ensures
            r.record_spec() == (AceRecord { inheritance, ..self.record_spec() }),
    {
        AccessControlEntry { inheritance, ..self }
    }

    /// The finalized record, ready for batch submission.
    pub fn record(&self) -> (r: AceRecord)
        ensures
            r == self.record_spec(),
    {
        AceRecord {
            trustee_sid: self.sid.as_raw(),
            trustee_form: TRUSTEE_IS_SID,
            trustee_kind: self.trustee_kind,
            access_mode: self.access_mode,
            permissions: self.permissions,
            inheritance: self.inheritance,
        }
    }
}

/// An owned, OS-allocated access control list built by the batch builder.
///
/// The view is the raw native handle, non-null for the whole life of the
/// value. The list lives on the local heap — the batch builder allocates it
/// there — so [`AccessControlList::into_release`] pairs it with the
/// local-memory free call, not with the SID allocator's.
#[derive(Debug)]
pub struct AccessControlList {
    handle: u64,
}

impl View for AccessControlList {
    type V = u64;

    /// The raw native handle.
    closed spec fn view(&self) -> u64 {
        self.handle
    }
}

impl AccessControlList {
    /// The list handle is non-null.
    pub open spec fn wf(&self) -> bool {
        self@ != 0
    }

    /// Builds the owned list from the outcome of the batch ACL build, or
    /// surfaces the status code the call returned.
    ///
    /// A successful build hands back a non-null handle, which the caller
    /// asserts by the precondition.
    pub fn from_build(status: u32, handle: u64) -> (r: Result<AccessControlList, BuildError>)
        requires
            status == ERROR_SUCCESS ==> handle != 0,
        ensures
            status == ERROR_SUCCESS ==> (r matches Ok(l) && l@ == handle && l.wf()),
            status != ERROR_SUCCESS ==> r == Err::<AccessControlList, BuildError>(
                BuildError::AclBuildFailed { status },
            ),
    {
        if status == ERROR_SUCCESS {
            Ok(AccessControlList { handle })
        } else {
            Err(BuildError::AclBuildFailed { status })
        }
    }

    /// The raw handle, valid only while the list is alive.
    pub fn as_raw(&self) -> (r: u64)
        ensures
            r == self@,
    {
        self.handle
    }

    /// Consumes the list and returns the one release call that pairs with
    /// the batch builder's allocator.
    pub fn into_release(self) -> (r: OsCall)
        ensures
            r == (OsCall::FreeLocal { handle: self@ }),
    {
        OsCall::FreeLocal { handle: self.handle }
    }
}

} // verus!
