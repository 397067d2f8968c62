//! The owned security identifier of the "Everyone" well-known group.

use vstd::prelude::*;
use crate::error::BuildError;
use crate::os_model::OsCall;

verus! {

/// An owned, OS-allocated security identifier.
///
/// The view is the raw native handle. A `Sid` can only be constructed from a
/// successful lookup outcome, so the handle is non-null for the whole life
/// of the value; it is released exactly once, by turning the value into its
/// release call with [`Sid::into_release`], which consumes it.
#[derive(Debug)]
pub struct Sid {
    handle: u64,
}

impl View for Sid {
    type V = u64;

    /// The raw native handle.
    closed spec fn view(&self) -> u64 {
        self.handle
    }
}

impl Sid {
    /// The identifier handle is non-null.
    pub open spec fn wf(&self) -> bool {
        self@ != 0
    }

    /// Builds the owned identifier from the outcome of the well-known-SID
    /// lookup call, or surfaces the lookup's last-error code.
    ///
    /// A successful lookup hands back a non-null handle, which the caller
    /// asserts by the precondition.
    pub fn from_lookup(ok: bool, handle: u64, last_error: u32) -> (r: Result<Sid, BuildError>)
        requires
            ok ==> handle != 0,
        ensures
            ok ==> (r matches Ok(s) && s@ == handle && s.wf()),
            !ok ==> r == Err::<Sid, BuildError>(BuildError::SidLookupFailed { code: last_error }),
    {
        if ok {
            Ok(Sid { handle })
        } else {
            Err(BuildError::SidLookupFailed { code: last_error })
        }
    }

    /// The raw handle, valid only while the `Sid` is alive.
    pub fn as_raw(&self) -> (r: u64)
        ensures
            r == self@,
    {
        self.handle
    }

    /// Consumes the identifier and returns the one release call that the
    /// SID allocator pairs with the lookup.
    pub fn into_release(self) -> (r: OsCall)
        ensures
            r == (OsCall::FreeSid { sid: self@ }),
    {
        OsCall::FreeSid { sid: self.handle }
    }
}

} // verus!
