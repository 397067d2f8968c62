//! The boundary with the operating system, as plain values.
//!
//! The library never issues a native call itself. Instead the build state
//! machine hands out an [`OsCall`] describing exactly which call to perform
//! and with which arguments, and takes back an [`OsOutcome`] describing what
//! the call reported. Native handles are carried as `u64` values, with `0`
//! standing for a null handle. An unverified adapter translates both
//! directions and performs the calls.
//!
//! Each native allocator is paired with exactly one deallocation call;
//! [`AllocatorKind`] names the pairing so that contracts can state that every
//! resource is released through the routine that produced it.

use vstd::prelude::*;
use vstd::multiset::Multiset;

verus! {

/// Generic read access right (`GENERIC_READ`).
pub const GENERIC_READ: u32 = 0x8000_0000;

/// Generic write access right (`GENERIC_WRITE`).
pub const GENERIC_WRITE: u32 = 0x4000_0000;

/// Right to write data to a file or pipe (`FILE_WRITE_DATA`).
pub const FILE_WRITE_DATA: u32 = 0x0002;

/// Access mode that makes an entry fully replace any existing rights of its
/// trustee rather than merging with them (`SET_ACCESS`).
pub const SET_ACCESS: u32 = 2;

/// Inheritance flags meaning that child objects inherit nothing
/// (`NO_INHERITANCE`).
pub const NO_INHERITANCE: u32 = 0;

/// Trustee form saying the trustee is identified by a SID handle
/// (`TRUSTEE_IS_SID`).
pub const TRUSTEE_IS_SID: u32 = 0;

/// Trustee type for a well-known group such as "Everyone"
/// (`TRUSTEE_IS_WELL_KNOWN_GROUP`).
pub const TRUSTEE_IS_WELL_KNOWN_GROUP: u32 = 5;

/// Relative identifier of the "Everyone" group under the world SID
/// authority (`SECURITY_WORLD_RID`).
pub const SECURITY_WORLD_RID: u32 = 0;

/// Revision level a fresh security descriptor is initialized to
/// (`SECURITY_DESCRIPTOR_REVISION`).
pub const SECURITY_DESCRIPTOR_REVISION: u32 = 1;

/// The status code the batch ACL builder returns on success
/// (`ERROR_SUCCESS`).
pub const ERROR_SUCCESS: u32 = 0;

/// Which native allocator a resource came from, and therefore which
/// deallocation routine must release it. Releasing through the wrong routine
/// is undefined behavior, so the pairing is part of every contract about
/// releases.
#[derive(Clone, Copy, Debug, PartialEq, Eq, Structural)]
pub enum AllocatorKind {
    /// The well-known-SID allocator; released with the SID-specific free
    /// call.
    WellKnownSid,
    /// The local process heap, used for the descriptor buffer and for the
    /// list the batch ACL builder returns; released with the local-memory
    /// free call.
    LocalHeap,
}

/// One live native allocation: the allocator it came from and its handle.
#[derive(Clone, Copy, Debug, PartialEq, Eq, Structural)]
pub struct Allocation {
    /// The allocator that produced the handle.
    pub kind: AllocatorKind,
    /// The non-null native handle.
    pub handle: u64,
}

/// One access control entry, laid out for batch submission to the ACL
/// builder. Every field is a plain value; the trustee is carried as the raw
/// SID handle the entry was built from.
#[derive(Clone, Copy, Debug, PartialEq, Eq, Structural)]
pub struct AceRecord {
    /// Raw handle of the SID identifying the trustee.
    pub trustee_sid: u64,
    /// How the trustee is identified; always [`TRUSTEE_IS_SID`] here.
    pub trustee_form: u32,
    /// What kind of principal the trustee is, e.g.
    /// [`TRUSTEE_IS_WELL_KNOWN_GROUP`].
    pub trustee_kind: u32,
    /// How the entry combines with existing rights, e.g. [`SET_ACCESS`].
    pub access_mode: u32,
    /// The permission bitmask granted to the trustee.
    pub permissions: u32,
    /// Inheritance flags, e.g. [`NO_INHERITANCE`].
    pub inheritance: u32,
}

/// A native call the build state machine asks the adapter to perform.
///
/// Handles named in a call are ones the machine currently holds; the adapter
/// performs the call verbatim and reports the matching [`OsOutcome`].
#[derive(Debug)]
pub enum OsCall {
    /// Allocate a zero-initialized buffer of the platform's minimum security
    /// descriptor length from the local heap (`LocalAlloc` with `LPTR`).
    /// Outcome: [`OsOutcome::Allocated`]; a null handle signals failure.
    AllocateDescriptor,
    /// Initialize the descriptor buffer to a valid empty descriptor
    /// (`InitializeSecurityDescriptor`). Outcome: [`OsOutcome::CallStatus`].
    InitializeDescriptor {
        /// The descriptor buffer to initialize.
        descriptor: u64,
        /// The revision to initialize it to; always
        /// [`SECURITY_DESCRIPTOR_REVISION`].
        revision: u32,
    },
    /// Build an owned list from the given entries in one batch
    /// (`SetEntriesInAclW` with no existing list). Outcome:
    /// [`OsOutcome::AclResult`]. The returned list lives on the local heap.
    BuildAcl {
        /// The entries the list is built from; may be empty.
        entries: Vec<AceRecord>,
    },
    /// Look up and allocate the SID of the "Everyone" well-known group: one
    /// subauthority equal to `rid` under the world SID authority
    /// (`AllocateAndInitializeSid`). Outcome: [`OsOutcome::SidResult`].
    LookupEveryoneSid {
        /// The relative identifier; always [`SECURITY_WORLD_RID`].
        rid: u32,
    },
    /// Attach the list to the descriptor as its discretionary ACL
    /// (`SetSecurityDescriptorDacl`). Outcome: [`OsOutcome::CallStatus`].
    AttachDacl {
        /// The descriptor the list is attached to.
        descriptor: u64,
        /// The list being attached.
        acl: u64,
        /// Whether a list is present; always `true` here.
        present: bool,
        /// Whether the list is a default one; always `false` here — the
        /// attached list is explicit, not defaulted.
        defaulted: bool,
    },
    /// Release a SID obtained from the well-known-SID allocator (`FreeSid`).
    /// No outcome: the release always completes.
    FreeSid {
        /// The SID handle to release.
        sid: u64,
    },
    /// Release a local-heap allocation: a descriptor buffer or a built list
    /// (`LocalFree`). No outcome: the release always completes.
    FreeLocal {
        /// The local-heap handle to release.
        handle: u64,
    },
}

/// What a performed [`OsCall`] reported back.
#[derive(Clone, Copy, Debug)]
pub enum OsOutcome {
    /// Outcome of an allocation: the new handle, or `0` for failure.
    Allocated {
        /// The allocated handle; `0` means the allocation failed.
        handle: u64,
    },
    /// Outcome of a call that reports success or failure and leaves a
    /// last-error code on failure.
    CallStatus {
        /// Whether the call succeeded.
        ok: bool,
        /// The OS last-error code; meaningful only when `ok` is false.
        last_error: u32,
    },
    /// Outcome of the well-known-SID lookup.
    SidResult {
        /// Whether the lookup succeeded.
        ok: bool,
        /// The allocated SID handle; non-null exactly when `ok` is true.
        handle: u64,
        /// The OS last-error code; meaningful only when `ok` is false.
        last_error: u32,
    },
    /// Outcome of the batch ACL build.
    AclResult {
        /// The status the call returned; [`ERROR_SUCCESS`] means success.
        status: u32,
        /// The handle of the built list; non-null exactly on success.
        handle: u64,
    },
}

/// The allocation a local-heap handle stands for.
pub open spec fn local_alloc(handle: u64) -> Allocation {
    Allocation { kind: AllocatorKind::LocalHeap, handle }
}

/// The allocation a SID handle stands for.
pub open spec fn sid_alloc(handle: u64) -> Allocation {
    Allocation { kind: AllocatorKind::WellKnownSid, handle }
}

/// The allocations a single call releases: one for a release call, none for
/// any other.
pub open spec fn released_by_call(c: OsCall) -> Multiset<Allocation> {
    match c {
        OsCall::FreeSid { sid } => Multiset::empty().insert(
            (Allocation { kind: AllocatorKind::WellKnownSid, handle: sid }),
        ),
        OsCall::FreeLocal { handle } => Multiset::empty().insert(
            (Allocation { kind: AllocatorKind::LocalHeap, handle }),
        ),
        _ => Multiset::empty(),
    }
}

/// The allocations a sequence of calls releases, release calls counted with
/// multiplicity so that a double release would show as a count of two.
pub open spec fn released_by_calls(calls: Seq<OsCall>) -> Multiset<Allocation>
    decreases calls.len(),
{
    if calls.len() == 0 {
        Multiset::empty()
    } else {
        released_by_calls(calls.drop_last()).add(released_by_call(calls.last()))
    }
}

/// Whether a call is a release call.
pub open spec fn is_release_call(c: OsCall) -> bool {
    c matches OsCall::FreeSid { .. } || c matches OsCall::FreeLocal { .. }
}

/// Whether every call in the sequence is a release call, i.e. the sequence
/// performs no construction work.
pub open spec fn all_release_calls(calls: Seq<OsCall>) -> bool {
    forall|i: int| 0 <= i < calls.len() ==> is_release_call(#[trigger] calls[i])
}

} // verus!
