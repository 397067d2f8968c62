//! The build state machine: the verified decision core of the library.
//!
//! Constructing security attributes takes six native calls in a fixed
//! order: allocate the descriptor buffer, initialize it, build a
//! provisional empty list, look up the "Everyone" SID, build the real
//! single-entry list, and attach it to the descriptor. The machine decides
//! every step; an unverified adapter performs each requested
//! [`OsCall`] and hands the [`OsOutcome`] back. The first failing step
//! aborts the whole construction, and every resource acquired before the
//! failing step is still released, through the deallocator paired with its
//! allocator.

use vstd::prelude::*;
use vstd::multiset::Multiset;
use vstd::pervasive::unreached;
use crate::acl::{AccessControlEntry, AccessControlList};
use crate::attributes::{
    owned_allocations, AttributesRecord, AttributesView, InnerAttributes, SecurityAttributes,
};
use crate::descriptor::{SecurityDescriptor, UninitializedDescriptor};
use crate::error::BuildError;
use crate::os_model::{
    all_release_calls, local_alloc, released_by_call, released_by_calls, sid_alloc, AceRecord,
    Allocation, OsCall, OsOutcome, ERROR_SUCCESS, NO_INHERITANCE, SECURITY_DESCRIPTOR_REVISION,
    SECURITY_WORLD_RID, SET_ACCESS, TRUSTEE_IS_SID, TRUSTEE_IS_WELL_KNOWN_GROUP,
};
use crate::sid::Sid;

verus! {

broadcast use vstd::multiset::group_multiset_axioms;

/// The one entry the real list is built from: the given SID as trustee,
/// identified by SID, of well-known-group kind, with mode "set" — the entry
/// fully replaces any existing rights of the trustee — the given permission
/// mask, and no inheritance.
pub open spec fn everyone_entry(sid: u64, permissions: u32) -> AceRecord {
    AceRecord {
        trustee_sid: sid,
        trustee_form: TRUSTEE_IS_SID,
        trustee_kind: TRUSTEE_IS_WELL_KNOWN_GROUP,
        access_mode: SET_ACCESS,
        permissions,
        inheritance: NO_INHERITANCE,
    }
}

/// Where a build stands: which call is outstanding, and which resources the
/// machine holds while it waits.
#[allow(inconsistent_fields)]
#[derive(Debug)]
pub enum BuildPhase {
    /// The descriptor buffer allocation is outstanding.
    DescriptorRequested,
    /// The descriptor initialization is outstanding.
    InitRequested {
        /// The allocated, not yet initialized buffer.
        descriptor: UninitializedDescriptor,
    },
    /// The provisional empty list build is outstanding.
    ProvisionalListRequested {
        /// The initialized descriptor.
        descriptor: SecurityDescriptor,
    },
    /// The "Everyone" SID lookup is outstanding.
    SidRequested {
        /// The initialized descriptor.
        descriptor: SecurityDescriptor,
        /// The provisional empty list.
        provisional: AccessControlList,
    },
    /// The real single-entry list build is outstanding.
    ListRequested {
        /// The initialized descriptor.
        descriptor: SecurityDescriptor,
        /// The provisional empty list, replaced when the real one arrives.
        provisional: AccessControlList,
        /// The looked-up "Everyone" identifier.
        sid: Sid,
    },
    /// The attach of the real list to the descriptor is outstanding.
    AttachRequested {
        /// The initialized descriptor.
        descriptor: SecurityDescriptor,
        /// The real single-entry list.
        acl: AccessControlList,
        /// The identifier, kept alive until the build settles.
        sid: Sid,
    },
    /// The build succeeded; the facade owns the completed bundle.
    Done {
        /// The completed facade.
        attributes: SecurityAttributes,
    },
    /// The build failed; everything acquired has been released.
    Failed {
        /// The first failure, which aborted the construction.
        error: BuildError,
    },
}

/// The native allocations the machine holds in a given phase, each tagged
/// with the allocator that must release it.
pub open spec fn held_allocations(phase: BuildPhase) -> Multiset<Allocation> {
    match phase {
        BuildPhase::DescriptorRequested => Multiset::empty(),
        BuildPhase::InitRequested { descriptor } => Multiset::empty().insert(
            local_alloc(descriptor@),
        ),
        BuildPhase::ProvisionalListRequested { descriptor } => Multiset::empty().insert(
            local_alloc(descriptor@),
        ),
        BuildPhase::SidRequested { descriptor, provisional } => Multiset::empty().insert(
            local_alloc(descriptor@),
        ).insert(local_alloc(provisional@)),
        BuildPhase::ListRequested { descriptor, provisional, sid } => Multiset::empty().insert(
            local_alloc(descriptor@),
        ).insert(local_alloc(provisional@)).insert(sid_alloc(sid@)),
        BuildPhase::AttachRequested { descriptor, acl, sid } => Multiset::empty().insert(
            local_alloc(descriptor@),
        ).insert(local_alloc(acl@)).insert(sid_alloc(sid@)),
        BuildPhase::Done { attributes } => owned_allocations(attributes),
        BuildPhase::Failed { .. } => Multiset::empty(),
    }
}

/// Well-formedness of a phase: every held resource is non-null, and held
/// local-heap handles are pairwise distinct, so no allocation is held
/// twice.
pub open spec fn phase_wf(phase: BuildPhase) -> bool {
    match phase {
        BuildPhase::DescriptorRequested => true,
        BuildPhase::InitRequested { descriptor } => descriptor.wf(),
        BuildPhase::ProvisionalListRequested { descriptor } => descriptor.wf(),
        BuildPhase::SidRequested { descriptor, provisional } => descriptor.wf()
            && provisional.wf() && descriptor@ != provisional@,
        BuildPhase::ListRequested { descriptor, provisional, sid } => descriptor.wf()
            && provisional.wf() && descriptor@ != provisional@ && sid.wf(),
        BuildPhase::AttachRequested { descriptor, acl, sid } => descriptor.wf() && acl.wf()
            && descriptor@ != acl@ && sid.wf(),
        BuildPhase::Done { attributes } => attributes.wf(),
        BuildPhase::Failed { .. } => true,
    }
}

/// Whether an outcome is one the outstanding call of `phase` can report on
/// a conformant OS: it is of the matching kind, a reported success carries
/// a non-null handle, and a newly allocated local-heap handle is distinct
/// from the local-heap handles already held, as live allocations of one
/// heap are.
///
/// The provisional build of an empty list cannot meaningfully fail; a
/// failure there is fatal, not recoverable, so only its success outcome is
/// admissible, and the adapter must treat anything else as a fatal
/// condition before it reaches the machine.
pub open spec fn outcome_fits(phase: BuildPhase, outcome: OsOutcome) -> bool {
    match phase {
        BuildPhase::DescriptorRequested => outcome matches OsOutcome::Allocated { .. },
        BuildPhase::InitRequested { .. } => outcome matches OsOutcome::CallStatus { .. },
        BuildPhase::ProvisionalListRequested { descriptor } => outcome matches OsOutcome::AclResult {
            status,
            handle,
        } && status == ERROR_SUCCESS && handle != 0 && handle != descriptor@,
        BuildPhase::SidRequested { .. } => outcome matches OsOutcome::SidResult { ok, handle, .. }
            && (ok ==> handle != 0),
        BuildPhase::ListRequested { descriptor, provisional, .. } => outcome
            matches OsOutcome::AclResult { status, handle } && (status == ERROR_SUCCESS
            ==> handle != 0 && handle != descriptor@ && handle != provisional@),
        BuildPhase::AttachRequested { .. } => outcome matches OsOutcome::CallStatus { .. },
        BuildPhase::Done { .. } => false,
        BuildPhase::Failed { .. } => false,
    }
}

/// The allocation an outcome reports as newly acquired: one for each
/// successful allocating call, none otherwise.
pub open spec fn acquired_by(phase: BuildPhase, outcome: OsOutcome) -> Multiset<Allocation> {
    match (phase, outcome) {
        (BuildPhase::DescriptorRequested, OsOutcome::Allocated { handle }) => if handle != 0 {
            Multiset::empty().insert(local_alloc(handle))
        } else {
            Multiset::empty()
        },
        (
            BuildPhase::ProvisionalListRequested { .. },
            OsOutcome::AclResult { status, handle },
        ) => if status == ERROR_SUCCESS {
            Multiset::empty().insert(local_alloc(handle))
        } else {
            Multiset::empty()
        },
        (BuildPhase::SidRequested { .. }, OsOutcome::SidResult { ok, handle, .. }) => if ok {
            Multiset::empty().insert(sid_alloc(handle))
        } else {
            Multiset::empty()
        },
        (BuildPhase::ListRequested { .. }, OsOutcome::AclResult { status, handle }) => if status
            == ERROR_SUCCESS {
            Multiset::empty().insert(local_alloc(handle))
        } else {
            Multiset::empty()
        },
        _ => Multiset::empty(),
    }
}

/// The transition relation of the machine: how one step turns the previous
/// builder and an admissible outcome into the next builder and the release
/// calls performed on the way.
///
/// A success outcome advances the build; the replaced provisional list is
/// released at the replacement, and the SID once the build settles. A
/// failure outcome moves to `Failed` with the failing step's error and
/// releases everything still held, each handle through the deallocator
/// paired with its allocator, in the order the owners stand: the SID first,
/// then the descriptor buffer, then the list.
pub open spec fn step_rel(
    pre: AttributesBuilder,
    outcome: OsOutcome,
    post: AttributesBuilder,
    frees: Seq<OsCall>,
) -> bool {
    &&& post.permissions == pre.permissions
    &&& post.record_length == pre.record_length
    &&& match pre.phase {
        BuildPhase::DescriptorRequested => outcome matches OsOutcome::Allocated { handle } && (
        if handle != 0 {
            &&& post.phase matches BuildPhase::InitRequested { descriptor }
            &&& descriptor@ == handle
            &&& frees.len() == 0
        } else {
            &&& post.phase matches BuildPhase::Failed { error }
            &&& error == BuildError::DescriptorAllocationFailed
            &&& frees.len() == 0
        }),
        BuildPhase::InitRequested { descriptor } => outcome matches OsOutcome::CallStatus {
            ok,
            last_error,
        } && (if ok {
            &&& post.phase matches BuildPhase::ProvisionalListRequested { descriptor: d }
            &&& d@ == descriptor@
            &&& d.dacl() is None
            &&& frees.len() == 0
        } else {
            &&& post.phase matches BuildPhase::Failed { error }
            &&& error == (BuildError::DescriptorInitFailed { code: last_error })
            &&& frees.len() == 1
            &&& frees[0] == (OsCall::FreeLocal { handle: descriptor@ })
        }),
        BuildPhase::ProvisionalListRequested { descriptor } => outcome
            matches OsOutcome::AclResult { status, handle } && {
            &&& post.phase matches BuildPhase::SidRequested { descriptor: d, provisional }
            &&& d@ == descriptor@
            &&& d.dacl() == descriptor.dacl()
            &&& provisional@ == handle
            &&& frees.len() == 0
        },
        BuildPhase::SidRequested { descriptor, provisional } => outcome
            matches OsOutcome::SidResult { ok, handle, last_error } && (if ok {
            &&& post.phase matches BuildPhase::ListRequested {
                descriptor: d,
                provisional: p,
                sid,
            }
            &&& d@ == descriptor@
            &&& d.dacl() == descriptor.dacl()
            &&& p@ == provisional@
            &&& sid@ == handle
            &&& frees.len() == 0
        } else {
            &&& post.phase matches BuildPhase::Failed { error }
            &&& error == (BuildError::SidLookupFailed { code: last_error })
            &&& frees.len() == 2
            &&& frees[0] == (OsCall::FreeLocal { handle: descriptor@ })
            &&& frees[1] == (OsCall::FreeLocal { handle: provisional@ })
        }),
        BuildPhase::ListRequested { descriptor, provisional, sid } => outcome
            matches OsOutcome::AclResult { status, handle } && (if status == ERROR_SUCCESS {
            &&& post.phase matches BuildPhase::AttachRequested { descriptor: d, acl, sid: s }
            &&& d@ == descriptor@
            &&& d.dacl() == descriptor.dacl()
            &&& acl@ == handle
            &&& s@ == sid@
            &&& frees.len() == 1
            &&& frees[0] == (OsCall::FreeLocal { handle: provisional@ })
        } else {
            &&& post.phase matches BuildPhase::Failed { error }
            &&& error == (BuildError::AclBuildFailed { status })
            &&& frees.len() == 3
            &&& frees[0] == (OsCall::FreeSid { sid: sid@ })
            &&& frees[1] == (OsCall::FreeLocal { handle: descriptor@ })
            &&& frees[2] == (OsCall::FreeLocal { handle: provisional@ })
        }),
        BuildPhase::AttachRequested { descriptor, acl, sid } => outcome
            matches OsOutcome::CallStatus { ok, last_error } && (if ok {
            &&& post.phase matches BuildPhase::Done { attributes }
            &&& attributes@ == Some(
                AttributesView {
                    record: AttributesRecord {
                        length: pre.record_length,
                        descriptor: descriptor@,
                        inherit_handle: false,
                    },
                    descriptor: descriptor@,
                    dacl: Some(acl@),
                    acl: acl@,
                },
            )
            &&& frees.len() == 1
            &&& frees[0] == (OsCall::FreeSid { sid: sid@ })
        } else {
            &&& post.phase matches BuildPhase::Failed { error }
            &&& error == (BuildError::DaclAttachFailed { code: last_error })
            &&& frees.len() == 3
            &&& frees[0] == (OsCall::FreeSid { sid: sid@ })
            &&& frees[1] == (OsCall::FreeLocal { handle: descriptor@ })
            &&& frees[2] == (OsCall::FreeLocal { handle: acl@ })
        }),
        BuildPhase::Done { .. } => false,
        BuildPhase::Failed { .. } => false,
    }
}

/// The build state machine. It decides each step of the construction; an
/// adapter performs the outstanding call of [`Self::pending_call`], hands
/// the outcome to [`Self::step`], performs the release calls that come
/// back, and reads the result off [`Self::finish`] once nothing is
/// outstanding.
#[derive(Debug)]
pub struct AttributesBuilder {
    /// Where the build stands.
    pub phase: BuildPhase,
    /// The permission mask the finished attributes grant to "Everyone".
    pub permissions: u32,
    /// The byte size of the platform's native attributes record, copied
    /// into the finalized record.
    pub record_length: u32,
}

impl AttributesBuilder {
    /// The current phase is well-formed.
    pub open spec fn wf(&self) -> bool {
        phase_wf(self.phase)
    }

    /// Starts a build of attributes granting `permissions` to the
    /// "Everyone" well-known group; the descriptor buffer allocation is the
    /// first outstanding call.
    pub fn allow_everyone(permissions: u32, record_length: u32) -> (r: AttributesBuilder)
        ensures
            r.phase is DescriptorRequested,
            r.permissions == permissions,
            r.record_length == record_length,
            r.wf(),
    {
        AttributesBuilder { phase: BuildPhase::DescriptorRequested, permissions, record_length }
    }

    /// The call the adapter must perform next, or `None` once the build has
    /// settled. Each phase asks for exactly the call whose outcome
    /// [`Self::step`] expects: the provisional list is built from no
    /// entries, the real list from the single [`everyone_entry`], and the
    /// attach marks the list present and not defaulted.
    pub fn pending_call(&self) -> (r: Option<OsCall>)
        ensures
            self.phase is DescriptorRequested ==> r == Some(OsCall::AllocateDescriptor),
            self.phase matches BuildPhase::InitRequested { descriptor } ==> r == Some(
                OsCall::InitializeDescriptor {
                    descriptor: descriptor@,
                    revision: SECURITY_DESCRIPTOR_REVISION,
                },
            ),
            self.phase matches BuildPhase::ProvisionalListRequested { .. } ==> (r matches Some(
                OsCall::BuildAcl { entries },
            ) && entries@.len() == 0),
            self.phase matches BuildPhase::SidRequested { .. } ==> r == Some(
                OsCall::LookupEveryoneSid { rid: SECURITY_WORLD_RID },
            ),
            self.phase matches BuildPhase::ListRequested { sid, .. } ==> (r matches Some(
                OsCall::BuildAcl { entries },
            ) && entries@.len() == 1 && entries@[0] == everyone_entry(sid@, self.permissions)),
            self.phase matches BuildPhase::AttachRequested { descriptor, acl, .. } ==> r == Some(
                OsCall::AttachDacl {
                    descriptor: descriptor@,
                    acl: acl@,
                    present: true,
                    defaulted: false,
                },
            ),
            self.phase is Done ==> r is None,
            self.phase is Failed ==> r is None,
    {
        match &self.phase {
            BuildPhase::DescriptorRequested => Some(OsCall::AllocateDescriptor),
            BuildPhase::InitRequested { descriptor } => Some(
                OsCall::InitializeDescriptor {
                    descriptor: descriptor.as_raw(),
                    revision: SECURITY_DESCRIPTOR_REVISION,
                },
            ),
            BuildPhase::ProvisionalListRequested { .. } => Some(
                OsCall::BuildAcl { entries: Vec::new() },
            ),
            BuildPhase::SidRequested { .. } => Some(
                OsCall::LookupEveryoneSid { rid: SECURITY_WORLD_RID },
            ),
            BuildPhase::ListRequested { sid, .. } => {
                let entry = AccessControlEntry::new(
                    sid,
                    TRUSTEE_IS_WELL_KNOWN_GROUP,
                ).set_access_mode(SET_ACCESS).set_access_permissions(
                    self.permissions,
                ).allow_inheritance(NO_INHERITANCE);
                let mut entries: Vec<AceRecord> = Vec::new();
                entries.push(entry.record());
                Some(OsCall::BuildAcl { entries })
            },
            BuildPhase::AttachRequested { descriptor, acl, .. } => Some(
                OsCall::AttachDacl {
                    descriptor: descriptor.as_raw(),
                    acl: acl.as_raw(),
                    present: true,
                    defaulted: false,
                },
            ),
            BuildPhase::Done { .. } => None,
            BuildPhase::Failed { .. } => None,
        }
    }

    /// Whether the build has settled, successfully or not.
    pub fn is_finished(&self) -> (r: bool)
        ensures
            r == (self.phase is Done || self.phase is Failed),
    {
        match &self.phase {
            BuildPhase::Done { .. } => true,
            BuildPhase::Failed { .. } => true,
            _ => false,
        }
    }

    /// Whether `outcome` is admissible for the outstanding call, as
    /// [`outcome_fits`] states. The adapter checks this before stepping and
    /// treats an inadmissible outcome as the fatal condition it is.
    pub fn outcome_admissible(&self, outcome: &OsOutcome) -> (r: bool)
        ensures
            r == outcome_fits(self.phase, *outcome),
    {
        match &self.phase {
            BuildPhase::DescriptorRequested => match outcome {
                OsOutcome::Allocated { .. } => true,
                _ => false,
            },
            BuildPhase::InitRequested { .. } => match outcome {
                OsOutcome::CallStatus { .. } => true,
                _ => false,
            },
            BuildPhase::ProvisionalListRequested { descriptor } => match outcome {
                OsOutcome::AclResult { status, handle } => *status == ERROR_SUCCESS && *handle != 0
                    && *handle != descriptor.as_raw(),
                _ => false,
            },
            BuildPhase::SidRequested { .. } => match outcome {
                OsOutcome::SidResult { ok, handle, .. } => !*ok || *handle != 0,
                _ => false,
            },
            BuildPhase::ListRequested { descriptor, provisional, .. } => match outcome {
                OsOutcome::AclResult { status, handle } => *status != ERROR_SUCCESS || (*handle
                    != 0 && *handle != descriptor.as_raw() && *handle != provisional.as_raw()),
                _ => false,
            },
            BuildPhase::AttachRequested { .. } => match outcome {
                OsOutcome::CallStatus { .. } => true,
                _ => false,
            },
            BuildPhase::Done { .. } => false,
            BuildPhase::Failed { .. } => false,
        }
    }

    /// Performs one step: takes the outcome of the outstanding call and
    /// returns the advanced builder together with the release calls to
    /// perform now, as [`step_rel`] states.
    pub fn step(self, outcome: OsOutcome) -> (r: (AttributesBuilder, Vec<OsCall>))
        requires
            self.wf(),
            outcome_fits(self.phase, outcome),
        ensures
            step_rel(self, outcome, r.0, r.1@),
            r.0.wf(),
    {
        let AttributesBuilder { phase, permissions, record_length } = self;
        match phase {
            BuildPhase::DescriptorRequested => {
                match outcome {
                    OsOutcome::Allocated { handle } => {
                        match UninitializedDescriptor::from_allocation(handle) {
                            Ok(descriptor) => (
                                AttributesBuilder {
                                    phase: BuildPhase::InitRequested { descriptor },
                                    permissions,
                                    record_length,
                                },
                                Vec::new(),
                            ),
                            Err(error) => (
                                AttributesBuilder {
                                    phase: BuildPhase::Failed { error },
                                    permissions,
                                    record_length,
                                },
                                Vec::new(),
                            ),
                        }
                    },
                    _ => unreached(),
                }
            },
            BuildPhase::InitRequested { descriptor } => {
                match outcome {
                    OsOutcome::CallStatus { ok, last_error } => {
                        match descriptor.initialized(ok, last_error) {
                            Ok(d) => (
                                AttributesBuilder {
                                    phase: BuildPhase::ProvisionalListRequested { descriptor: d },
                                    permissions,
                                    record_length,
                                },
                                Vec::new(),
                            ),
                            Err((error, release)) => {
                                let mut frees: Vec<OsCall> = Vec::new();
                                frees.push(release);
                                (
                                    AttributesBuilder {
                                        phase: BuildPhase::Failed { error },
                                        permissions,
                                        record_length,
                                    },
                                    frees,
                                )
                            },
                        }
                    },
                    _ => unreached(),
                }
            },
            BuildPhase::ProvisionalListRequested { descriptor } => {
                match outcome {
                    OsOutcome::AclResult { status, handle } => {
                        match AccessControlList::from_build(status, handle) {
                            Ok(provisional) => (
                                AttributesBuilder {
                                    phase: BuildPhase::SidRequested { descriptor, provisional },
                                    permissions,
                                    record_length,
                                },
                                Vec::new(),
                            ),
                            Err(_) => unreached(),
                        }
                    },
                    _ => unreached(),
                }
            },
            BuildPhase::SidRequested { descriptor, provisional } => {
                match outcome {
                    OsOutcome::SidResult { ok, handle, last_error } => {
                        match Sid::from_lookup(ok, handle, last_error) {
                            Ok(sid) => (
                                AttributesBuilder {
                                    phase: BuildPhase::ListRequested {
                                        descriptor,
                                        provisional,
                                        sid,
                                    },
                                    permissions,
                                    record_length,
                                },
                                Vec::new(),
                            ),
                            Err(error) => {
                                let mut frees: Vec<OsCall> = Vec::new();
                                frees.push(descriptor.into_release());
                                frees.push(provisional.into_release());
                                (
                                    AttributesBuilder {
                                        phase: BuildPhase::Failed { error },
                                        permissions,
                                        record_length,
                                    },
                                    frees,
                                )
                            },
                        }
                    },
                    _ => unreached(),
                }
            },
            BuildPhase::ListRequested { descriptor, provisional, sid } => {
                match outcome {
                    OsOutcome::AclResult { status, handle } => {
                        match AccessControlList::from_build(status, handle) {
                            Ok(acl) => {
                                let mut frees: Vec<OsCall> = Vec::new();
                                frees.push(provisional.into_release());
                                (
                                    AttributesBuilder {
                                        phase: BuildPhase::AttachRequested {
                                            descriptor,
                                            acl,
                                            sid,
                                        },
                                        permissions,
                                        record_length,
                                    },
                                    frees,
                                )
                            },
                            Err(error) => {
                                let mut frees: Vec<OsCall> = Vec::new();
                                frees.push(sid.into_release());
                                frees.push(descriptor.into_release());
                                frees.push(provisional.into_release());
                                (
                                    AttributesBuilder {
                                        phase: BuildPhase::Failed { error },
                                        permissions,
                                        record_length,
                                    },
                                    frees,
                                )
                            },
                        }
                    },
                    _ => unreached(),
                }
            },
            BuildPhase::AttachRequested { descriptor, acl, sid } => {
                match outcome {
                    OsOutcome::CallStatus { ok, last_error } => {
                        let mut descriptor = descriptor;
                        match descriptor.set_dacl(&acl, ok, last_error) {
                            Ok(()) => {
                                let inner = InnerAttributes::assemble(
                                    descriptor,
                                    acl,
                                    record_length,
                                );
                                let mut frees: Vec<OsCall> = Vec::new();
                                frees.push(sid.into_release());
                                (
                                    AttributesBuilder {
                                        phase: BuildPhase::Done {
                                            attributes: SecurityAttributes::from_inner(inner),
                                        },
                                        permissions,
                                        record_length,
                                    },
                                    frees,
                                )
                            },
                            Err(error) => {
                                let mut frees: Vec<OsCall> = Vec::new();
                                frees.push(sid.into_release());
                                frees.push(descriptor.into_release());
                                frees.push(acl.into_release());
                                (
                                    AttributesBuilder {
                                        phase: BuildPhase::Failed { error },
                                        permissions,
                                        record_length,
                                    },
                                    frees,
                                )
                            },
                        }
                    },
                    _ => unreached(),
                }
            },
            BuildPhase::Done { .. } => unreached(),
            BuildPhase::Failed { .. } => unreached(),
        }
    }

    /// Reads the result off a settled build: the completed facade, or the
    /// error of the first failing step.
    pub fn finish(self) -> (r: Result<SecurityAttributes, BuildError>)
        requires
            self.phase is Done || self.phase is Failed,
        ensures
            self.phase matches BuildPhase::Done { attributes } ==> r == Ok::<
                SecurityAttributes,
                BuildError,
            >(attributes),
            self.phase matches BuildPhase::Failed { error } ==> r == Err::<
                SecurityAttributes,
                BuildError,
            >(error),
    {
        match self.phase {
            BuildPhase::Done { attributes } => Ok(attributes),
            BuildPhase::Failed { error } => Err(error),
            _ => unreached(),
        }
    }
}

proof fn lemma_released_len0(calls: Seq<OsCall>)
    requires
        calls.len() == 0,
    ensures
        released_by_calls(calls) =~= Multiset::<Allocation>::empty(),
{
}

proof fn lemma_released_len1(calls: Seq<OsCall>)
    requires
        calls.len() == 1,
    ensures
        released_by_calls(calls) =~= released_by_call(calls[0]),
{
    lemma_released_len0(calls.drop_last());
    assert(calls.last() == calls[0]);
}

proof fn lemma_released_len2(calls: Seq<OsCall>)
    requires
        calls.len() == 2,
    ensures
        released_by_calls(calls) =~= released_by_call(calls[0]).add(released_by_call(calls[1])),
{
    lemma_released_len1(calls.drop_last());
    assert(calls.drop_last()[0] == calls[0]);
    assert(calls.last() == calls[1]);
}

proof fn lemma_released_len3(calls: Seq<OsCall>)
    requires
        calls.len() == 3,
    ensures
        released_by_calls(calls) =~= released_by_call(calls[0]).add(released_by_call(calls[1])).add(
            released_by_call(calls[2]),
        ),
{
    lemma_released_len2(calls.drop_last());
    assert(calls.drop_last()[0] == calls[0]);
    assert(calls.drop_last()[1] == calls[1]);
    assert(calls.last() == calls[2]);
}

/// No step loses or doubles a native resource: across any admissible step,
/// what the machine holds afterwards plus what it released during the step
/// is exactly what it held before plus what the outcome reported as newly
/// acquired; the step performs release calls only, releases no allocation
/// twice, and releases nothing it still holds.
pub proof fn lemma_step_conserves_resources(
    pre: AttributesBuilder,
    outcome: OsOutcome,
    post: AttributesBuilder,
    frees: Seq<OsCall>,
)
    requires
        pre.wf(),
        outcome_fits(pre.phase, outcome),
        step_rel(pre, outcome, post, frees),
    ensures
        held_allocations(post.phase).add(released_by_calls(frees)) =~= held_allocations(
            pre.phase,
        ).add(acquired_by(pre.phase, outcome)),
        all_release_calls(frees),
        forall|a: Allocation| released_by_calls(frees).count(a) <= 1,
        forall|a: Allocation|
            released_by_calls(frees).count(a) == 0 || held_allocations(post.phase).count(a) == 0,
        post.wf(),
{
    if frees.len() == 0 {
        lemma_released_len0(frees);
    } else if frees.len() == 1 {
        lemma_released_len1(frees);
    } else if frees.len() == 2 {
        lemma_released_len2(frees);
    } else {
        lemma_released_len3(frees);
    }
}

/// A step that settles in failure releases everything: the release calls it
/// returns cover, exactly once each, every allocation held before the step
/// together with whatever the failing outcome had still reported as
/// acquired.
pub proof fn lemma_failed_step_releases_everything(
    pre: AttributesBuilder,
    outcome: OsOutcome,
    post: AttributesBuilder,
    frees: Seq<OsCall>,
)
    requires
        pre.wf(),
        outcome_fits(pre.phase, outcome),
        step_rel(pre, outcome, post, frees),
        post.phase is Failed,
    ensures
        released_by_calls(frees) =~= held_allocations(pre.phase).add(
            acquired_by(pre.phase, outcome),
        ),
        forall|a: Allocation| released_by_calls(frees).count(a) <= 1,
{
    lemma_step_conserves_resources(pre, outcome, post, frees);
}

/// A run of six steps in which every call succeeds — the allocation hands
/// back a non-null buffer, both status calls report success, the SID
/// lookup succeeds, and both list builds return success — completes the
/// build: the machine ends done, with a well-formed facade whose record
/// points at the descriptor of the first step, sized as asked, with the
/// inheritable-handle flag off; and the releases performed along the way
/// are exactly the provisional list and the SID, once each, so that
/// together with the facade's own teardown every acquired resource is
/// released exactly once per cycle.
pub proof fn lemma_successful_run_completes(
    b0: AttributesBuilder,
    o1: OsOutcome,
    b1: AttributesBuilder,
    f1: Seq<OsCall>,
    o2: OsOutcome,
    b2: AttributesBuilder,
    f2: Seq<OsCall>,
    o3: OsOutcome,
    b3: AttributesBuilder,
    f3: Seq<OsCall>,
    o4: OsOutcome,
    b4: AttributesBuilder,
    f4: Seq<OsCall>,
    o5: OsOutcome,
    b5: AttributesBuilder,
    f5: Seq<OsCall>,
    o6: OsOutcome,
    b6: AttributesBuilder,
    f6: Seq<OsCall>,
)
    requires
        b0.wf(),
        b0.phase is DescriptorRequested,
        outcome_fits(b0.phase, o1),
        step_rel(b0, o1, b1, f1),
        o1 matches OsOutcome::Allocated { handle } && handle != 0,
        outcome_fits(b1.phase, o2),
        step_rel(b1, o2, b2, f2),
        o2 matches OsOutcome::CallStatus { ok: true, .. },
        outcome_fits(b2.phase, o3),
        step_rel(b2, o3, b3, f3),
        outcome_fits(b3.phase, o4),
        step_rel(b3, o4, b4, f4),
        o4 matches OsOutcome::SidResult { ok: true, .. },
        outcome_fits(b4.phase, o5),
        step_rel(b4, o5, b5, f5),
        o5 matches OsOutcome::AclResult { status, .. } && status == ERROR_SUCCESS,
        outcome_fits(b5.phase, o6),
        step_rel(b5, o6, b6, f6),
        o6 matches OsOutcome::CallStatus { ok: true, .. },
    ensures
        b6.phase matches BuildPhase::Done { attributes } && attributes@ matches Some(v) && {
            &&& v.wf()
            &&& v.record.descriptor == v.descriptor
            &&& v.descriptor == o1->Allocated_handle
            &&& v.acl == o5->AclResult_handle
            &&& v.dacl == Some(v.acl)
            &&& v.record.length == b0.record_length
            &&& v.record.inherit_handle == false
        },
        released_by_calls(f1).add(released_by_calls(f2)).add(released_by_calls(f3)).add(
            released_by_calls(f4),
        ).add(released_by_calls(f5)).add(released_by_calls(f6)) =~= Multiset::empty().insert(
            local_alloc(o3->AclResult_handle),
        ).insert(sid_alloc(o4->SidResult_handle)),
        b6.phase matches BuildPhase::Done { attributes } ==> owned_allocations(attributes)
            =~= Multiset::empty().insert(local_alloc(o1->Allocated_handle)).insert(
            local_alloc(o5->AclResult_handle),
        ),
{
    lemma_step_conserves_resources(b0, o1, b1, f1);
    lemma_step_conserves_resources(b1, o2, b2, f2);
    lemma_step_conserves_resources(b2, o3, b3, f3);
    lemma_step_conserves_resources(b3, o4, b4, f4);
    lemma_step_conserves_resources(b4, o5, b5, f5);
    lemma_step_conserves_resources(b5, o6, b6, f6);
    lemma_released_len0(f1);
    lemma_released_len0(f2);
    lemma_released_len0(f3);
    lemma_released_len0(f4);
    lemma_released_len1(f5);
    lemma_released_len1(f6);
}

/// A successful attach completes the build: the machine is done, and the
/// facade's bundle is well-formed, with the record pointing at the
/// non-null descriptor, the non-null real list attached to that
/// descriptor, the record sized as the caller asked, and the
/// inheritable-handle flag off.
pub proof fn lemma_successful_attach_completes(
    pre: AttributesBuilder,
    outcome: OsOutcome,
    post: AttributesBuilder,
    frees: Seq<OsCall>,
)
    requires
        pre.wf(),
        pre.phase is AttachRequested,
        outcome matches OsOutcome::CallStatus { ok: true, .. },
        step_rel(pre, outcome, post, frees),
    ensures
        post.phase matches BuildPhase::Done { attributes } && attributes@ matches Some(v) && {
            &&& v.wf()
            &&& v.record.descriptor == v.descriptor
            &&& v.descriptor != 0
            &&& v.dacl == Some(v.acl)
            &&& v.acl != 0
            &&& v.record.inherit_handle == false
            &&& v.record.length == pre.record_length
        },
{
}

} // verus!
