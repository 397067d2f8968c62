//! Failure injection at every step, and the smaller building blocks.

use win_permissions::os_model::{
    NO_INHERITANCE, SECURITY_DESCRIPTOR_REVISION, SECURITY_WORLD_RID, SET_ACCESS, TRUSTEE_IS_SID,
    TRUSTEE_IS_WELL_KNOWN_GROUP,
};
use win_permissions::{
    AccessControlEntry, AccessControlList, BuildError, OsCall, OsOutcome, SecurityAttributes, Sid,
};

/// Steps a builder through the first `n` calls of the successful sequence,
/// answering with handles derived from `base`.
fn advance(
    mut builder: win_permissions::AttributesBuilder,
    n: usize,
    base: u64,
) -> win_permissions::AttributesBuilder {
    let outcomes = [
        OsOutcome::Allocated { handle: base },
        OsOutcome::CallStatus { ok: true, last_error: 0 },
        OsOutcome::AclResult { status: 0, handle: base + 1 },
        OsOutcome::SidResult { ok: true, handle: base + 3, last_error: 0 },
        OsOutcome::AclResult { status: 0, handle: base + 2 },
        OsOutcome::CallStatus { ok: true, last_error: 0 },
    ];
    for outcome in outcomes.iter().take(n) {
        assert!(builder.outcome_admissible(outcome));
        let (next, _) = builder.step(*outcome);
        builder = next;
    }
    builder
}

/// The `(is_sid_release, handle)` pairs of a list of release calls.
fn released(calls: &[OsCall]) -> Vec<(bool, u64)> {
    calls
        .iter()
        .map(|call| match call {
            OsCall::FreeSid { sid } => (true, *sid),
            OsCall::FreeLocal { handle } => (false, *handle),
            other => panic!("not a release call: {:?}", other),
        })
        .collect()
}

#[test]
fn descriptor_allocation_failure_reports_no_code_and_releases_nothing() {
    let builder = advance(SecurityAttributes::allow_everyone_connect(24), 0, 0x50);
    let outcome = OsOutcome::Allocated { handle: 0 };
    assert!(builder.outcome_admissible(&outcome));
    let (builder, frees) = builder.step(outcome);
    assert!(frees.is_empty());
    let error = builder.finish().unwrap_err();
    assert_eq!(error, BuildError::DescriptorAllocationFailed);
    assert_eq!(error.os_code(), None);
}

#[test]
fn descriptor_init_failure_releases_the_buffer() {
    let builder = advance(SecurityAttributes::allow_everyone_connect(24), 1, 0x60);
    let (builder, frees) = builder.step(OsOutcome::CallStatus { ok: false, last_error: 5 });
    assert_eq!(released(&frees), vec![(false, 0x60)]);
    let error = builder.finish().unwrap_err();
    assert_eq!(error, BuildError::DescriptorInitFailed { code: 5 });
    assert_eq!(error.os_code(), Some(5));
}

#[test]
fn sid_lookup_failure_releases_descriptor_then_provisional_list() {
    let builder = advance(SecurityAttributes::allow_everyone_connect(24), 3, 0x70);
    let (builder, frees) = builder.step(OsOutcome::SidResult {
        ok: false,
        handle: 0,
        last_error: 1450,
    });
    assert_eq!(released(&frees), vec![(false, 0x70), (false, 0x71)]);
    let error = builder.finish().unwrap_err();
    assert_eq!(error, BuildError::SidLookupFailed { code: 1450 });
}

#[test]
fn acl_build_failure_surfaces_the_status_and_releases_everything() {
    let builder = advance(SecurityAttributes::allow_everyone_connect(24), 4, 0x80);
    let (builder, frees) = builder.step(OsOutcome::AclResult { status: 87, handle: 0 });
    assert_eq!(
        released(&frees),
        vec![(true, 0x83), (false, 0x80), (false, 0x81)],
    );
    let error = builder.finish().unwrap_err();
    assert_eq!(error, BuildError::AclBuildFailed { status: 87 });
    assert_eq!(error.os_code(), Some(87));
}

#[test]
fn dacl_attach_failure_releases_sid_descriptor_and_list() {
    let builder = advance(SecurityAttributes::allow_everyone_connect(24), 5, 0x90);
    let (builder, frees) = builder.step(OsOutcome::CallStatus { ok: false, last_error: 998 });
    assert_eq!(
        released(&frees),
        vec![(true, 0x93), (false, 0x90), (false, 0x92)],
    );
    let error = builder.finish().unwrap_err();
    assert_eq!(error, BuildError::DaclAttachFailed { code: 998 });
}

#[test]
fn replaced_provisional_list_is_released_at_replacement() {
    let builder = advance(SecurityAttributes::allow_everyone_connect(24), 4, 0xa0);
    let (_, frees) = builder.step(OsOutcome::AclResult { status: 0, handle: 0xa2 });
    assert_eq!(released(&frees), vec![(false, 0xa1)]);
}

#[test]
fn entry_builder_chains_into_the_batch_record() {
    let sid = Sid::from_lookup(true, 42, 0).expect("lookup succeeded");
    assert_eq!(sid.as_raw(), 42);
    let entry = AccessControlEntry::new(&sid, TRUSTEE_IS_WELL_KNOWN_GROUP);
    let record = entry.record();
    // Unset fields are zeroed, not leftovers.
    assert_eq!(record.access_mode, 0);
    assert_eq!(record.permissions, 0);
    assert_eq!(record.inheritance, 0);
    assert_eq!(record.trustee_form, TRUSTEE_IS_SID);
    assert_eq!(record.trustee_kind, TRUSTEE_IS_WELL_KNOWN_GROUP);
    assert_eq!(record.trustee_sid, 42);
    let configured = AccessControlEntry::new(&sid, TRUSTEE_IS_WELL_KNOWN_GROUP)
        .set_access_mode(SET_ACCESS)
        .set_access_permissions(0x8000_0002)
        .allow_inheritance(NO_INHERITANCE)
        .record();
    assert_eq!(configured.access_mode, SET_ACCESS);
    assert_eq!(configured.permissions, 0x8000_0002);
    assert_eq!(configured.inheritance, NO_INHERITANCE);
}

#[test]
fn failed_lookup_surfaces_the_last_error() {
    let result = Sid::from_lookup(false, 0, 6);
    assert_eq!(result.unwrap_err(), BuildError::SidLookupFailed { code: 6 });
    let list = AccessControlList::from_build(120, 0);
    assert_eq!(list.unwrap_err(), BuildError::AclBuildFailed { status: 120 });
}

#[test]
fn pending_calls_carry_the_documented_arguments() {
    let builder = advance(SecurityAttributes::allow_everyone_connect(24), 1, 0xb0);
    match builder.pending_call() {
        Some(OsCall::InitializeDescriptor { descriptor, revision }) => {
            assert_eq!(descriptor, 0xb0);
            assert_eq!(revision, SECURITY_DESCRIPTOR_REVISION);
        }
        other => panic!("expected the initialization call, got {:?}", other),
    }
    let builder = advance(SecurityAttributes::allow_everyone_connect(24), 3, 0xb0);
    match builder.pending_call() {
        Some(OsCall::LookupEveryoneSid { rid }) => assert_eq!(rid, SECURITY_WORLD_RID),
        other => panic!("expected the SID lookup, got {:?}", other),
    }
    let builder = advance(SecurityAttributes::allow_everyone_connect(24), 4, 0xb0);
    match builder.pending_call() {
        Some(OsCall::BuildAcl { entries }) => {
            assert_eq!(entries.len(), 1);
            assert_eq!(entries[0].trustee_sid, 0xb3);
            // Connecting grants generic read plus the right to write data.
            assert_eq!(entries[0].permissions, 0x8000_0000 | 0x0002);
            assert_eq!(entries[0].access_mode, SET_ACCESS);
            assert_eq!(entries[0].inheritance, NO_INHERITANCE);
        }
        other => panic!("expected the single-entry batch build, got {:?}", other),
    }
}

#[test]
fn settled_builder_has_no_pending_call() {
    let builder = advance(SecurityAttributes::allow_everyone_connect(24), 6, 0xc0);
    assert!(builder.is_finished());
    assert!(builder.pending_call().is_none());
    assert!(!builder.outcome_admissible(&OsOutcome::Allocated { handle: 1 }));
    let attributes = builder.finish().expect("the full sequence succeeded");
    assert!(attributes.as_raw_pointer().is_some());
}
