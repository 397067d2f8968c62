//! End-to-end runs of the build state machine against a mock operating
//! system that hands out distinct non-null handles.

use win_permissions::{
    AttributesBuilder, AttributesRecord, BuildError, OsCall, OsOutcome, SecurityAttributes,
};

/// Drives a builder to completion, answering every requested call the way a
/// conformant OS would: distinct non-null handles derived from `base`, and
/// success for every call. Returns the settled result and every release
/// call the machine emitted along the way.
fn drive_success(
    mut builder: AttributesBuilder,
    base: u64,
) -> (Result<SecurityAttributes, BuildError>, Vec<OsCall>) {
    let mut releases: Vec<OsCall> = Vec::new();
    let mut rounds = 0;
    while let Some(call) = builder.pending_call() {
        let outcome = match &call {
            OsCall::AllocateDescriptor => OsOutcome::Allocated { handle: base },
            OsCall::InitializeDescriptor { .. } => OsOutcome::CallStatus {
                ok: true,
                last_error: 0,
            },
            OsCall::BuildAcl { entries } => {
                if entries.is_empty() {
                    OsOutcome::AclResult { status: 0, handle: base + 1 }
                } else {
                    OsOutcome::AclResult { status: 0, handle: base + 2 }
                }
            }
            OsCall::LookupEveryoneSid { .. } => OsOutcome::SidResult {
                ok: true,
                handle: base + 3,
                last_error: 0,
            },
            OsCall::AttachDacl { .. } => OsOutcome::CallStatus { ok: true, last_error: 0 },
            OsCall::FreeSid { .. } | OsCall::FreeLocal { .. } => {
                unreachable!("the machine never asks for a release as a pending call")
            }
        };
        assert!(builder.outcome_admissible(&outcome));
        let (next, mut frees) = builder.step(outcome);
        builder = next;
        releases.append(&mut frees);
        rounds += 1;
        assert!(rounds <= 6, "the build sequence has exactly six calls");
    }
    assert!(builder.is_finished());
    (builder.finish(), releases)
}

/// Collects `(is_sid_release, handle)` pairs from a list of release calls,
/// failing on any call that is not a release.
fn release_pairs(calls: &[OsCall]) -> Vec<(bool, u64)> {
    let mut pairs: Vec<(bool, u64)> = Vec::new();
    for call in calls {
        match call {
            OsCall::FreeSid { sid } => pairs.push((true, *sid)),
            OsCall::FreeLocal { handle } => pairs.push((false, *handle)),
            other => panic!("not a release call: {:?}", other),
        }
    }
    pairs
}

#[test]
fn test_allow_everyone_everything() {
    let builder = SecurityAttributes::allow_everyone_create(24);
    let (result, _) = drive_success(builder, 0x1000);
    result.expect("failed to create security attributes that allow everyone to create a pipe");
}

#[test]
fn test_allow_eveyone_read_write() {
    let builder = SecurityAttributes::allow_everyone_connect(24);
    let (result, _) = drive_success(builder, 0x2000);
    result.expect(
        "failed to create security attributes that allow everyone to read and write to/from a pipe",
    );
}

#[test]
fn empty_facade_has_null_pointer() {
    let attributes = SecurityAttributes::empty();
    assert!(attributes.as_raw_pointer().is_none());
    let releases = attributes.teardown();
    assert!(releases.is_empty());
}

#[test]
fn successful_build_has_non_null_pointer() {
    let (result, _) = drive_success(SecurityAttributes::allow_everyone_connect(24), 0x4000);
    let attributes = result.expect("build failed");
    let record = attributes.as_raw_pointer().expect("pointer must be non-null");
    assert_ne!(record.descriptor, 0);
    assert_eq!(record.descriptor, 0x4000);
    assert_eq!(record.length, 24);
    assert!(!record.inherit_handle);
    // Destruction releases the descriptor buffer first, then the list it
    // referenced, both through the local-memory free.
    let releases = release_pairs(&attributes.teardown());
    assert_eq!(releases, vec![(false, 0x4000), (false, 0x4002)]);
}

#[test]
fn empty_entry_list_build_succeeds_with_usable_handle() {
    let mut builder = SecurityAttributes::allow_everyone_connect(24);
    // Walk to the provisional list build: allocation, then initialization.
    let (next, _) = builder.step(OsOutcome::Allocated { handle: 0x10 });
    builder = next;
    let (next, _) = builder.step(OsOutcome::CallStatus { ok: true, last_error: 0 });
    builder = next;
    match builder.pending_call() {
        Some(OsCall::BuildAcl { entries }) => assert!(entries.is_empty()),
        other => panic!("expected the empty batch build, got {:?}", other),
    }
    // A successful empty build is admissible and advances the machine.
    let outcome = OsOutcome::AclResult { status: 0, handle: 0x11 };
    assert!(builder.outcome_admissible(&outcome));
    let (builder, _) = builder.step(outcome);
    assert!(!builder.is_finished());
    // A failed empty build is the fatal condition the machine refuses.
    let rebuilt = SecurityAttributes::allow_everyone_connect(24);
    let (rebuilt, _) = rebuilt.step(OsOutcome::Allocated { handle: 0x20 });
    let (rebuilt, _) = rebuilt.step(OsOutcome::CallStatus { ok: true, last_error: 0 });
    assert!(!rebuilt.outcome_admissible(&OsOutcome::AclResult { status: 8, handle: 0 }));
}

/// A mock object-creation call: records the attributes record it was given,
/// as a pipe-server creation would read it.
fn mock_create_object(pointer: Option<AttributesRecord>, recorded: &mut Vec<AttributesRecord>) {
    if let Some(record) = pointer {
        recorded.push(record);
    }
}

#[test]
fn create_attributes_reach_consumer_attached_and_not_inheritable() {
    let mut builder = SecurityAttributes::allow_everyone_create(24);
    let mut attach_present = None;
    let mut attach_defaulted = None;
    let mut attached_acl = None;
    let mut granted = None;
    let mut releases: Vec<OsCall> = Vec::new();
    while let Some(call) = builder.pending_call() {
        let outcome = match &call {
            OsCall::AllocateDescriptor => OsOutcome::Allocated { handle: 0x30 },
            OsCall::InitializeDescriptor { .. } => OsOutcome::CallStatus {
                ok: true,
                last_error: 0,
            },
            OsCall::BuildAcl { entries } if entries.is_empty() => OsOutcome::AclResult {
                status: 0,
                handle: 0x31,
            },
            OsCall::BuildAcl { entries } => {
                granted = Some(entries[0]);
                OsOutcome::AclResult { status: 0, handle: 0x32 }
            }
            OsCall::LookupEveryoneSid { .. } => OsOutcome::SidResult {
                ok: true,
                handle: 0x33,
                last_error: 0,
            },
            OsCall::AttachDacl { acl, present, defaulted, .. } => {
                attach_present = Some(*present);
                attach_defaulted = Some(*defaulted);
                attached_acl = Some(*acl);
                OsOutcome::CallStatus { ok: true, last_error: 0 }
            }
            OsCall::FreeSid { .. } | OsCall::FreeLocal { .. } => unreachable!(),
        };
        let (next, mut frees) = builder.step(outcome);
        builder = next;
        releases.append(&mut frees);
    }
    let attributes = builder.finish().expect("build failed");
    // The descriptor got an explicit, non-default list: the real one.
    assert_eq!(attach_present, Some(true));
    assert_eq!(attach_defaulted, Some(false));
    assert_eq!(attached_acl, Some(0x32));
    // The one entry grants generic read and generic write to the looked-up
    // SID, replacing existing rights, without inheritance.
    let entry = granted.expect("the real list was built from one entry");
    assert_eq!(entry.trustee_sid, 0x33);
    assert_eq!(entry.trustee_form, win_permissions::os_model::TRUSTEE_IS_SID);
    assert_eq!(entry.trustee_kind, win_permissions::os_model::TRUSTEE_IS_WELL_KNOWN_GROUP);
    assert_eq!(entry.access_mode, win_permissions::os_model::SET_ACCESS);
    assert_eq!(entry.permissions, 0x8000_0000 | 0x4000_0000);
    assert_eq!(entry.inheritance, win_permissions::os_model::NO_INHERITANCE);
    // The consumer sees an attached descriptor and no inheritable handle.
    let mut recorded: Vec<AttributesRecord> = Vec::new();
    mock_create_object(attributes.as_raw_pointer(), &mut recorded);
    assert_eq!(recorded.len(), 1);
    assert_eq!(recorded[0].descriptor, 0x30);
    assert!(!recorded[0].inherit_handle);
}

#[test]
fn two_facades_own_distinct_resources() {
    let (first, _) = drive_success(SecurityAttributes::allow_everyone_connect(24), 0x100);
    let (second, _) = drive_success(SecurityAttributes::allow_everyone_connect(24), 0x200);
    let first = first.expect("first build failed");
    let second = second.expect("second build failed");
    let first_record = first.as_raw_pointer().unwrap();
    let second_record = second.as_raw_pointer().unwrap();
    assert_ne!(first_record.descriptor, second_record.descriptor);
    // Destroying the first facade releases only its own resources.
    let first_released = release_pairs(&first.teardown());
    for pair in &first_released {
        assert!(pair.1 < 0x200);
    }
    // The second facade is untouched and still usable afterwards.
    let still_there = second.as_raw_pointer().unwrap();
    assert_eq!(still_there.descriptor, 0x200);
    let second_released = release_pairs(&second.teardown());
    for pair in &second_released {
        assert!(pair.1 >= 0x200);
        assert!(!first_released.contains(pair));
    }
}

#[test]
fn repeated_build_destroy_cycles_release_every_allocation_once() {
    for i in 0..1000u64 {
        let base = i * 8 + 1;
        let (result, build_releases) = drive_success(
            SecurityAttributes::allow_everyone_connect(24),
            base,
        );
        let attributes = result.expect("build failed");
        let mut released = release_pairs(&build_releases);
        released.extend(release_pairs(&attributes.teardown()));
        // The mock OS handed out: descriptor `base`, provisional list
        // `base + 1`, real list `base + 2`, SID `base + 3`. Each must be
        // released exactly once, through its paired deallocator.
        let mut expected = vec![
            (false, base),
            (false, base + 1),
            (false, base + 2),
            (true, base + 3),
        ];
        released.sort();
        expected.sort();
        assert_eq!(released, expected);
    }
}
