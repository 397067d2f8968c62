//! The finalized attributes record, the owning bundle, and the public
//! facade.

use vstd::prelude::*;
use vstd::multiset::Multiset;
use crate::acl::AccessControlList;
use crate::builder::AttributesBuilder;
use crate::descriptor::SecurityDescriptor;
use crate::os_model::{
    local_alloc, released_by_calls, Allocation, OsCall, FILE_WRITE_DATA, GENERIC_READ,
    GENERIC_WRITE,
};

verus! {

broadcast use vstd::multiset::group_multiset_axioms;

/// Permission mask granted for connecting to an existing pipe-like object:
/// generic read together with the right to write data.
pub const CONNECT_PERMISSIONS: u32 = GENERIC_READ | FILE_WRITE_DATA;

/// Permission mask granted for creating a pipe-like object: generic read
/// together with generic write.
pub const CREATE_PERMISSIONS: u32 = GENERIC_READ | GENERIC_WRITE;

/// The plain attributes record handed to the OS object-creation call:
/// its own size in bytes, the raw reference to the security descriptor, and
/// the inheritable-handle flag.
#[derive(Clone, Copy, Debug, PartialEq, Eq, Structural)]
pub struct AttributesRecord {
    /// Size of the native record in bytes, as the platform lays it out.
    pub length: u32,
    /// Raw handle of the security descriptor the record points at; owned by
    /// the same bundle as the record.
    pub descriptor: u64,
    /// Whether handles to the created object are inheritable.
    pub inherit_handle: bool,
}

/// What a non-empty facade holds, as plain values: the finalized record and
/// the raw handles of the bundled descriptor and list.
pub struct AttributesView {
    /// The finalized attributes record.
    pub record: AttributesRecord,
    /// Raw handle of the owned security descriptor.
    pub descriptor: u64,
    /// Raw handle of the list attached to the descriptor, if one is.
    pub dacl: Option<u64>,
    /// Raw handle of the owned access control list.
    pub acl: u64,
}

impl AttributesView {
    /// Well-formedness of a completed bundle: both owned handles are
    /// non-null and distinct, the record points at the owned descriptor,
    /// and the descriptor's attached list is the owned one.
    pub open spec fn wf(&self) -> bool {
        &&& self.descriptor != 0
        &&& self.acl != 0
        &&& self.descriptor != self.acl
        &&& self.record.descriptor == self.descriptor
        &&& self.dacl == Some(self.acl)
    }
}

/// The bundle that owns the three completed resources together: the list,
/// the descriptor that references it, and the attributes record that
/// references the descriptor. Everything is constructed once, read by one
/// OS call, and released together.
#[derive(Debug)]
pub struct InnerAttributes {
    descriptor: SecurityDescriptor,
    acl: AccessControlList,
    attrs: AttributesRecord,
}

impl View for InnerAttributes {
    type V = AttributesView;

    /// The bundle's contents as plain values.
    closed spec fn view(&self) -> AttributesView {
        AttributesView {
            record: self.attrs,
            descriptor: self.descriptor@,
            dacl: self.descriptor.dacl(),
            acl: self.acl@,
        }
    }
}

impl InnerAttributes {
    /// The bundle is well-formed.
    pub open spec fn wf(&self) -> bool {
        self@.wf()
    }

    /// Bundles a descriptor that already has `acl` attached with the list
    /// itself, and finalizes the attributes record to point at the
    /// descriptor with the inheritable-handle flag off.
    pub(crate) fn assemble(
        descriptor: SecurityDescriptor,
        acl: AccessControlList,
        length: u32,
    ) -> (r: InnerAttributes)
        requires
            descriptor.wf(),
            acl.wf(),
            descriptor@ != acl@,
            descriptor.dacl() == Some(acl@),
        ensures
            r@ == (AttributesView {
                record: AttributesRecord { length, descriptor: descriptor@, inherit_handle: false },
                descriptor: descriptor@,
                dacl: Some(acl@),
                acl: acl@,
            }),
            r.wf(),
    {
        let attrs = AttributesRecord {
            length,
            descriptor: descriptor.as_raw(),
            inherit_handle: false,
        };
        InnerAttributes { descriptor, acl, attrs }
    }

    /// The finalized record.
    pub fn record(&self) -> (r: AttributesRecord)
        ensures
            r == self@.record,
    {
        self.attrs
    }

    /// Consumes the bundle and returns its release calls in order: the
    /// descriptor's buffer first, then the list it referenced, each through
    /// the local-memory free paired with its allocation.
    pub fn teardown(self) -> (r: Vec<OsCall>)
        ensures
            r@.len() == 2,
            r@[0] == (OsCall::FreeLocal { handle: self@.descriptor }),
            r@[1] == (OsCall::FreeLocal { handle: self@.acl }),
    {
        let mut calls: Vec<OsCall> = Vec::new();
        calls.push(self.descriptor.into_release());
        calls.push(self.acl.into_release());
        calls
    }
}

/// The public facade: either empty — the OS applies its default security —
/// or the owner of a completed bundle.
///
/// An empty facade is made with [`SecurityAttributes::empty`]; a non-empty
/// one comes out of a completed [`AttributesBuilder`] run, started with
/// [`SecurityAttributes::allow_everyone_connect`] or
/// [`SecurityAttributes::allow_everyone_create`]. The facade carries no
/// thread-affine state: it owns plain values standing for heap-allocated
/// native resources, so it may move between threads, but each OS
/// object-creation call should consume its own facade.
#[derive(Debug)]
pub struct SecurityAttributes {
    attributes: Option<InnerAttributes>,
}

impl View for SecurityAttributes {
    type V = Option<AttributesView>;

    /// `None` for the empty facade, else the bundle's contents.
    closed spec fn view(&self) -> Option<AttributesView> {
        match self.attributes {
            None => None,
            Some(inner) => Some(inner@),
        }
    }
}

/// The calls that destroying a facade performs: none for an empty facade,
/// else the bundle's two local-memory releases in order.
pub open spec fn teardown_calls(att: SecurityAttributes) -> Seq<OsCall> {
    match att@ {
        None => Seq::empty(),
        Some(v) => seq![
            OsCall::FreeLocal { handle: v.descriptor },
            OsCall::FreeLocal { handle: v.acl },
        ],
    }
}

/// The native allocations a facade owns: none when empty, else the
/// descriptor buffer and the list, both on the local heap.
pub open spec fn owned_allocations(att: SecurityAttributes) -> Multiset<Allocation> {
    match att@ {
        None => Multiset::empty(),
        Some(v) => Multiset::empty().insert(local_alloc(v.descriptor)).insert(local_alloc(v.acl)),
    }
}

impl SecurityAttributes {
    /// The facade is either empty or holds a well-formed bundle.
    pub open spec fn wf(&self) -> bool {
        match self@ {
            None => true,
            Some(v) => v.wf(),
        }
    }

    /// The empty facade: no descriptor, so the consumer applies the OS
    /// default security. Never fails.
    pub fn empty() -> (r: SecurityAttributes)
        ensures
            r@ is None,
            r.wf(),
    {
        SecurityAttributes { attributes: None }
    }

    /// Starts building attributes that allow everyone to connect to an
    /// existing pipe-like object, granting [`CONNECT_PERMISSIONS`].
    /// `record_length` is the byte size of the platform's native attributes
    /// record, copied into the finalized record. Driving the returned
    /// builder to completion yields the facade.
    pub fn allow_everyone_connect(record_length: u32) -> (r: AttributesBuilder)
        ensures
            r.phase is DescriptorRequested,
            r.permissions == CONNECT_PERMISSIONS,
            r.record_length == record_length,
            r.wf(),
    {
        AttributesBuilder::allow_everyone(CONNECT_PERMISSIONS, record_length)
    }

    /// Starts building attributes that allow everyone to create a pipe-like
    /// object, granting [`CREATE_PERMISSIONS`]. Driving the returned
    /// builder to completion yields the facade.
    pub fn allow_everyone_create(record_length: u32) -> (r: AttributesBuilder)
        ensures
            r.phase is DescriptorRequested,
            r.permissions == CREATE_PERMISSIONS,
            r.record_length == record_length,
            r.wf(),
    {
        AttributesBuilder::allow_everyone(CREATE_PERMISSIONS, record_length)
    }

    /// Wraps a completed bundle.
    pub(crate) fn from_inner(inner: InnerAttributes) -> (r: SecurityAttributes)
        ensures
            r@ == Some(inner@),
    {
        SecurityAttributes { attributes: Some(inner) }
    }

    /// The value the OS object-creation call receives as its
    /// security-attributes argument: `None` stands for the null pointer of
    /// an empty facade, else the finalized record, whose descriptor
    /// reference is non-null.
    pub fn as_raw_pointer(&self) -> (r: Option<AttributesRecord>)
        requires
            self.wf(),
        ensures
            r is None <==> self@ is None,
            self@ matches Some(v) ==> r == Some(v.record) && v.record.descriptor != 0,
    {
        match &self.attributes {
            None => None,
            Some(inner) => Some(inner.record()),
        }
    }

    /// Destroys the facade and returns the release calls to perform, in
    /// order. Exactly the owned allocations are released, each through the
    /// local-memory free paired with its allocation.
    pub fn teardown(self) -> (r: Vec<OsCall>)
        ensures
            r@ == teardown_calls(self),
    {
        match self.attributes {
            None => Vec::new(),
            Some(inner) => {
                let calls = inner.teardown();
                proof {
                    assert(calls@ =~= teardown_calls(self));
                }
                calls
            },
        }
    }
}

/// Destroying a facade never releases the same allocation twice, and
/// releases exactly what the facade owns: the releases of
/// [`SecurityAttributes::teardown`], counted with multiplicity, equal the
/// owned allocations, in which every allocation appears at most once.
pub proof fn lemma_teardown_releases_each_allocation_once(att: SecurityAttributes)
    requires
        att.wf(),
    ensures
        released_by_calls(teardown_calls(att)) =~= owned_allocations(att),
        forall|a: Allocation| released_by_calls(teardown_calls(att)).count(a) <= 1,
{
    let calls = teardown_calls(att);
    match att@ {
        None => {
            assert(released_by_calls(calls) =~= owned_allocations(att));
        },
        Some(v) => {
            let first = seq![OsCall::FreeLocal { handle: v.descriptor }];
            assert(calls.drop_last() =~= first);
            assert(first.drop_last() =~= Seq::<OsCall>::empty());
            assert(released_by_calls(first.drop_last()) =~= Multiset::<Allocation>::empty());
            assert(first.last() == (OsCall::FreeLocal { handle: v.descriptor }));
            assert(released_by_calls(first) =~= Multiset::empty().insert(
                local_alloc(v.descriptor),
            ));
            assert(calls.last() == (OsCall::FreeLocal { handle: v.acl }));
            assert(released_by_calls(calls) =~= owned_allocations(att));
            assert forall|a: Allocation| released_by_calls(calls).count(a) <= 1 by {
                assert(local_alloc(v.descriptor) != local_alloc(v.acl));
            }
        },
    }
}

} // verus!
