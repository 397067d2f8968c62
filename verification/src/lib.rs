//! Security attributes for Windows objects that grant the "Everyone"
//! well-known group a chosen access level.
//!
//! The library models the four nested native resources — a SID, an access
//! control list, a security descriptor, and the attributes record that
//! references the descriptor — as plain handle values with invariants, and
//! drives their construction and teardown through a verified state machine.
//! The operating-system calls themselves are issued by an unverified adapter
//! that performs each requested [`OsCall`](os_model::OsCall) and hands the
//! outcome back to the machine.

pub mod acl;
pub mod attributes;
pub mod builder;
pub mod descriptor;
pub mod error;
pub mod os_model;
pub mod sid;

pub use acl::{AccessControlEntry, AccessControlList};
pub use attributes::{AttributesRecord, AttributesView, SecurityAttributes};
pub use builder::{AttributesBuilder, BuildPhase};
pub use descriptor::{SecurityDescriptor, UninitializedDescriptor};
pub use error::BuildError;
pub use os_model::{AceRecord, Allocation, AllocatorKind, OsCall, OsOutcome};
pub use sid::Sid;
