//! Typed bindings to a freestanding ACPI engine: its status codes, handle and address
//! types, the host services it calls back into, and the values that cross that boundary.
pub mod host;
pub mod libc;
pub mod namespace;
pub mod object;
pub mod pci;
pub mod registry;
pub mod status;
pub mod sync;
pub mod types;

pub use host::{InterruptTable, WorkQueue};
pub use namespace::{IdString, NamespaceNode, Table};
pub use object::{Object, ObjectType, ObjectValue};
pub use pci::PCIAddress;
pub use registry::Registry;
pub use status::Status;
pub use sync::{EventCounter, MutexState, Timeout, WaitStep};
pub use types::{
    CpuFlags, FirmwareRequest, FirmwareRequestKind, Handle, HardwareMode, IOAddr, InitLevel,
    InterruptModel, LogLevel, NsIterDecision, PhysAddr, SleepState, ThreadId, WorkType,
};
