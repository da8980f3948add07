//! Status codes of the engine, and how results cross the boundary in both directions.
use vstd::prelude::*;
use vstd::std_specs::cmp::PartialOrdSpec;

verus! {

/// The outcome of an engine operation, or of a host service called by the engine.
///
/// The first group reports structural failures; the `Aml*` group reports failures that
/// come from executing AML bytecode.
///
/// Statuses are ordered by their numeric codes.
#[must_use]
#[derive(Clone, Copy, Debug, PartialEq, Eq, Structural, Ord)]
pub enum Status {
    Success,
    MappingFailed,
    OutOfMemory,
    BadChecksum,
    InvalidSignature,
    InvalidTableLength,
    NotFound,
    InvalidArgument,
    Unimplemented,
    AlreadyExists,
    InternalError,
    TypeMismatch,
    InitLevelMismatch,
    NamespaceNodeDangling,
    NoHandler,
    NoResourceEndTag,
    CompiledOut,
    HardwareTimeout,
    AmlUndefinedReference,
    AmlInvalidNamestring,
    AmlObjectAlreadyExists,
    AmlInvalidOpcode,
    AmlIncompatibleObjectType,
    AmlBadEncoding,
    AmlOutOfBoundsIndex,
    AmlSyncLevelTooHigh,
    AmlInvalidResource,
    AmlLoopTimeout,
}

/// The engine's numeric code of a status.
pub open spec fn status_code(s: Status) -> u32 {
    match s {
        Status::Success => 0,
        Status::MappingFailed => 1,
        Status::OutOfMemory => 2,
        Status::BadChecksum => 3,
        Status::InvalidSignature => 4,
        Status::InvalidTableLength => 5,
        Status::NotFound => 6,
        Status::InvalidArgument => 7,
        Status::Unimplemented => 8,
        Status::AlreadyExists => 9,
        Status::InternalError => 10,
        Status::TypeMismatch => 11,
        Status::InitLevelMismatch => 12,
        Status::NamespaceNodeDangling => 13,
        Status::NoHandler => 14,
        Status::NoResourceEndTag => 15,
        Status::CompiledOut => 16,
        Status::HardwareTimeout => 17,
        Status::AmlUndefinedReference => 0x0EFF_0000,
        Status::AmlInvalidNamestring => 0x0EFF_0001,
        Status::AmlObjectAlreadyExists => 0x0EFF_0002,
        Status::AmlInvalidOpcode => 0x0EFF_0003,
        Status::AmlIncompatibleObjectType => 0x0EFF_0004,
        Status::AmlBadEncoding => 0x0EFF_0005,
        Status::AmlOutOfBoundsIndex => 0x0EFF_0006,
        Status::AmlSyncLevelTooHigh => 0x0EFF_0007,
        Status::AmlInvalidResource => 0x0EFF_0008,
        Status::AmlLoopTimeout => 0x0EFF_0009,
    }
}

/// The status that a numeric code of the engine stands for; `None` for a code the
/// engine never produces.
pub open spec fn status_of_code(code: u32) -> Option<Status> {
    match code {
        0 => Some(Status::Success),
        1 => Some(Status::MappingFailed),
        2 => Some(Status::OutOfMemory),
        3 => Some(Status::BadChecksum),
        4 => Some(Status::InvalidSignature),
        5 => Some(Status::InvalidTableLength),
        6 => Some(Status::NotFound),
        7 => Some(Status::InvalidArgument),
        8 => Some(Status::Unimplemented),
        9 => Some(Status::AlreadyExists),
        10 => Some(Status::InternalError),
        11 => Some(Status::TypeMismatch),
        12 => Some(Status::InitLevelMismatch),
        13 => Some(Status::NamespaceNodeDangling),
        14 => Some(Status::NoHandler),
        15 => Some(Status::NoResourceEndTag),
        16 => Some(Status::CompiledOut),
        17 => Some(Status::HardwareTimeout),
        0x0EFF_0000 => Some(Status::AmlUndefinedReference),
        0x0EFF_0001 => Some(Status::AmlInvalidNamestring),
        0x0EFF_0002 => Some(Status::AmlObjectAlreadyExists),
        0x0EFF_0003 => Some(Status::AmlInvalidOpcode),
        0x0EFF_0004 => Some(Status::AmlIncompatibleObjectType),
        0x0EFF_0005 => Some(Status::AmlBadEncoding),
        0x0EFF_0006 => Some(Status::AmlOutOfBoundsIndex),
        0x0EFF_0007 => Some(Status::AmlSyncLevelTooHigh),
        0x0EFF_0008 => Some(Status::AmlInvalidResource),
        0x0EFF_0009 => Some(Status::AmlLoopTimeout),
        _ => None,
    }
}

/// The status that a host operation reports to the engine. A failure that carries
/// `Status::Success` is still a failure: it becomes `InternalError`, so success is never
/// reported for an operation that did not succeed.
pub open spec fn reported_status<T>(r: Result<T, Status>) -> Status {
    match r {
        Ok(_) => Status::Success,
        Err(Status::Success) => Status::InternalError,
        Err(e) => e,
    }
}

impl Status {
    /// The engine's numeric code of this status.
    pub fn code(self) -> (r: u32)
        ensures
            r == status_code(self),
    {
        match self {
            Status::Success => 0,
            Status::MappingFailed => 1,
            Status::OutOfMemory => 2,
            Status::BadChecksum => 3,
            Status::InvalidSignature => 4,
            Status::InvalidTableLength => 5,
            Status::NotFound => 6,
            Status::InvalidArgument => 7,
            Status::Unimplemented => 8,
            Status::AlreadyExists => 9,
            Status::InternalError => 10,
            Status::TypeMismatch => 11,
            Status::InitLevelMismatch => 12,
            Status::NamespaceNodeDangling => 13,
            Status::NoHandler => 14,
            Status::NoResourceEndTag => 15,
            Status::CompiledOut => 16,
            Status::HardwareTimeout => 17,
            Status::AmlUndefinedReference => 0x0EFF_0000,
            Status::AmlInvalidNamestring => 0x0EFF_0001,
            Status::AmlObjectAlreadyExists => 0x0EFF_0002,
            Status::AmlInvalidOpcode => 0x0EFF_0003,
            Status::AmlIncompatibleObjectType => 0x0EFF_0004,
            Status::AmlBadEncoding => 0x0EFF_0005,
            Status::AmlOutOfBoundsIndex => 0x0EFF_0006,
            Status::AmlSyncLevelTooHigh => 0x0EFF_0007,
            Status::AmlInvalidResource => 0x0EFF_0008,
            Status::AmlLoopTimeout => 0x0EFF_0009,
        }
    }

    /// The status with the given numeric code, or `None` where the engine has no such code.
    pub fn from_code(code: u32) -> (r: Option<Status>)
        ensures
            r == status_of_code(code),
    {
        match code {
            0 => Some(Status::Success),
            1 => Some(Status::MappingFailed),
            2 => Some(Status::OutOfMemory),
            3 => Some(Status::BadChecksum),
            4 => Some(Status::InvalidSignature),
            5 => Some(Status::InvalidTableLength),
            6 => Some(Status::NotFound),
            7 => Some(Status::InvalidArgument),
            8 => Some(Status::Unimplemented),
            9 => Some(Status::AlreadyExists),
            10 => Some(Status::InternalError),
            11 => Some(Status::TypeMismatch),
            12 => Some(Status::InitLevelMismatch),
            13 => Some(Status::NamespaceNodeDangling),
            14 => Some(Status::NoHandler),
            15 => Some(Status::NoResourceEndTag),
            16 => Some(Status::CompiledOut),
            17 => Some(Status::HardwareTimeout),
            0x0EFF_0000 => Some(Status::AmlUndefinedReference),
            0x0EFF_0001 => Some(Status::AmlInvalidNamestring),
            0x0EFF_0002 => Some(Status::AmlObjectAlreadyExists),
            0x0EFF_0003 => Some(Status::AmlInvalidOpcode),
            0x0EFF_0004 => Some(Status::AmlIncompatibleObjectType),
            0x0EFF_0005 => Some(Status::AmlBadEncoding),
            0x0EFF_0006 => Some(Status::AmlOutOfBoundsIndex),
            0x0EFF_0007 => Some(Status::AmlSyncLevelTooHigh),
            0x0EFF_0008 => Some(Status::AmlInvalidResource),
            0x0EFF_0009 => Some(Status::AmlLoopTimeout),
            _ => None,
        }
    }

    pub fn is_ok(self) -> (r: bool)
        ensures
            r == (self == Status::Success),
    {
        match self {
            Status::Success => true,
            _ => false,
        }
    }

    /// The result of an engine entry point that reported this status.
    pub fn into_result(self) -> (r: Result<(), Status>)
        ensures
            self == Status::Success ==> r == Ok::<(), Status>(()),
            self != Status::Success ==> r == Err::<(), Status>(self),
    {
        match self {
            Status::Success => Ok(()),
            _ => Err(self),
        }
    }
}

/// The status that the engine receives for a host operation without an output value.
pub fn status_of(r: Result<(), Status>) -> (s: Status)
    ensures
        s == reported_status(r),
{
    match r {
        Ok(()) => Status::Success,
        Err(Status::Success) => Status::InternalError,
        Err(e) => e,
    }
}

/// The status that the engine receives for a host operation with an output value, and the
/// value to store through the engine's output parameter: present exactly on success.
pub fn status_and_value<T>(r: Result<T, Status>) -> (out: (Status, Option<T>))
    ensures
        out.0 == reported_status(r),
        match r {
            Ok(v) => out.1 == Some(v),
            Err(_) => out.1.is_none(),
        },
{
    match r {
        Ok(v) => (Status::Success, Some(v)),
        Err(e) => (status_of(Err(e)), None),
    }
}

/// How two numeric codes compare.
pub open spec fn code_order(a: u32, b: u32) -> Option<core::cmp::Ordering> {
    if a < b {
        Some(core::cmp::Ordering::Less)
    } else if a == b {
        Some(core::cmp::Ordering::Equal)
    } else {
        Some(core::cmp::Ordering::Greater)
    }
}

impl PartialOrd for Status {
    fn partial_cmp(&self, other: &Status) -> (r: Option<core::cmp::Ordering>) {
        let a = self.code();
        let b = other.code();
        if a < b {
            Some(core::cmp::Ordering::Less)
        } else if a == b {
            Some(core::cmp::Ordering::Equal)
        } else {
            Some(core::cmp::Ordering::Greater)
        }
    }
}

impl vstd::std_specs::cmp::PartialOrdSpecImpl for Status {
    open spec fn obeys_partial_cmp_spec() -> bool {
        true
    }

    open spec fn partial_cmp_spec(&self, other: &Status) -> Option<core::cmp::Ordering> {
        code_order(status_code(*self), status_code(*other))
    }
}

/// Every status survives the trip to its numeric code and back.
pub proof fn lemma_status_code_round_trip(s: Status)
    ensures
        status_of_code(status_code(s)) == Some(s),
{
}

/// A numeric code decodes only to the status whose code it is, and only the code 0
/// decodes to `Success`: no other code is taken for success.
pub proof fn lemma_status_of_code_exact(code: u32)
    ensures
        status_of_code(code) matches Some(s) ==> status_code(s) == code,
        status_of_code(code) == Some(Status::Success) <==> code == 0,
{
}

/// A host operation is reported to the engine as successful exactly when it succeeded.
pub proof fn lemma_reported_success<T>(r: Result<T, Status>)
    ensures
        (reported_status(r) == Status::Success) <==> r is Ok,
{
}

/// The mapping from codes to statuses keeps order: of two codes of the engine, the
/// smaller decodes to the status that orders first, and equal statuses come only from
/// equal codes.
pub proof fn lemma_status_of_code_keeps_order(a: u32, b: u32)
    requires
        status_of_code(a).is_some(),
        status_of_code(b).is_some(),
    ensures
        a < b ==> status_of_code(a).unwrap().partial_cmp_spec(&status_of_code(b).unwrap())
            == Some(core::cmp::Ordering::Less),
        status_of_code(a) == status_of_code(b) ==> a == b,
{
    lemma_status_of_code_exact(a);
    lemma_status_of_code_exact(b);
}

/// Statuses order as their numeric codes do.
pub proof fn lemma_status_order(x: Status, y: Status)
    ensures
        x.partial_cmp_spec(&y) == Some(core::cmp::Ordering::Less) <==> status_code(x)
            < status_code(y),
        x.partial_cmp_spec(&y) == Some(core::cmp::Ordering::Equal) <==> x == y,
{
    lemma_status_code_round_trip(x);
    lemma_status_code_round_trip(y);
}

} // verus!
