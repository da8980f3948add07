//! Handles, addresses and the small enumerations that the engine's interface passes as numbers.
use vstd::prelude::*;

verus! {

/// An opaque token minted by the host for one of its objects (a mutex, an event, a
/// mapped IO range, an interrupt handler). The value 0 is reserved for "no handle".
#[derive(Clone, Copy, Debug, PartialEq, Eq, Structural, PartialOrd, Ord)]
pub struct Handle(u64);

impl View for Handle {
    type V = u64;

    closed spec fn view(&self) -> u64 {
        self.0
    }
}

/// The handle that the value `handle` mints: none for the reserved value 0.
pub closed spec fn minted_handle(handle: u64) -> Option<Handle> {
    if handle == 0 {
        None
    } else {
        Some(Handle(handle))
    }
}

impl Handle {
    /// A handle with the given nonzero value; 0 is reserved for the invalid handle.
    pub fn new(handle: u64) -> (r: Handle)
        requires
            handle != 0,
        ensures
            minted_handle(handle) == Some(r),
            r@ == handle,
    {
        Handle(handle)
    }

    /// A handle with the given value, or `None` for the reserved value 0.
    pub fn try_new(handle: u64) -> (r: Option<Handle>)
        ensures
            r == minted_handle(handle),
            r.is_none() <==> handle == 0,
            r matches Some(h) ==> h@ == handle,
    {
        if handle == 0 {
            None
        } else {
            Some(Handle(handle))
        }
    }

    /// The handle with the value the engine passed, which may be the reserved value 0.
    pub fn from_raw(handle: u64) -> (r: Handle)
        ensures
            r@ == handle,
    {
        Handle(handle)
    }

    /// The reserved handle that stands for "no handle".
    pub fn invalid() -> (r: Handle)
        ensures
            r@ == 0,
    {
        Handle(0)
    }

    pub fn is_valid(self) -> (r: bool)
        ensures
            r == (self@ != 0),
    {
        self.0 != 0
    }

    pub fn as_u64(self) -> (r: u64)
        ensures
            r == self@,
    {
        self.0
    }
}

/// The value 0 mints no handle; every other value mints a valid handle that reads back
/// as that value.
pub proof fn lemma_handle_round_trip(value: u64)
    ensures
        value == 0 ==> minted_handle(value).is_none(),
        value != 0 ==> (minted_handle(value) matches Some(h) && h@ == value && h@ != 0),
{
}

/// A physical memory address.
#[derive(Clone, Copy, Debug, PartialEq, Eq, Structural, PartialOrd, Ord)]
pub struct PhysAddr(u64);

impl View for PhysAddr {
    type V = u64;

    closed spec fn view(&self) -> u64 {
        self.0
    }
}

impl PhysAddr {
    pub fn new(phys_addr: u64) -> (r: PhysAddr)
        ensures
            r@ == phys_addr,
    {
        PhysAddr(phys_addr)
    }

    pub fn as_u64(self) -> (r: u64)
        ensures
            r == self@,
    {
        self.0
    }
}

/// An address in the system IO space.
#[derive(Clone, Copy, Debug, PartialEq, Eq, Structural, PartialOrd, Ord)]
pub struct IOAddr(u64);

impl View for IOAddr {
    type V = u64;

    closed spec fn view(&self) -> u64 {
        self.0
    }
}

impl IOAddr {
    pub fn new(io_addr: u64) -> (r: IOAddr)
        ensures
            r@ == io_addr,
    {
        IOAddr(io_addr)
    }

    pub fn as_u64(self) -> (r: u64)
        ensures
            r == self@,
    {
        self.0
    }
}

/// A token that identifies the thread the engine runs on, as the host gives it out.
#[derive(Clone, Copy, Debug, PartialEq, Eq, Structural, PartialOrd, Ord)]
pub struct ThreadId(u64);

impl View for ThreadId {
    type V = u64;

    closed spec fn view(&self) -> u64 {
        self.0
    }
}

impl ThreadId {
    pub fn new(value: u64) -> (r: ThreadId)
        ensures
            r@ == value,
    {
        ThreadId(value)
    }

    pub fn as_u64(self) -> (r: u64)
        ensures
            r == self@,
    {
        self.0
    }
}

/// The interrupt state that taking a spinlock saved, to be restored when it is released.
#[derive(Clone, Copy, Debug, PartialEq, Eq, Structural, PartialOrd, Ord)]
pub struct CpuFlags(u64);

impl View for CpuFlags {
    type V = u64;

    closed spec fn view(&self) -> u64 {
        self.0
    }
}

impl CpuFlags {
    pub fn new(value: u64) -> (r: CpuFlags)
        ensures
            r@ == value,
    {
        CpuFlags(value)
    }

    pub fn as_u64(self) -> (r: u64)
        ensures
            r == self@,
    {
        self.0
    }
}

/// How much the engine logs, and the severity of one message it logs. Levels order by
/// the engine's values, from the least verbose.
#[derive(Clone, Copy, Debug, PartialEq, Eq, Structural, PartialOrd, Ord)]
pub enum LogLevel {
    Error,
    Warn,
    Info,
    Trace,
    Debug,
}

impl LogLevel {
    /// The engine's numeric value of this LogLevel.
    pub open spec fn spec_code(self) -> u32 {
        match self {
            LogLevel::Error => 0,
            LogLevel::Warn => 1,
            LogLevel::Info => 2,
            LogLevel::Trace => 3,
            LogLevel::Debug => 4,
        }
    }

    pub fn code(self) -> (r: u32)
        ensures
            r == self.spec_code(),
    {
        match self {
            LogLevel::Error => 0,
            LogLevel::Warn => 1,
            LogLevel::Info => 2,
            LogLevel::Trace => 3,
            LogLevel::Debug => 4,
        }
    }

    /// The LogLevel with the given numeric value, or `None` where the engine has none.
    pub fn from_code(code: u32) -> (r: Option<LogLevel>)
        ensures
            r matches Some(v) ==> v.spec_code() == code,
            r.is_none() <==> code >= 5,
    {
        match code {
            0 => Some(LogLevel::Error),
            1 => Some(LogLevel::Warn),
            2 => Some(LogLevel::Info),
            3 => Some(LogLevel::Trace),
            4 => Some(LogLevel::Debug),
            _ => None,
        }
    }
}

/// How far the engine's initialization has gone. The levels are reached in this order.
#[derive(Clone, Copy, Debug, PartialEq, Eq, Structural, PartialOrd, Ord)]
pub enum InitLevel {
    Early,
    SubsystemInitialized,
    NamespaceLoaded,
    NamespaceInitialized,
}

impl InitLevel {
    /// The engine's numeric value of this InitLevel.
    pub open spec fn spec_code(self) -> u32 {
        match self {
            InitLevel::Early => 0,
            InitLevel::SubsystemInitialized => 1,
            InitLevel::NamespaceLoaded => 2,
            InitLevel::NamespaceInitialized => 3,
        }
    }

    pub fn code(self) -> (r: u32)
        ensures
            r == self.spec_code(),
    {
        match self {
            InitLevel::Early => 0,
            InitLevel::SubsystemInitialized => 1,
            InitLevel::NamespaceLoaded => 2,
            InitLevel::NamespaceInitialized => 3,
        }
    }

    /// The InitLevel with the given numeric value, or `None` where the engine has none.
    pub fn from_code(code: u32) -> (r: Option<InitLevel>)
        ensures
            r matches Some(v) ==> v.spec_code() == code,
            r.is_none() <==> code >= 4,
    {
        match code {
            0 => Some(InitLevel::Early),
            1 => Some(InitLevel::SubsystemInitialized),
            2 => Some(InitLevel::NamespaceLoaded),
            3 => Some(InitLevel::NamespaceInitialized),
            _ => None,
        }
    }
}

/// The kind of deferred work that the engine schedules.
#[derive(Clone, Copy, Debug, PartialEq, Eq, Structural)]
pub enum WorkType {
    GPEExecution,
    Notification,
}

impl WorkType {
    /// The engine's numeric value of this WorkType.
    pub open spec fn spec_code(self) -> u32 {
        match self {
            WorkType::GPEExecution => 0,
            WorkType::Notification => 1,
        }
    }

    pub fn code(self) -> (r: u32)
        ensures
            r == self.spec_code(),
    {
        match self {
            WorkType::GPEExecution => 0,
            WorkType::Notification => 1,
        }
    }

    /// The WorkType with the given numeric value, or `None` where the engine has none.
    pub fn from_code(code: u32) -> (r: Option<WorkType>)
        ensures
            r matches Some(v) ==> v.spec_code() == code,
            r.is_none() <==> code >= 2,
    {
        match code {
            0 => Some(WorkType::GPEExecution),
            1 => Some(WorkType::Notification),
            _ => None,
        }
    }
}

/// The system sleep states.
#[derive(Clone, Copy, Debug, PartialEq, Eq, Structural)]
pub enum SleepState {
    S0,
    S1,
    S2,
    S3,
    S4,
    S5,
}

impl SleepState {
    /// The engine's numeric value of this SleepState.
    pub open spec fn spec_code(self) -> u8 {
        match self {
            SleepState::S0 => 0,
            SleepState::S1 => 1,
            SleepState::S2 => 2,
            SleepState::S3 => 3,
            SleepState::S4 => 4,
            SleepState::S5 => 5,
        }
    }

    pub fn code(self) -> (r: u8)
        ensures
            r == self.spec_code(),
    {
        match self {
            SleepState::S0 => 0,
            SleepState::S1 => 1,
            SleepState::S2 => 2,
            SleepState::S3 => 3,
            SleepState::S4 => 4,
            SleepState::S5 => 5,
        }
    }

    /// The SleepState with the given numeric value, or `None` where the engine has none.
    pub fn from_code(code: u8) -> (r: Option<SleepState>)
        ensures
            r matches Some(v) ==> v.spec_code() == code,
            r.is_none() <==> code >= 6,
    {
        match code {
            0 => Some(SleepState::S0),
            1 => Some(SleepState::S1),
            2 => Some(SleepState::S2),
            3 => Some(SleepState::S3),
            4 => Some(SleepState::S4),
            5 => Some(SleepState::S5),
            _ => None,
        }
    }
}

/// What a namespace visitor asks of the walk after seeing one node.
#[derive(Clone, Copy, Debug, PartialEq, Eq, Structural, PartialOrd, Ord)]
pub enum NsIterDecision {
    Continue,
    NextPeer,
    Break,
}

impl NsIterDecision {
    /// The engine's numeric value of this NsIterDecision.
    pub open spec fn spec_code(self) -> u32 {
        match self {
            NsIterDecision::Continue => 0,
            NsIterDecision::NextPeer => 1,
            NsIterDecision::Break => 2,
        }
    }

    pub fn code(self) -> (r: u32)
        ensures
            r == self.spec_code(),
    {
        match self {
            NsIterDecision::Continue => 0,
            NsIterDecision::NextPeer => 1,
            NsIterDecision::Break => 2,
        }
    }

    /// The NsIterDecision with the given numeric value, or `None` where the engine has none.
    pub fn from_code(code: u32) -> (r: Option<NsIterDecision>)
        ensures
            r matches Some(v) ==> v.spec_code() == code,
            r.is_none() <==> code >= 3,
    {
        match code {
            0 => Some(NsIterDecision::Continue),
            1 => Some(NsIterDecision::NextPeer),
            2 => Some(NsIterDecision::Break),
            _ => None,
        }
    }
}

/// The interrupt controller model that the firmware is told about.
#[derive(Clone, Copy, Debug, PartialEq, Eq, Structural, PartialOrd, Ord)]
pub enum InterruptModel {
    Pic,
    IoApic,
    IoSapic,
}

impl InterruptModel {
    /// The engine's numeric value of this InterruptModel.
    pub open spec fn spec_code(self) -> u32 {
        match self {
            InterruptModel::Pic => 0,
            InterruptModel::IoApic => 1,
            InterruptModel::IoSapic => 2,
        }
    }

    pub fn code(self) -> (r: u32)
        ensures
            r == self.spec_code(),
    {
        match self {
            InterruptModel::Pic => 0,
            InterruptModel::IoApic => 1,
            InterruptModel::IoSapic => 2,
        }
    }

    /// The InterruptModel with the given numeric value, or `None` where the engine has none.
    pub fn from_code(code: u32) -> (r: Option<InterruptModel>)
        ensures
            r matches Some(v) ==> v.spec_code() == code,
            r.is_none() <==> code >= 3,
    {
        match code {
            0 => Some(InterruptModel::Pic),
            1 => Some(InterruptModel::IoApic),
            2 => Some(InterruptModel::IoSapic),
            _ => None,
        }
    }
}

/// The kinds of request that firmware makes of the host.
#[derive(Clone, Copy, Debug, PartialEq, Eq, Structural)]
pub enum FirmwareRequestKind {
    Breakpoint,
    Fatal,
}

impl FirmwareRequestKind {
    /// The engine's tag for this kind of request.
    pub open spec fn spec_code(self) -> u8 {
        match self {
            FirmwareRequestKind::Breakpoint => 0,
            FirmwareRequestKind::Fatal => 1,
        }
    }

    pub fn code(self) -> (r: u8)
        ensures
            r == self.spec_code(),
    {
        match self {
            FirmwareRequestKind::Breakpoint => 0,
            FirmwareRequestKind::Fatal => 1,
        }
    }

    /// The kind of request with the given tag, or `None` for a tag the engine never uses.
    pub fn from_code(code: u8) -> (r: Option<FirmwareRequestKind>)
        ensures
            r matches Some(k) ==> k.spec_code() == code,
            r.is_none() <==> code >= 2,
    {
        match code {
            0 => Some(FirmwareRequestKind::Breakpoint),
            1 => Some(FirmwareRequestKind::Fatal),
            _ => None,
        }
    }
}

/// A request from firmware: a breakpoint in AML, or a fatal error that AML reports.
#[derive(Clone, Copy, Debug, PartialEq, Eq, Structural)]
pub enum FirmwareRequest {
    Breakpoint { context: Handle },
    Fatal { typ: u8, code: u32, arg: u64 },
}

impl FirmwareRequest {
    pub open spec fn spec_kind(self) -> FirmwareRequestKind {
        match self {
            FirmwareRequest::Breakpoint { .. } => FirmwareRequestKind::Breakpoint,
            FirmwareRequest::Fatal { .. } => FirmwareRequestKind::Fatal,
        }
    }

    pub fn kind(&self) -> (r: FirmwareRequestKind)
        ensures
            r == self.spec_kind(),
    {
        match self {
            FirmwareRequest::Breakpoint { .. } => FirmwareRequestKind::Breakpoint,
            FirmwareRequest::Fatal { .. } => FirmwareRequestKind::Fatal,
        }
    }
}

/// Whether the engine runs on full ACPI hardware or on the reduced hardware profile, which
/// lacks legacy registers such as the firmware waking vector.
#[derive(Clone, Copy, Debug, PartialEq, Eq, Structural)]
pub enum HardwareMode {
    Full,
    Reduced,
}

impl HardwareMode {
    /// Whether setting the firmware waking vector can go to the engine in this mode: on
    /// reduced hardware it fails with `CompiledOut` and the engine is not asked.
    pub fn waking_vector_support(self) -> (r: Result<(), crate::status::Status>)
        ensures
            self == HardwareMode::Full ==> r is Ok,
            self == HardwareMode::Reduced ==> r == Err::<(), crate::status::Status>(
                crate::status::Status::CompiledOut,
            ),
    {
        match self {
            HardwareMode::Full => Ok(()),
            HardwareMode::Reduced => Err(crate::status::Status::CompiledOut),
        }
    }
}

} // verus!
