use vstd::prelude::*;

verus! {

/// The error taxonomy of every operation that crosses the boundary.
#[derive(Debug, Clone, Copy, PartialEq, Eq, Structural)]
pub enum BridgeError {
    MemberResolution,
    ArgumentMismatch,
    InvalidReference,
    Invocation,
    SchedulerUnavailable,
    InvalidRequest,
    OutOfMemory,
    Decode,
    ProtocolViolation,
}

/// Faults that mean the embedding is misconfigured (or memory ran out):
/// these end the call; every other fault is handed back to the caller.
pub open spec fn spec_is_fatal(e: BridgeError) -> bool {
    match e {
        BridgeError::MemberResolution => true,
        BridgeError::InvalidReference => true,
        BridgeError::SchedulerUnavailable => true,
        BridgeError::OutOfMemory => true,
        _ => false,
    }
}

impl BridgeError {
    pub fn is_fatal(&self) -> (r: bool)
        ensures
            r == spec_is_fatal(*self),
    {
        match self {
            BridgeError::MemberResolution => true,
            BridgeError::InvalidReference => true,
            BridgeError::SchedulerUnavailable => true,
            BridgeError::OutOfMemory => true,
            _ => false,
        }
    }
}


/// The status codes with which a call of the host runtime's native
/// interface itself can fail.
#[derive(Debug, Clone, Copy, PartialEq, Eq, Structural)]
pub enum CallCode {
    Unknown,
    ThreadDetached,
    WrongVersion,
    NoMemory,
    AlreadyCreated,
    InvalidArguments,
    Other(i32),
}

/// What the host's call interface reports when a call fails, one case for
/// each kind of failure it distinguishes.
#[derive(Debug, Clone, Copy, PartialEq, Eq, Structural)]
pub enum HostFault {
    WrongValueType,
    InvalidConstructorReturn,
    InvalidArgumentList,
    MethodNotFound,
    FieldNotFound,
    Exception,
    InterfaceFunctionMissing,
    NullPointer,
    NullDereference,
    LockBusy,
    VmFunctionMissing,
    FieldAlreadySet,
    ThrowFailed,
    SignatureUnparsable,
    CallFailed(CallCode),
}

/// Where a fault of the host's call interface falls in the error taxonomy:
/// a member that is not there does not resolve, arguments that do not fit
/// the signature mismatch, a null reference is invalid, a thread without an
/// execution context has no scheduler, and whatever else went wrong inside
/// the call is an invocation failure.
pub open spec fn spec_error_of(f: HostFault) -> BridgeError {
    match f {
        HostFault::MethodNotFound => BridgeError::MemberResolution,
        HostFault::FieldNotFound => BridgeError::MemberResolution,
        HostFault::InterfaceFunctionMissing => BridgeError::MemberResolution,
        HostFault::WrongValueType => BridgeError::ArgumentMismatch,
        HostFault::InvalidArgumentList => BridgeError::ArgumentMismatch,
        HostFault::SignatureUnparsable => BridgeError::ArgumentMismatch,
        HostFault::NullPointer => BridgeError::InvalidReference,
        HostFault::NullDereference => BridgeError::InvalidReference,
        HostFault::CallFailed(CallCode::NoMemory) => BridgeError::OutOfMemory,
        HostFault::CallFailed(CallCode::ThreadDetached) => BridgeError::SchedulerUnavailable,
        _ => BridgeError::Invocation,
    }
}

impl HostFault {
    pub fn error(&self) -> (r: BridgeError)
        ensures
            r == spec_error_of(*self),
    {
        match self {
            HostFault::MethodNotFound | HostFault::FieldNotFound | HostFault::InterfaceFunctionMissing => {
                BridgeError::MemberResolution
            },
            HostFault::WrongValueType | HostFault::InvalidArgumentList | HostFault::SignatureUnparsable => {
                BridgeError::ArgumentMismatch
            },
            HostFault::NullPointer | HostFault::NullDereference => BridgeError::InvalidReference,
            HostFault::CallFailed(CallCode::NoMemory) => BridgeError::OutOfMemory,
            HostFault::CallFailed(CallCode::ThreadDetached) => BridgeError::SchedulerUnavailable,
            _ => BridgeError::Invocation,
        }
    }

    /// Whether the failed call left an exception pending in the host, which
    /// must be cleared before the failure is handed back.
    pub fn leaves_exception(&self) -> (r: bool)
        ensures
            r == (*self == HostFault::Exception),
    {
        match self {
            HostFault::Exception => true,
            _ => false,
        }
    }
}

/// A reference to an object of the host runtime. The raw value 0 is the
/// null reference.
#[derive(Debug, Clone, Copy, PartialEq, Eq, Structural)]
pub struct HostObject {
    pub raw: usize,
}

impl HostObject {
    pub open spec fn spec_is_null(self) -> bool {
        self.raw == 0
    }

    pub fn null() -> (r: HostObject)
        ensures
            r.spec_is_null(),
    {
        HostObject { raw: 0 }
    }

    pub fn is_null(&self) -> (r: bool)
        ensures
            r == self.spec_is_null(),
    {
        self.raw == 0
    }
}

/// A value handed across the host boundary, tagged with its kind.
#[derive(Debug, Clone, Copy, PartialEq, Eq, Structural)]
pub enum HostValue {
    Int(i32),
    Long(i64),
    Bool(bool),
    Object(HostObject),
    Void,
}

impl HostValue {
    /// The integer carried by an `Int`; `None` for every other tag.
    pub fn as_int(&self) -> (r: Option<i32>)
        ensures
            r == (match *self {
                HostValue::Int(i) => Some(i),
                _ => None::<i32>,
            }),
    {
        match self {
            HostValue::Int(i) => Some(*i),
            _ => None,
        }
    }

    /// The integer carried by a `Long`; `None` for every other tag.
    pub fn as_long(&self) -> (r: Option<i64>)
        ensures
            r == (match *self {
                HostValue::Long(i) => Some(i),
                _ => None::<i64>,
            }),
    {
        match self {
            HostValue::Long(i) => Some(*i),
            _ => None,
        }
    }

    /// The flag carried by a `Bool`; `None` for every other tag.
    pub fn as_bool(&self) -> (r: Option<bool>)
        ensures
            r == (match *self {
                HostValue::Bool(b) => Some(b),
                _ => None::<bool>,
            }),
    {
        match self {
            HostValue::Bool(b) => Some(*b),
            _ => None,
        }
    }

    /// The reference carried by an `Object`; `None` for every other tag.
    pub fn as_object(&self) -> (r: Option<HostObject>)
        ensures
            r == (match *self {
                HostValue::Object(o) => Some(o),
                _ => None::<HostObject>,
            }),
    {
        match self {
            HostValue::Object(o) => Some(*o),
            _ => None,
        }
    }
}

/// The members of the host runtime that the bridge reaches, in one table.
#[derive(Debug, Clone, Copy, PartialEq, Eq, Structural)]
pub enum Member {
    /// The static integer field that holds the platform version.
    PlatformVersion,
    /// The static factory that yields the scheduler of the running context.
    SchedulerFactory,
    /// The static accessor of the current execution context.
    CurrentContext,
    /// The static factory of runnables that fire once.
    OneShotRunnable,
    /// The static factory of runnables that fire repeatedly.
    RepeatingRunnable,
    /// The scheduler's instance method that submits a runnable with a delay.
    PostDelayed,
}

/// How a member is looked up: its owning type, its name and its type
/// signature, in the host runtime's notation.
#[derive(Debug, Clone, Copy)]
pub struct MemberDescriptor {
    pub owner: &'static str,
    pub name: &'static str,
    pub signature: &'static str,
}

impl Member {
    /// The descriptor under which the member is resolved.
    pub fn descriptor(&self) -> (r: MemberDescriptor)
        ensures
            r.owner@ == spec_owner(*self),
            r.name@ == spec_name(*self),
            r.signature@ == spec_signature(*self),
    {
        match self {
            Member::PlatformVersion => MemberDescriptor {
                owner: "android/os/Build$VERSION",
                name: "SDK_INT",
                signature: "I",
            },
            Member::SchedulerFactory => MemberDescriptor {
                owner: "com/node/v8/V8Utils",
                name: "getHandler",
                signature: "()Landroid/os/Handler;",
            },
            Member::CurrentContext => MemberDescriptor {
                owner: "com/node/v8/V8Context",
                name: "getCurrent",
                signature: "()Lcom/node/v8/V8Context;",
            },
            Member::OneShotRunnable => MemberDescriptor {
                owner: "com/node/v8/V8Runnable",
                name: "createTimeoutRunnable",
                signature: "(Lcom/node/v8/V8Context;JJ)Lcom/node/v8/V8Runnable;",
            },
            Member::RepeatingRunnable => MemberDescriptor {
                owner: "com/node/v8/V8Runnable",
                name: "createIntervalRunnable",
                signature: "(Lcom/node/v8/V8Context;JJ)Lcom/node/v8/V8Runnable;",
            },
            Member::PostDelayed => MemberDescriptor {
                owner: "android/os/Handler",
                name: "postDelayed",
                signature: "(Ljava/lang/Runnable;J)Z",
            },
        }
    }
}

pub open spec fn spec_owner(m: Member) -> Seq<char> {
    match m {
        Member::PlatformVersion => "android/os/Build$VERSION"@,
        Member::SchedulerFactory => "com/node/v8/V8Utils"@,
        Member::CurrentContext => "com/node/v8/V8Context"@,
        Member::OneShotRunnable => "com/node/v8/V8Runnable"@,
        Member::RepeatingRunnable => "com/node/v8/V8Runnable"@,
        Member::PostDelayed => "android/os/Handler"@,
    }
}

pub open spec fn spec_name(m: Member) -> Seq<char> {
    match m {
        Member::PlatformVersion => "SDK_INT"@,
        Member::SchedulerFactory => "getHandler"@,
        Member::CurrentContext => "getCurrent"@,
        Member::OneShotRunnable => "createTimeoutRunnable"@,
        Member::RepeatingRunnable => "createIntervalRunnable"@,
        Member::PostDelayed => "postDelayed"@,
    }
}

pub open spec fn spec_signature(m: Member) -> Seq<char> {
    match m {
        Member::PlatformVersion => "I"@,
        Member::SchedulerFactory => "()Landroid/os/Handler;"@,
        Member::CurrentContext => "()Lcom/node/v8/V8Context;"@,
        Member::OneShotRunnable => "(Lcom/node/v8/V8Context;JJ)Lcom/node/v8/V8Runnable;"@,
        Member::RepeatingRunnable => "(Lcom/node/v8/V8Context;JJ)Lcom/node/v8/V8Runnable;"@,
        Member::PostDelayed => "(Ljava/lang/Runnable;J)Z"@,
    }
}

} // verus!
