use vstd::prelude::*;

use crate::host::{BridgeError, HostObject, HostValue};

verus! {

/// What reading the platform version yields from the host's reply to a read
/// of `Member::PlatformVersion`.
pub open spec fn spec_platform_version(field: Result<HostValue, BridgeError>) -> Result<i32, BridgeError> {
    match field {
        Ok(HostValue::Int(v)) => Ok(v),
        Ok(_) => Err(BridgeError::MemberResolution),
        Err(e) => Err(e),
    }
}

/// The platform version out of the host's reply: the field must hold an
/// integer; a field of another type does not resolve.
pub fn platform_version(field: Result<HostValue, BridgeError>) -> (r: Result<i32, BridgeError>)
    ensures
        r == spec_platform_version(field),
{
    match field {
        Ok(v) => match v.as_int() {
            Some(i) => Ok(i),
            None => Err(BridgeError::MemberResolution),
        },
        Err(e) => Err(e),
    }
}

/// What obtaining the scheduler yields from the host's reply to a call of
/// `Member::SchedulerFactory`.
pub open spec fn spec_scheduler_handle(reply: Result<HostValue, BridgeError>) -> Result<HostObject, BridgeError> {
    match reply {
        Ok(HostValue::Object(o)) => if o.spec_is_null() {
            Err(BridgeError::SchedulerUnavailable)
        } else {
            Ok(o)
        },
        Ok(_) => Err(BridgeError::MemberResolution),
        Err(e) => Err(e),
    }
}

/// The scheduler out of the factory's reply: a null reference means that no
/// execution context is active.
pub fn scheduler_handle(reply: Result<HostValue, BridgeError>) -> (r: Result<HostObject, BridgeError>)
    ensures
        r == spec_scheduler_handle(reply),
{
    match reply {
        Ok(v) => match v.as_object() {
            Some(o) => if o.is_null() {
                Err(BridgeError::SchedulerUnavailable)
            } else {
                Ok(o)
            },
            None => Err(BridgeError::MemberResolution),
        },
        Err(e) => Err(e),
    }
}

} // verus!
