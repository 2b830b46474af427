use vstd::prelude::*;
use vstd::string::StringSliceAdditionalSpecFns;

use crate::exchange::{greeting_buffer, EngineBuffer};
use crate::host::BridgeError;

verus! {

/// The return value of one invocation of a script-callable function. Exactly
/// one value must be set: setting none, or setting a second one, breaks the
/// protocol.
pub struct ReturnSlot<T> {
    value: Option<T>,
    overwritten: bool,
}

impl<T> View for ReturnSlot<T> {
    /// The value set so far, and whether a second one was attempted.
    type V = (Option<T>, bool);

    closed spec fn view(&self) -> (Option<T>, bool) {
        (self.value, self.overwritten)
    }
}

impl<T> ReturnSlot<T> {
    pub fn new() -> (r: ReturnSlot<T>)
        ensures
            r@ == (None::<T>, false),
    {
        ReturnSlot { value: None, overwritten: false }
    }

    /// Sets the return value. A second value is refused and leaves the first
    /// in place; the invocation is then in breach of the protocol.
    pub fn set(&mut self, v: T) -> (r: Result<(), BridgeError>)
        ensures
            old(self)@.0 is None ==> r is Ok && final(self)@ == (Some(v), old(self)@.1),
            old(self)@.0 is Some ==> r == Err::<(), BridgeError>(BridgeError::ProtocolViolation)
                && final(self)@ == (old(self)@.0, true),
    {
        if self.value.is_some() {
            self.overwritten = true;
            Err(BridgeError::ProtocolViolation)
        } else {
            self.value = Some(v);
            Ok(())
        }
    }

    /// The value to hand back to the engine once the invocation returns.
    pub fn finish(self) -> (r: Result<T, BridgeError>)
        ensures
            match self@ {
                (Some(v), false) => r == Ok::<T, BridgeError>(v),
                _ => r == Err::<T, BridgeError>(BridgeError::ProtocolViolation),
            },
    {
        if self.overwritten {
            Err(BridgeError::ProtocolViolation)
        } else {
            match self.value {
                Some(v) => Ok(v),
                None => Err(BridgeError::ProtocolViolation),
            }
        }
    }
}

/// A script-callable function that returns a greeting buffer to the engine.
pub fn test_fn(args: &mut ReturnSlot<EngineBuffer>) -> (r: Result<(), BridgeError>)
    ensures
        old(args)@.0 is None ==> {
            &&& r is Ok
            &&& final(args)@.1 == old(args)@.1
            &&& final(args)@.0 matches Some(b) && b@ == "Send \u{1F496} from Rust".spec_bytes()
        },
        old(args)@.0 is Some ==> r == Err::<(), BridgeError>(BridgeError::ProtocolViolation)
            && final(args)@ == (old(args)@.0, true),
{
    args.set(greeting_buffer())
}

} // verus!
