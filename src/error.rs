//! Status codes reported by the foreign API and the library's error type.
use vstd::prelude::*;

use core_foundation::base::{CFType, TCFType};

verus! {

/// Status code returned by every foreign accessibility call.
pub type AXError = i32;

/// Runtime type identifier of a foreign object.
pub type CFTypeID = usize;

pub const kAXErrorSuccess: AXError = 0;
pub const kAXErrorFailure: AXError = -25200;
pub const kAXErrorIllegalArgument: AXError = -25201;
pub const kAXErrorInvalidUIElement: AXError = -25202;
pub const kAXErrorInvalidUIElementObserver: AXError = -25203;
pub const kAXErrorCannotComplete: AXError = -25204;
pub const kAXErrorAttributeUnsupported: AXError = -25205;
pub const kAXErrorActionUnsupported: AXError = -25206;
pub const kAXErrorNotificationUnsupported: AXError = -25207;
pub const kAXErrorNotImplemented: AXError = -25208;
pub const kAXErrorNotificationAlreadyRegistered: AXError = -25209;
pub const kAXErrorNotificationNotRegistered: AXError = -25210;
pub const kAXErrorAPIDisabled: AXError = -25211;
pub const kAXErrorNoValue: AXError = -25212;
pub const kAXErrorParameterizedAttributeUnsupported: AXError = -25213;
pub const kAXErrorNotEnoughPrecision: AXError = -25214;

/// Failures surfaced by the library.
#[non_exhaustive]
#[derive(Debug, Clone, Copy, PartialEq, Eq, Structural)]
pub enum Error {
    /// A search ran out of time without a match.
    NotFound,
    /// An attribute value's runtime type differs from the declared one.
    UnexpectedType { expected: CFTypeID, received: CFTypeID },
    /// A geometry/range value holds another kind than the one requested.
    UnexpectedValueType { expected: u32, received: u32 },
    /// A foreign call reported a non-success status, kept verbatim.
    Ax(AXError),
}

/// The type identifier that stands for "any type": declared with it, an
/// attribute accepts every value.
pub open spec fn any_type_id_spec() -> CFTypeID {
    0
}

/// Relies on `core_foundation::base::CFType::type_id`, which returns the
/// constant 0 for the untyped `CFType` wrapper.
#[verifier::external_body]
fn any_type_id() -> (r: CFTypeID)
    ensures
        r == any_type_id_spec(),
{
    <CFType as TCFType>::type_id()
}

/// The result of a foreign call that reported `status`.
pub open spec fn status_result(status: AXError) -> Result<(), Error> {
    if status == kAXErrorSuccess {
        Ok(())
    } else {
        Err(Error::Ax(status))
    }
}

/// Translates a foreign status code: success is `Ok`, any other code is
/// `Ax(code)`.
pub fn ax_status(status: AXError) -> (r: Result<(), Error>)
    ensures
        r == status_result(status),
{
    if status == kAXErrorSuccess {
        Ok(())
    } else {
        Err(Error::Ax(status))
    }
}

/// The outcome of checking a fetched value of runtime type `received` against
/// the declared type `expected`.
pub open spec fn type_check_result(expected: CFTypeID, received: CFTypeID) -> Result<(), Error> {
    if expected == any_type_id_spec() || expected == received {
        Ok(())
    } else {
        Err(Error::UnexpectedType { expected, received })
    }
}

/// Checks a fetched value's runtime type against the attribute's declared
/// type; the "any" type accepts every value.
pub fn check_value_type(expected: CFTypeID, received: CFTypeID) -> (r: Result<(), Error>)
    ensures
        r == type_check_result(expected, received),
{
    if expected == any_type_id() || expected == received {
        Ok(())
    } else {
        Err(Error::UnexpectedType { expected, received })
    }
}

/// Outcome of an attribute fetch: the call's status first, then the type of
/// the value it returned (only looked at on success).
pub fn attribute_result(status: AXError, expected: CFTypeID, received: CFTypeID) -> (r: Result<
    (),
    Error,
>)
    ensures
        status != kAXErrorSuccess ==> r == Err::<(), Error>(Error::Ax(status)),
        status == kAXErrorSuccess ==> r == type_check_result(expected, received),
{
    match ax_status(status) {
        Err(e) => Err(e),
        Ok(()) => check_value_type(expected, received),
    }
}

/// Outcome of a settable query: the call's status, then the flag it wrote.
pub fn settable_result(status: AXError, flag: u8) -> (r: Result<bool, Error>)
    ensures
        status != kAXErrorSuccess ==> r == Err::<bool, Error>(Error::Ax(status)),
        status == kAXErrorSuccess ==> r == Ok::<bool, Error>(flag != 0),
{
    match ax_status(status) {
        Err(e) => Err(e),
        Ok(()) => Ok(flag != 0),
    }
}

/// A declared type other than "any" rejects a value of any other runtime
/// type, and the error records both identifiers.
pub proof fn lemma_type_mismatch_detected(expected: CFTypeID, received: CFTypeID)
    requires
        expected != received,
        expected != any_type_id_spec(),
        received != any_type_id_spec(),
    ensures
        type_check_result(expected, received) == Err::<(), Error>(
            Error::UnexpectedType { expected, received },
        ),
{
}

} // verus!
