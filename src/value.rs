//! Kinds of the geometry and range values that attributes may hold.
use vstd::prelude::*;

use core_foundation_sys::base::CFRange;

use crate::error::Error;

verus! {

/// Kind tag of a wrapped geometry or range value.
pub type AXValueType = u32;

pub const kAXValueTypeIllegal: AXValueType = 0;
pub const kAXValueTypeCGPoint: AXValueType = 1;
pub const kAXValueTypeCGSize: AXValueType = 2;
pub const kAXValueTypeCGRect: AXValueType = 3;
pub const kAXValueTypeCFRange: AXValueType = 4;
pub const kAXValueTypeAXError: AXValueType = 5;

/// A plain value type that can be wrapped in a value of kind `TYPE`.
pub trait AXValueKind {
    const TYPE: AXValueType;
}

#[verifier::external_type_specification]
#[verifier::external_body]
pub struct ExCFRange(CFRange);

impl AXValueKind for CFRange {
    const TYPE: AXValueType = kAXValueTypeCFRange;
}

/// Display name of a value kind.
pub open spec fn value_type_name_spec(kind: AXValueType) -> Seq<char> {
    if kind == kAXValueTypeCGPoint {
        "CGPoint"@
    } else if kind == kAXValueTypeCGSize {
        "CGSize"@
    } else if kind == kAXValueTypeCGRect {
        "CGRect"@
    } else if kind == kAXValueTypeCFRange {
        "CFRange"@
    } else if kind == kAXValueTypeAXError {
        "AXError"@
    } else if kind == kAXValueTypeIllegal {
        "Illegal"@
    } else {
        "<unknown>"@
    }
}

/// The display name of a value kind; unknown kinds are named `<unknown>`.
pub fn value_type_name(kind: AXValueType) -> (r: &'static str)
    ensures
        r@ == value_type_name_spec(kind),
{
    if kind == kAXValueTypeCGPoint {
        "CGPoint"
    } else if kind == kAXValueTypeCGSize {
        "CGSize"
    } else if kind == kAXValueTypeCGRect {
        "CGRect"
    } else if kind == kAXValueTypeCFRange {
        "CFRange"
    } else if kind == kAXValueTypeAXError {
        "AXError"
    } else if kind == kAXValueTypeIllegal {
        "Illegal"
    } else {
        "<unknown>"
    }
}

/// Outcome of reading a wrapped value as kind `expected`: the read succeeds
/// when the foreign call accepted the kind; otherwise the error records the
/// kind the value actually holds.
pub fn value_read_result(expected: AXValueType, accepted: bool, received: AXValueType) -> (r:
    Result<(), Error>)
    ensures
        accepted ==> r == Ok::<(), Error>(()),
        !accepted ==> r == Err::<(), Error>(Error::UnexpectedValueType { expected, received }),
{
    if accepted {
        Ok(())
    } else {
        Err(Error::UnexpectedValueType { expected, received })
    }
}

} // verus!
