//! Names of the commands a node can perform.
use vstd::prelude::*;

verus! {

pub const kAXPressAction: &'static str = "AXPress";
pub const kAXIncrementAction: &'static str = "AXIncrement";
pub const kAXDecrementAction: &'static str = "AXDecrement";
pub const kAXConfirmAction: &'static str = "AXConfirm";
pub const kAXShowAlternateUIAction: &'static str = "AXShowAlternateUI";
pub const kAXShowDefaultUIAction: &'static str = "AXShowDefaultUI";
pub const kAXRaiseAction: &'static str = "AXRaise";
pub const kAXShowMenuAction: &'static str = "AXShowMenu";
pub const kAXPickAction: &'static str = "AXPick";

} // verus!
