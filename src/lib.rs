//! Verified core of a binding to the platform accessibility API: typed
//! attribute identifiers, foreign status codes, a resumable depth-first tree
//! walk and a polling element finder.
//!
//! Every foreign call (enumerating children, reading the clock, sleeping,
//! fetching attribute values) is performed by the caller, which hands the
//! outcome back to the state machines defined here.
pub mod action;
pub mod attribute;
pub mod element;
pub mod error;
pub mod finder;
pub mod value;
pub mod walker;

pub use attribute::{AXAttribute, AttributeType, TAXAttribute};
pub use element::AXUIElement;
pub use error::{AXError, CFTypeID, Error};
pub use finder::{poll_delay, ElementFinder, FindStep};
pub use value::{value_type_name, AXValueKind, AXValueType};
pub use walker::{TreeVisitor, TreeWalk, TreeWalker, TreeWalkerFlow, WalkEvent, WalkStep};

