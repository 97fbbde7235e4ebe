//! Typed identifiers of the properties that can be read from a node.
use vstd::prelude::*;

verus! {

/// Declared type of an attribute's value.
#[derive(Debug, Clone, Copy, PartialEq, Eq, Structural)]
pub enum AttributeType {
    /// Any value is accepted; no type check is made.
    Any,
    /// An array of values of any type.
    Array,
    /// An array of elements.
    ElementArray,
    Boolean,
    /// Another element of the tree.
    Element,
    String,
}

/// An identifier of a property slot that declares the type of its values.
pub trait TAXAttribute {
    spec fn declared_type(&self) -> AttributeType;

    /// The declared type of the attribute's value.
    fn value_type(&self) -> (r: AttributeType)
        ensures
            r == self.declared_type(),
    ;
}

/// A named property slot of a node, tagged with the type its value must
/// have.
#[derive(Debug, Clone)]
pub struct AXAttribute {
    name: String,
    value_type: AttributeType,
}

impl AXAttribute {
    /// The wire name of the attribute.
    pub closed spec fn name_spec(&self) -> Seq<char> {
        self.name@
    }

    /// The declared type of the attribute's value.
    pub closed spec fn value_type_spec(&self) -> AttributeType {
        self.value_type
    }

    fn named(name: &str, value_type: AttributeType) -> (r: AXAttribute)
        ensures
            r.name_spec() == name@,
            r.value_type_spec() == value_type,
    {
        AXAttribute { name: name.to_owned(), value_type }
    }

    /// An attribute known only by its wire name; its values are not
    /// type-checked.
    pub fn new(name: &String) -> (r: AXAttribute)
        ensures
            r.name_spec() == name@,
            r.value_type_spec() == AttributeType::Any,
    {
        AXAttribute::named(name.as_str(), AttributeType::Any)
    }

    /// The wire name of the attribute.
    #[allow(non_snake_case)]
    pub fn as_CFString(&self) -> (r: &str)
        ensures
            r@ == self.name_spec(),
    {
        self.name.as_str()
    }


    /// `AXAllowedValues`, of type `Array`.
    pub fn allowed_values() -> (r: AXAttribute)
        ensures
            r.name_spec() == "AXAllowedValues"@,
            r.value_type_spec() == AttributeType::Array,
    {
        AXAttribute::named("AXAllowedValues", AttributeType::Array)
    }

    /// `AXChildren`, of type `ElementArray`.
    pub fn children() -> (r: AXAttribute)
        ensures
            r.name_spec() == "AXChildren"@,
            r.value_type_spec() == AttributeType::ElementArray,
    {
        AXAttribute::named("AXChildren", AttributeType::ElementArray)
    }

    /// `AXContents`, of type `Element`.
    pub fn contents() -> (r: AXAttribute)
        ensures
            r.name_spec() == "AXContents"@,
            r.value_type_spec() == AttributeType::Element,
    {
        AXAttribute::named("AXContents", AttributeType::Element)
    }

    /// `AXDescription`, of type `String`.
    pub fn description() -> (r: AXAttribute)
        ensures
            r.name_spec() == "AXDescription"@,
            r.value_type_spec() == AttributeType::String,
    {
        AXAttribute::named("AXDescription", AttributeType::String)
    }

    /// `AXElementBusy`, of type `Boolean`.
    pub fn element_busy() -> (r: AXAttribute)
        ensures
            r.name_spec() == "AXElementBusy"@,
            r.value_type_spec() == AttributeType::Boolean,
    {
        AXAttribute::named("AXElementBusy", AttributeType::Boolean)
    }

    /// `AXEnabled`, of type `Boolean`.
    pub fn enabled() -> (r: AXAttribute)
        ensures
            r.name_spec() == "AXEnabled"@,
            r.value_type_spec() == AttributeType::Boolean,
    {
        AXAttribute::named("AXEnabled", AttributeType::Boolean)
    }

    /// `AXFocused`, of type `Boolean`.
    pub fn focused() -> (r: AXAttribute)
        ensures
            r.name_spec() == "AXFocused"@,
            r.value_type_spec() == AttributeType::Boolean,
    {
        AXAttribute::named("AXFocused", AttributeType::Boolean)
    }

    /// `AXFocusedWindow`, of type `Element`.
    pub fn focused_window() -> (r: AXAttribute)
        ensures
            r.name_spec() == "AXFocusedWindow"@,
            r.value_type_spec() == AttributeType::Element,
    {
        AXAttribute::named("AXFocusedWindow", AttributeType::Element)
    }

    /// `AXFrontmost`, of type `Boolean`.
    pub fn frontmost() -> (r: AXAttribute)
        ensures
            r.name_spec() == "AXFrontmost"@,
            r.value_type_spec() == AttributeType::Boolean,
    {
        AXAttribute::named("AXFrontmost", AttributeType::Boolean)
    }

    /// `AXHelp`, of type `String`.
    pub fn help() -> (r: AXAttribute)
        ensures
            r.name_spec() == "AXHelp"@,
            r.value_type_spec() == AttributeType::String,
    {
        AXAttribute::named("AXHelp", AttributeType::String)
    }

    /// `AXIdentifier`, of type `String`.
    pub fn identifier() -> (r: AXAttribute)
        ensures
            r.name_spec() == "AXIdentifier"@,
            r.value_type_spec() == AttributeType::String,
    {
        AXAttribute::named("AXIdentifier", AttributeType::String)
    }

    /// `AXLabelValue`, of type `String`.
    pub fn label_value() -> (r: AXAttribute)
        ensures
            r.name_spec() == "AXLabelValue"@,
            r.value_type_spec() == AttributeType::String,
    {
        AXAttribute::named("AXLabelValue", AttributeType::String)
    }

    /// `AXMain`, of type `Boolean`.
    pub fn main() -> (r: AXAttribute)
        ensures
            r.name_spec() == "AXMain"@,
            r.value_type_spec() == AttributeType::Boolean,
    {
        AXAttribute::named("AXMain", AttributeType::Boolean)
    }

    /// `AXMainWindow`, of type `Element`.
    pub fn main_window() -> (r: AXAttribute)
        ensures
            r.name_spec() == "AXMainWindow"@,
            r.value_type_spec() == AttributeType::Element,
    {
        AXAttribute::named("AXMainWindow", AttributeType::Element)
    }

    /// `AXMaxValue`, of type `Any`.
    pub fn max_value() -> (r: AXAttribute)
        ensures
            r.name_spec() == "AXMaxValue"@,
            r.value_type_spec() == AttributeType::Any,
    {
        AXAttribute::named("AXMaxValue", AttributeType::Any)
    }

    /// `AXMinValue`, of type `Any`.
    pub fn min_value() -> (r: AXAttribute)
        ensures
            r.name_spec() == "AXMinValue"@,
            r.value_type_spec() == AttributeType::Any,
    {
        AXAttribute::named("AXMinValue", AttributeType::Any)
    }

    /// `AXMinimized`, of type `Boolean`.
    pub fn minimized() -> (r: AXAttribute)
        ensures
            r.name_spec() == "AXMinimized"@,
            r.value_type_spec() == AttributeType::Boolean,
    {
        AXAttribute::named("AXMinimized", AttributeType::Boolean)
    }

    /// `AXParent`, of type `Element`.
    pub fn parent() -> (r: AXAttribute)
        ensures
            r.name_spec() == "AXParent"@,
            r.value_type_spec() == AttributeType::Element,
    {
        AXAttribute::named("AXParent", AttributeType::Element)
    }

    /// `AXPlaceholderValue`, of type `String`.
    pub fn placeholder_value() -> (r: AXAttribute)
        ensures
            r.name_spec() == "AXPlaceholderValue"@,
            r.value_type_spec() == AttributeType::String,
    {
        AXAttribute::named("AXPlaceholderValue", AttributeType::String)
    }

    /// `AXRole`, of type `String`.
    pub fn role() -> (r: AXAttribute)
        ensures
            r.name_spec() == "AXRole"@,
            r.value_type_spec() == AttributeType::String,
    {
        AXAttribute::named("AXRole", AttributeType::String)
    }

    /// `AXRoleDescription`, of type `String`.
    pub fn role_description() -> (r: AXAttribute)
        ensures
            r.name_spec() == "AXRoleDescription"@,
            r.value_type_spec() == AttributeType::String,
    {
        AXAttribute::named("AXRoleDescription", AttributeType::String)
    }

    /// `AXSelectedChildren`, of type `ElementArray`.
    pub fn selected_children() -> (r: AXAttribute)
        ensures
            r.name_spec() == "AXSelectedChildren"@,
            r.value_type_spec() == AttributeType::ElementArray,
    {
        AXAttribute::named("AXSelectedChildren", AttributeType::ElementArray)
    }

    /// `AXSubrole`, of type `String`.
    pub fn subrole() -> (r: AXAttribute)
        ensures
            r.name_spec() == "AXSubrole"@,
            r.value_type_spec() == AttributeType::String,
    {
        AXAttribute::named("AXSubrole", AttributeType::String)
    }

    /// `AXTitle`, of type `String`.
    pub fn title() -> (r: AXAttribute)
        ensures
            r.name_spec() == "AXTitle"@,
            r.value_type_spec() == AttributeType::String,
    {
        AXAttribute::named("AXTitle", AttributeType::String)
    }

    /// `AXTitleUIElement`, of type `Element`.
    pub fn title_ui_element() -> (r: AXAttribute)
        ensures
            r.name_spec() == "AXTitleUIElement"@,
            r.value_type_spec() == AttributeType::Element,
    {
        AXAttribute::named("AXTitleUIElement", AttributeType::Element)
    }

    /// `AXTopLevelUIElement`, of type `Element`.
    pub fn top_level_ui_element() -> (r: AXAttribute)
        ensures
            r.name_spec() == "AXTopLevelUIElement"@,
            r.value_type_spec() == AttributeType::Element,
    {
        AXAttribute::named("AXTopLevelUIElement", AttributeType::Element)
    }

    /// `AXValue`, of type `Any`.
    pub fn value() -> (r: AXAttribute)
        ensures
            r.name_spec() == "AXValue"@,
            r.value_type_spec() == AttributeType::Any,
    {
        AXAttribute::named("AXValue", AttributeType::Any)
    }

    /// `AXValueDescription`, of type `String`.
    pub fn value_description() -> (r: AXAttribute)
        ensures
            r.name_spec() == "AXValueDescription"@,
            r.value_type_spec() == AttributeType::String,
    {
        AXAttribute::named("AXValueDescription", AttributeType::String)
    }

    /// `AXValueIncrement`, of type `Any`.
    pub fn value_increment() -> (r: AXAttribute)
        ensures
            r.name_spec() == "AXValueIncrement"@,
            r.value_type_spec() == AttributeType::Any,
    {
        AXAttribute::named("AXValueIncrement", AttributeType::Any)
    }

    /// `AXVisibleChildren`, of type `ElementArray`.
    pub fn visible_children() -> (r: AXAttribute)
        ensures
            r.name_spec() == "AXVisibleChildren"@,
            r.value_type_spec() == AttributeType::ElementArray,
    {
        AXAttribute::named("AXVisibleChildren", AttributeType::ElementArray)
    }

    /// `AXWindow`, of type `Element`.
    pub fn window() -> (r: AXAttribute)
        ensures
            r.name_spec() == "AXWindow"@,
            r.value_type_spec() == AttributeType::Element,
    {
        AXAttribute::named("AXWindow", AttributeType::Element)
    }

    /// `AXWindows`, of type `ElementArray`.
    pub fn windows() -> (r: AXAttribute)
        ensures
            r.name_spec() == "AXWindows"@,
            r.value_type_spec() == AttributeType::ElementArray,
    {
        AXAttribute::named("AXWindows", AttributeType::ElementArray)
    }
}

impl TAXAttribute for AXAttribute {
    open spec fn declared_type(&self) -> AttributeType {
        self.value_type_spec()
    }

    fn value_type(&self) -> (r: AttributeType) {
        self.value_type
    }
}

} // verus!
