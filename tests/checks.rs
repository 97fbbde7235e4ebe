use accessibility::error::{
    attribute_result, ax_status, check_value_type, settable_result, kAXErrorAPIDisabled,
    kAXErrorAttributeUnsupported, kAXErrorInvalidUIElement, kAXErrorSuccess,
};
use accessibility::value::{
    value_read_result, kAXValueTypeAXError, kAXValueTypeCFRange, kAXValueTypeCGPoint,
    kAXValueTypeCGRect, kAXValueTypeCGSize, kAXValueTypeIllegal,
};
use accessibility::action::{kAXPickAction, kAXPressAction, kAXRaiseAction};
use accessibility::{
    value_type_name, AXAttribute, AXUIElement, AXValueKind, AttributeType, Error, TAXAttribute,
};

#[test]
fn success_status_is_ok() {
    assert_eq!(ax_status(kAXErrorSuccess), Ok(()));
}

#[test]
fn failure_status_is_kept_verbatim() {
    assert_eq!(ax_status(kAXErrorInvalidUIElement), Err(Error::Ax(-25202)));
    assert_eq!(ax_status(7), Err(Error::Ax(7)));
}

#[test]
fn type_mismatch_records_both_types() {
    assert_eq!(
        check_value_type(7, 19),
        Err(Error::UnexpectedType { expected: 7, received: 19 })
    );
}

#[test]
fn matching_type_accepted() {
    assert_eq!(check_value_type(19, 19), Ok(()));
}

#[test]
fn any_type_accepts_everything() {
    assert_eq!(check_value_type(0, 19), Ok(()));
    assert_eq!(check_value_type(0, 0), Ok(()));
}

#[test]
fn declared_type_rejects_untyped_value() {
    assert_eq!(
        check_value_type(19, 0),
        Err(Error::UnexpectedType { expected: 19, received: 0 })
    );
}

#[test]
fn attribute_fetch_status_first() {
    assert_eq!(
        attribute_result(kAXErrorAttributeUnsupported, 7, 19),
        Err(Error::Ax(kAXErrorAttributeUnsupported))
    );
    assert_eq!(
        attribute_result(kAXErrorSuccess, 7, 19),
        Err(Error::UnexpectedType { expected: 7, received: 19 })
    );
    assert_eq!(attribute_result(kAXErrorSuccess, 7, 7), Ok(()));
    assert_eq!(attribute_result(kAXErrorSuccess, 0, 7), Ok(()));
}

#[test]
fn settable_query() {
    assert_eq!(settable_result(kAXErrorSuccess, 1), Ok(true));
    assert_eq!(settable_result(kAXErrorSuccess, 0), Ok(false));
    assert_eq!(settable_result(kAXErrorSuccess, 255), Ok(true));
    assert_eq!(settable_result(kAXErrorAPIDisabled, 1), Err(Error::Ax(-25211)));
}

#[test]
fn value_kind_names() {
    assert_eq!(value_type_name(kAXValueTypeCGPoint), "CGPoint");
    assert_eq!(value_type_name(kAXValueTypeCGSize), "CGSize");
    assert_eq!(value_type_name(kAXValueTypeCGRect), "CGRect");
    assert_eq!(value_type_name(kAXValueTypeCFRange), "CFRange");
    assert_eq!(value_type_name(kAXValueTypeAXError), "AXError");
    assert_eq!(value_type_name(kAXValueTypeIllegal), "Illegal");
    assert_eq!(value_type_name(42), "<unknown>");
}

#[test]
fn value_read_outcome() {
    assert_eq!(value_read_result(kAXValueTypeCGPoint, true, kAXValueTypeCGPoint), Ok(()));
    assert_eq!(
        value_read_result(kAXValueTypeCGPoint, false, kAXValueTypeCGRect),
        Err(Error::UnexpectedValueType { expected: 1, received: 3 })
    );
}

#[test]
fn range_value_kind() {
    assert_eq!(<core_foundation_sys::base::CFRange as AXValueKind>::TYPE, 4);
}

#[test]
fn registry_attributes() {
    let children = AXAttribute::children();
    assert_eq!(children.as_CFString(), "AXChildren");
    assert_eq!(children.value_type(), AttributeType::ElementArray);
    assert_eq!(AXAttribute::role().as_CFString(), "AXRole");
    assert_eq!(AXAttribute::role().value_type(), AttributeType::String);
    assert_eq!(AXAttribute::focused_window().value_type(), AttributeType::Element);
    assert_eq!(AXAttribute::enabled().value_type(), AttributeType::Boolean);
    assert_eq!(AXAttribute::value().value_type(), AttributeType::Any);
    assert_eq!(AXAttribute::allowed_values().value_type(), AttributeType::Array);
    assert_eq!(AXAttribute::top_level_ui_element().as_CFString(), "AXTopLevelUIElement");
}

#[test]
fn adhoc_attribute_is_untyped() {
    let custom = AXAttribute::new(&"AXCustomThing".to_string());
    assert_eq!(custom.as_CFString(), "AXCustomThing");
    assert_eq!(custom.value_type(), AttributeType::Any);
}

#[test]
fn action_names() {
    assert_eq!(kAXPressAction, "AXPress");
    assert_eq!(kAXRaiseAction, "AXRaise");
    assert_eq!(kAXPickAction, "AXPick");
}

#[test]
fn element_identity() {
    let a = AXUIElement::from_id(0x7f00_1234);
    assert_eq!(a.id(), 0x7f00_1234);
    assert_eq!(a, AXUIElement::from_id(0x7f00_1234));
    assert_ne!(a, AXUIElement::from_id(0x7f00_1235));
}
