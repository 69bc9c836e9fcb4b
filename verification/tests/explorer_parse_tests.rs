use gateway_core::automation::explorer::CvExplorer;
use gateway_core::automation::types::{
    ActionParameter, ActionSchema, BoundingBox, Coordinates, ElementType, ParameterType,
};
use serde_json::Value;

fn parse(text: &str) -> Value {
    serde_json::from_str(text).unwrap()
}

#[test]
fn explorer_parse_element_reads_every_field() {
    let explorer = CvExplorer::new((), ());
    let v = parse(
        r##"{"id": "save", "element_type": "BTN", "description": "Save button",
            "coordinates": {"x": 10, "y": 20}, "selector": "#save", "text": "Save",
            "is_visible": false, "bounds": {"x": 1, "y": 2, "width": 30, "height": 4}}"##,
    );
    let e = explorer.parse_element(&v).unwrap();
    assert_eq!(e.id, "save");
    assert_eq!(e.element_type, ElementType::Button);
    assert_eq!(e.description, "Save button");
    assert_eq!(e.coordinates.map(|c| (c.x, c.y)), Some((10, 20)));
    assert_eq!(e.selector.as_deref(), Some("#save"));
    assert_eq!(e.text.as_deref(), Some("Save"));
    assert!(!e.is_visible);
    let b: BoundingBox = e.bounds.unwrap();
    assert_eq!((b.x, b.y, b.width, b.height), (1, 2, 30, 4));
}

#[test]
fn explorer_parse_element_defaults_and_missing_id() {
    let explorer = CvExplorer::new((), ());
    let e = explorer.parse_element(&parse(r#"{"id": "x", "coordinates": {"x": "no"}}"#)).unwrap();
    assert_eq!(e.element_type, ElementType::Other);
    assert_eq!(e.description, "");
    assert!(e.is_visible);
    let c: Coordinates = e.coordinates.unwrap();
    assert_eq!((c.x, c.y), (0, 0));
    assert!(e.bounds.is_none());
    assert!(explorer.parse_element(&parse(r#"{"element_type": "button"}"#)).is_none());
    assert!(explorer.parse_element(&parse(r#"{"id": 7}"#)).is_none());
}

#[test]
fn explorer_parse_action_with_parameters() {
    let explorer = CvExplorer::new((), ());
    let v = parse(
        r#"{"name": "enter_text", "target": "field", "description": "Type",
            "parameters": [{"name": "value", "type": "TEXT", "required": true, "default": "a"},
                           {"type": "number"},
                           {"name": "count", "type": "int"}],
            "expected_outcome": "Text entered"}"#,
    );
    let a: ActionSchema = explorer.parse_action(&v).unwrap();
    assert_eq!(a.name, "enter_text");
    assert_eq!(a.target_element_id, "field");
    assert_eq!(a.description, "Type");
    assert_eq!(a.parameters.len(), 2);
    let p: &ActionParameter = &a.parameters[0];
    assert_eq!(p.name, "value");
    assert_eq!(p.param_type, ParameterType::String);
    assert!(p.required);
    assert_eq!(p.default_value, Some(Value::from("a")));
    assert_eq!(a.parameters[1].param_type, ParameterType::Number);
    assert!(!a.parameters[1].required);
    assert_eq!(a.expected_outcome.as_deref(), Some("Text entered"));
    let b = explorer.parse_action(&parse(r#"{"name": "go", "target_element_id": "t", "target": "u"}"#)).unwrap();
    assert_eq!(b.target_element_id, "t");
    assert!(b.parameters.is_empty());
    assert!(explorer.parse_action(&parse(r#"{"target": "u"}"#)).is_none());
}

#[test]
fn action_schema_builder() {
    let a = ActionSchema::new("click", "btn", "Click it").with_parameter(ActionParameter {
        name: "x".to_string(),
        param_type: ParameterType::Coordinates,
        description: String::new(),
        required: false,
        default_value: None,
    });
    assert_eq!(a.name, "click");
    assert_eq!(a.parameters.len(), 1);
    assert!(a.preconditions.is_empty());
}
