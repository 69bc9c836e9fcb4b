use gateway_core::automation::types::{
    ActionSchema, ElementSchema, ElementType, GeneratedScript, PageSchema, ScriptType,
};
use gateway_core::context::observer::NoOpAgentObserver;

#[test]
fn test_page_schema_creation() {
    let schema = PageSchema::new("https://example.com", "Example Page")
        .with_element(
            ElementSchema::new("btn-1", ElementType::Button, "Submit button")
                .with_coordinates(100, 200),
        )
        .with_action(ActionSchema::new(
            "click_submit",
            "btn-1",
            "Click the submit button",
        ));

    assert_eq!(schema.url, "https://example.com");
    assert_eq!(schema.elements.len(), 1);
    assert_eq!(schema.actions.len(), 1);
    assert!(!schema.schema_hash.is_empty());
}

#[test]
fn test_generated_script() {
    let script = GeneratedScript::new(
        ScriptType::Playwright,
        "const page = await browser.newPage();",
        "javascript",
        "abc123",
        "fill-form-task",
    );

    assert_eq!(script.script_type, ScriptType::Playwright);
    assert!(!script.id.is_empty());
    assert_eq!(script.task_signature, "fill-form-task");
}

#[test]
fn page_schema_lookups() {
    let schema = PageSchema::new("u", "t")
        .with_element(ElementSchema::new("a", ElementType::Button, "first"))
        .with_element(ElementSchema::new("b", ElementType::Input, "second"))
        .with_element(ElementSchema::new("a", ElementType::Button, "third"));
    assert_eq!(schema.find_element("a").unwrap().description, "first");
    assert!(schema.find_element("z").is_none());
    let buttons: Vec<&str> = schema
        .find_elements_by_type(ElementType::Button)
        .iter()
        .map(|e| e.description.as_str())
        .collect();
    assert_eq!(buttons, vec!["first", "third"]);
    assert!(schema.find_elements_by_type(ElementType::Cell).is_empty());
    let same = PageSchema::new("u", "t");
    assert_eq!(same.schema_hash, schema.schema_hash);
    assert_eq!(GeneratedScript::new(ScriptType::Selenium, "c", "python", "h", "s").id.len(), 36);
    let _observer = NoOpAgentObserver::default();
}

#[test]
fn test_script_asset_recording() {
    let script = GeneratedScript::new(ScriptType::Playwright, "code", "javascript", "hash", "sig");

    let mut asset = gateway_core::automation::types::ScriptAsset::from_script(&script);
    assert_eq!(asset.use_count, 0);
    assert_eq!(asset.success_rate(), gateway_core::automation::types::Ratio::new(1, 1));

    asset.record_usage(true);
    asset.record_usage(true);
    asset.record_usage(false);

    assert_eq!(asset.use_count, 3);
    assert_eq!(asset.total_executions, 3);
    assert_eq!(asset.successful_executions, 2);
    let rate = asset.success_rate();
    assert!((rate.numerator as f64 / rate.denominator as f64 - 0.666).abs() < 0.01);
    assert_eq!(asset.task_signature, "sig");
    assert_eq!(asset.code, "code");
    assert!(asset.last_used_at_millis >= asset.created_at_millis);
}

#[test]
fn page_schema_hash_depends_on_url_and_title() {
    let a = PageSchema::new("https://example.com", "Example Page");
    let b = PageSchema::new("https://example.com", "Example Page");
    let c = PageSchema::new("https://example.com", "Other Page");
    assert_eq!(a.schema_hash, b.schema_hash);
    assert_ne!(a.schema_hash, c.schema_hash);
    assert!(a.schema_hash.chars().all(|ch| ch.is_ascii_hexdigit()));
}
