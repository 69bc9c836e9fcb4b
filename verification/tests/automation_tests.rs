use gateway_core::automation::code_generator::{
    CodeGenerator, CodeGeneratorConfig, GenerationOptions, GeneratorError, ScriptTemplates,
};
use gateway_core::automation::executor::{
    outcome_from_report, read_item_reports,
    BatchExecutionResult, ExecutionOptions, ExecutionOutcome, ExecutorError, ItemExecutionResult,
    ItemOutcome, ScriptExecutor,
};
use gateway_core::automation::explorer::{
    CvExplorer, CvExplorerConfig, ExplorationOptions, ExplorerError,
};
use gateway_core::automation::orchestrator::{
    OrchestratorError, OrchestratorMetrics, OrchestratorStatus,
};
use gateway_core::automation::types::{
    AutomationPath, BoundingBox, Coordinates, ElementSchema, ElementType, ExecutionStats,
    ParameterType, ScriptType, DEFAULT_MODEL,
};


#[test]
fn test_generation_options_default() {
    let options = GenerationOptions::default();
    assert_eq!(options.script_type, ScriptType::Playwright);
    assert!(options.include_retry);
    assert_eq!(options.max_retries, 3);
}

#[test]
fn code_generator_test_config_default() {
    let config = CodeGeneratorConfig::default();
    assert_eq!(config.model, DEFAULT_MODEL);
    assert_eq!(config.max_tokens, 2048);
}

#[test]
fn test_script_templates() {
    let playwright = ScriptTemplates::playwright_data_entry();
    assert!(playwright.contains("chromium"));
    assert!(playwright.contains("processData"));

    let selenium = ScriptTemplates::selenium_data_entry();
    assert!(selenium.contains("webdriver"));
    assert!(selenium.contains("process_data"));

    let api = ScriptTemplates::rest_api();
    assert!(api.contains("requests"));
}


#[test]
fn test_execution_options_default() {
    let options = ExecutionOptions::default();
    assert_eq!(options.timeout_ms, 300000);
    assert!(!options.parallel);
    assert!(options.continue_on_error);
}

#[test]
fn test_batch_result_tracking() {
    let mut result = BatchExecutionResult::new();

    result.add_result(ItemExecutionResult {
        index: 0,
        success: true,
        output: None,
        error: None,
        duration_ms: 100,
    });

    result.add_result(ItemExecutionResult {
        index: 1,
        success: false,
        output: None,
        error: Some("Test error".to_string()),
        duration_ms: 50,
    });

    result.add_result(ItemExecutionResult {
        index: 2,
        success: true,
        output: None,
        error: None,
        duration_ms: 100,
    });

    result.finalize(250);

    assert_eq!(result.total_items, 3);
    assert_eq!(result.successful_items, 2);
    assert_eq!(result.failed_items, 1);
    assert!(!result.success); // At least one failure
    assert_eq!(result.stats.items_processed, 2);
    assert_eq!(result.stats.items_failed, 1);
    assert_eq!(result.stats.execution_tokens, 0); // No tokens for execution
}


#[test]
fn test_exploration_options_default() {
    let options = ExplorationOptions::default();
    assert_eq!(options.max_screenshots, 3);
    assert!(options.explore_beyond_viewport);
    assert!(options.detect_interactive);
}

#[test]
fn explorer_test_config_default() {
    let config = CvExplorerConfig::default();
    assert_eq!(config.model, DEFAULT_MODEL);
    assert_eq!(config.max_tokens, 4096);
}


#[test]
fn test_metrics() {
    let mut metrics = OrchestratorMetrics::new();

    metrics.record_request(true);
    metrics.record_request(true);
    metrics.record_request(false);

    let snapshot = metrics.snapshot();
    assert_eq!(snapshot.total_requests, 3);
    assert_eq!(snapshot.successful_requests, 2);
    assert_eq!(snapshot.failed_requests, 1);
}

#[test]
fn test_metrics_tokens() {
    let mut metrics = OrchestratorMetrics::new();

    metrics.record_tokens(3000, 1000, 100000);
    metrics.record_script_generated();

    let snapshot = metrics.snapshot();
    assert_eq!(snapshot.exploration_tokens, 3000);
    assert_eq!(snapshot.generation_tokens, 1000);
    assert_eq!(snapshot.tokens_saved, 100000);
    assert_eq!(snapshot.scripts_generated, 1);
}


#[test]
fn test_element_schema() {
    let element = ElementSchema::new("input-1", ElementType::Input, "Name field")
        .with_selector("#name-input")
        .with_coordinates(150, 300)
        .with_text("John Doe");

    assert_eq!(element.id, "input-1");
    assert_eq!(element.element_type, ElementType::Input);
    assert_eq!(element.selector, Some("#name-input".to_string()));
    assert_eq!(element.coordinates, Some(Coordinates { x: 150, y: 300 }));
}

#[test]
fn test_bounding_box_center() {
    let bbox = BoundingBox {
        x: 100,
        y: 200,
        width: 50,
        height: 30,
    };

    let center = bbox.center();
    assert_eq!(center.x, 125);
    assert_eq!(center.y, 215);
}

#[test]
fn test_automation_path_tokens() {
    assert_eq!(
        AutomationPath::DirectApi {
            api_type: "rest".to_string(),
            api_endpoint: None
        }
        .estimated_tokens(),
        500
    );

    assert_eq!(
        AutomationPath::ExploreAndGenerate {
            target_url: "https://example.com".to_string(),
            estimated_tokens: 6000,
        }
        .estimated_tokens(),
        6000
    );

    assert_eq!(
        AutomationPath::ReuseScript {
            script_id: "id".to_string(),
        }
        .estimated_tokens(),
        500
    );
}

#[test]
fn test_execution_stats_savings() {
    let stats = ExecutionStats {
        total_tokens: 6000,
        pure_cv_estimated_tokens: 4_100_000,
        ..Default::default()
    };

    let savings_percent =
        (stats.saved_tokens() as f64 / stats.pure_cv_estimated_tokens as f64) * 100.0;
    assert!(savings_percent > 99.0);
}

#[test]
fn test_error_messages() {
    assert_eq!(
        GeneratorError::InvalidSchema("x".to_string()).message(),
        "Invalid schema: x"
    );
    assert_eq!(ExecutorError::Timeout(250).message(), "Timeout after 250ms");
    assert_eq!(ExplorerError::Timeout.message(), "Timeout");
    let e = OrchestratorError::from(ExplorerError::BrowserNotConnected);
    assert_eq!(e.message(), "Exploration failed: Browser not connected");
    assert_eq!(OrchestratorError::LlmNotConfigured.message(), "LLM not configured");
}

#[test]
fn test_generator_builder_and_prompt() {
    assert!(matches!(
        CodeGenerator::<()>::builder().build(),
        Err(GeneratorError::GenerationFailed(_))
    ));
    let generator = CodeGenerator::builder()
        .llm_router(())
        .model("m")
        .max_tokens(7)
        .build()
        .unwrap();
    assert_eq!(generator.config().model, "m");
    assert_eq!(generator.config().max_tokens, 7);
    let mut options = GenerationOptions::default();
    options.include_logging = false;
    options.template = Some("T".to_string());
    let prompt = generator.build_generation_prompt("Fill", "{}", &options);
    assert_eq!(
        prompt,
        "Generate a Playwright (JavaScript/TypeScript) script for the following task:\n\n## Task\nFill\n\n## Page Schema\n{}\n\n## Requirements\n- Include retry logic with max 3 retries\n- Include comprehensive error handling\n- Operation timeout: 30000ms\n\n## Output\nProvide only the script code, no explanations.\n\n## Template\nT"
    );
}

#[test]
fn test_generator_code_handling() {
    let generator = CodeGenerator::new(());
    let answer = "Here:\n```python\nprint(1)\n```\nand ```js\nx()\n```";
    assert_eq!(generator.extract_code(answer, ScriptType::Playwright), "x()");
    assert_eq!(generator.extract_code(answer, ScriptType::Selenium), "print(1)");
    assert_eq!(generator.extract_code("```\nraw\n```", ScriptType::RestApi), "raw");
    assert_eq!(generator.extract_code("  plain  ", ScriptType::Native), "plain");
    let options = GenerationOptions::default();
    assert_eq!(
        generator.post_process_code("page.click()", &options),
        "// Auto-generated automation script\npage.click()"
    );
    assert_eq!(generator.post_process_code("const a = 1;", &options), "const a = 1;");
    let (ok, errors) = generator.validate_script("print(1)", ScriptType::Selenium);
    assert!(!ok);
    assert_eq!(errors, vec!["Script doesn't appear to use Selenium API".to_string()]);
    let (ok, errors) = generator.validate_script("fetch(url)", ScriptType::RestApi);
    assert!(ok && errors.is_empty());
    assert_eq!(generator.get_language(ScriptType::GraphQl), "python");
}

#[test]
fn test_prepare_script() {
    let generator = CodeGenerator::new(());
    let options = GenerationOptions::default();
    assert!(matches!(
        generator.prepare_script("t", "", 0, 0, &options),
        Err(GeneratorError::InvalidSchema(_))
    ));
    let prepared = generator
        .prepare_script("Fill rows", "https://a.b", 2, 1, &options)
        .unwrap();
    assert!(prepared.code.starts_with(
        "// Auto-generated automation script\n\n// Auto-generated Playwright script\n// Task: Fill rows"
    ));
    assert!(prepared.code.contains("Schema has 2 elements and 1 actions"));
    assert!(prepared.code.contains("await page.goto('https://a.b');"));
    assert_eq!(prepared.language, "javascript");
    assert!(prepared.validation_passed);
}

#[test]
fn test_explorer_parsing() {
    let explorer = CvExplorer::new((), ());
    assert_eq!(explorer.parse_element_type("BTN"), ElementType::Button);
    assert_eq!(explorer.parse_element_type("menu_item"), ElementType::MenuItem);
    assert_eq!(explorer.parse_element_type("whatever"), ElementType::Other);
    assert_eq!(explorer.parse_param_type("Integer"), ParameterType::Number);
    assert_eq!(explorer.parse_param_type("?"), ParameterType::String);
    assert_eq!(
        explorer.extract_json("x ```json\n {\"a\": 1} \n```\n y"),
        "{\"a\": 1}"
    );
    assert_eq!(explorer.extract_json("answer: {\"b\": [1]} done"), "{\"b\": [1]}");
    assert_eq!(explorer.extract_json("no json"), "no json");
    let options = ExplorationOptions::default();
    let prompt = explorer.build_analysis_prompt("https://x", &options);
    assert!(prompt.starts_with("Analyze this screenshot of: https://x\n\n"));
    assert!(prompt.ends_with("\nOutput valid JSON matching the PageSchema format."));
    assert!(matches!(
        CvExplorer::<(), ()>::builder().llm_router(()).build(),
        Err(ExplorerError::BrowserNotConnected)
    ));
    assert!(matches!(
        CvExplorer::<(), ()>::builder().screen_controller(()).build(),
        Err(ExplorerError::AnalysisFailed(_))
    ));
}

#[test]
fn test_wrap_script_with_data() {
    let executor: ScriptExecutor<()> = ScriptExecutor::new();
    let wrapped = executor.wrap_with_data_json(
        ScriptType::Playwright,
        "async function processData(data) { return data; }",
        "[1]",
    );
    assert!(wrapped.contains("const __DATA__ = [1];"));
    assert!(wrapped.contains("processData"));
    let wrapped = executor.wrap_with_data_json(ScriptType::Selenium, "def process_data(d): pass", "[]");
    assert!(wrapped.contains("__DATA__ = []"));
    assert!(wrapped.contains("import json"));
    let data = vec![serde_json::Value::Bool(true)];
    let wrapped = executor
        .wrap_script_with_data(ScriptType::Native, "echo", &data)
        .unwrap();
    assert_eq!(wrapped, "echo");
    let wrapped = executor
        .wrap_script_with_data(ScriptType::Puppeteer, "main()", &data)
        .unwrap();
    assert!(wrapped.contains("const __DATA__ = [true];"));
}

#[test]
fn test_record_execution_output() {
    let executor: ScriptExecutor<()> = ScriptExecutor::new();
    let mut batch = BatchExecutionResult::new();
    let outcome = ExecutionOutcome {
        success: true,
        item_results: Some(vec![
            ItemOutcome { success: true, error: None, output: serde_json::Value::Null },
            ItemOutcome {
                success: false,
                error: Some("bad".to_string()),
                output: serde_json::Value::Null,
            },
        ]),
        data: None,
        error_message: None,
        duration_ms: 90,
    };
    executor.record_execution_output(&outcome, 3, &mut batch);
    assert_eq!(batch.total_items, 2);
    assert_eq!(batch.successful_items, 1);
    assert_eq!(batch.failed_items, 1);
    assert!(!batch.success);
    assert_eq!(batch.results[1].error.as_deref(), Some("bad"));
    assert_eq!(batch.results[0].duration_ms, 30);

    let mut batch = BatchExecutionResult::new();
    let failed = ExecutionOutcome {
        success: false,
        item_results: None,
        data: None,
        error_message: None,
        duration_ms: 5,
    };
    executor.record_execution_output(&failed, 2, &mut batch);
    assert_eq!(batch.failed_items, 2);
    assert_eq!(batch.results[0].error.as_deref(), Some("Unknown error"));

    let mut batch = BatchExecutionResult::new();
    let plain = ExecutionOutcome {
        success: true,
        item_results: None,
        data: Some(serde_json::Value::Bool(false)),
        error_message: None,
        duration_ms: 10,
    };
    executor.record_execution_output(&plain, 4, &mut batch);
    assert_eq!(batch.successful_items, 4);
    assert!(batch.success);
    assert_eq!(batch.results[3].index, 3);
    assert_eq!(batch.results[3].duration_ms, 2);
    assert_eq!(batch.results[3].output, Some(serde_json::Value::Bool(false)));
}

#[test]
fn test_metrics_wrap_and_items() {
    let mut metrics = OrchestratorMetrics::new();
    metrics.items_processed = u64::MAX;
    metrics.record_items(2);
    metrics.record_script_reused();
    let snapshot = metrics.snapshot();
    assert_eq!(snapshot.items_processed, 1);
    assert_eq!(snapshot.scripts_reused, 1);
    let status = OrchestratorStatus::from_parts(true, false, 4, snapshot);
    assert!(!status.ready);
    assert_eq!(status.cached_scripts, 4);
}

#[test]
fn generate_builds_the_cached_script() {
    let generator = CodeGenerator::new(());
    let options = GenerationOptions::default();
    let schema = gateway_core::automation::types::PageSchema::new("https://a.b", "Page");
    let result = generator.generate("Fill Rows", &schema, options.clone()).unwrap();
    assert_eq!(result.tokens_used, 800);
    assert_eq!(result.script.language, "javascript");
    assert_eq!(result.script.schema_hash, schema.schema_hash);
    assert_eq!(
        result.script.task_signature,
        generator.generate_task_signature("fill rows", "https://a.b")
    );
    assert!(result.script.task_signature.starts_with("gen_"));
    assert!(result.script.code.contains("await page.goto('https://a.b');"));
    assert!(result.validation_passed);
    assert!(result.warnings.is_empty());
    let empty = gateway_core::automation::types::PageSchema::new("", "Page");
    match generator.generate("Fill Rows", &empty, options) {
        Err(GeneratorError::InvalidSchema(m)) => assert_eq!(m, "Schema has no URL"),
        other => panic!("unexpected {:?}", other.map(|g| g.tokens_used)),
    }
}

#[test]
fn item_reports_are_read_from_json_output() {
    let items = read_item_reports(
        r#"{"success": true, "results": [{"success": true}, {"error": "bad row"}, {"success": false}]}"#,
    )
    .unwrap();
    assert_eq!(items.len(), 3);
    assert!(items[0].success && items[0].error.is_none());
    assert!(!items[1].success);
    assert_eq!(items[1].error.as_deref(), Some("bad row"));
    assert_eq!(items[2].output["success"], false);
    assert!(read_item_reports("plain text").is_none());
    assert!(read_item_reports(r#"{"results": 5}"#).is_none());
    let o = outcome_from_report(true, Some(r#"{"results": []}"#), None, None, 40);
    assert_eq!(o.item_results.map(|v| v.len()), Some(0));
    let o = outcome_from_report(false, Some(r#"{"results": [{}]}"#), None, Some("boom".into()), 1);
    assert!(o.item_results.is_none());
    assert_eq!(o.error_message.as_deref(), Some("boom"));
}

#[test]
fn wrapped_data_is_the_serialised_data() {
    let executor: ScriptExecutor<()> = ScriptExecutor::new();
    let data: Vec<serde_json::Value> =
        vec![serde_json::from_str(r#"{"name":"a","n":1}"#).unwrap(), serde_json::Value::Null];
    let text = serde_json::to_string(&data).unwrap();
    let wrapped = executor.wrap_script_with_data(ScriptType::Playwright, "code", &data).unwrap();
    assert_eq!(wrapped, executor.wrap_with_data_json(ScriptType::Playwright, "code", &text));
    assert!(wrapped.contains(r#"const __DATA__ = [{"n":1,"name":"a"},null];"#)
        || wrapped.contains(r#"const __DATA__ = [{"name":"a","n":1},null];"#));
}

#[test]
fn element_builders_keep_other_fields() {
    let mut e = ElementSchema::new("input-1", ElementType::Input, "Name field").with_selector("#name-input");
    e.bounds = Some(BoundingBox { x: 1, y: 2, width: 3, height: 4 });
    e.xpath = Some("//input".to_string());
    e.is_visible = false;
    let e = e.with_coordinates(150, 300);
    assert_eq!(e.coordinates, Some(Coordinates { x: 150, y: 300 }));
    assert_eq!(e.selector.as_deref(), Some("#name-input"));
    assert_eq!(e.xpath.as_deref(), Some("//input"));
    assert!(!e.is_visible);
    assert_eq!(e.bounds.map(|b| b.width), Some(3));
}
