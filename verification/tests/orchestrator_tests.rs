use gateway_core::automation::executor::{BatchExecutionResult, ItemExecutionResult};
use gateway_core::automation::orchestrator::{
    cached_script_result, direct_api_result, explore_and_generate_result,
    explore_and_generate_stats, human_assistance_result, pure_cv_result, record_cached_script,
    record_explore_and_generate, record_execution, should_save_script, path_handler, OrchestratorConfig,
    OrchestratorError, OrchestratorMetrics, PathHandler,
};
use gateway_core::automation::types::ExecutionStats;
use gateway_core::automation::types::{AutomationPath, AutomationRequest, AutomationResult};
use serde_json::Value;

fn item(index: usize, success: bool) -> ItemExecutionResult {
    ItemExecutionResult {
        index,
        success,
        output: None,
        error: if success { None } else { Some("boom".to_string()) },
        duration_ms: 5,
    }
}

fn batch(results: &[bool]) -> BatchExecutionResult {
    let mut b = BatchExecutionResult::new();
    for (i, s) in results.iter().enumerate() {
        b.add_result(item(i, *s));
    }
    b.finalize(40);
    b
}

#[test]
fn test_automation_request() {
    let mut alice = serde_json::Map::new();
    alice.insert("name".to_string(), Value::from("Alice"));
    let mut bob = serde_json::Map::new();
    bob.insert("name".to_string(), Value::from("Bob"));
    let request = AutomationRequest::new("Fill Google Sheets with data")
        .with_url("https://sheets.google.com")
        .with_data(vec![Value::Object(alice), Value::Object(bob)]);

    assert_eq!(request.task, "Fill Google Sheets with data");
    assert_eq!(request.data_volume(), 2);
}

#[test]
fn orchestrator_explore_and_generate_outcome() {
    let b = batch(&[true, false, true]);
    let stats = explore_and_generate_stats(3500, 2000, &b, 3);
    assert_eq!(stats.total_tokens, 5500);
    assert_eq!(stats.items_processed, 2);
    assert_eq!(stats.items_failed, 1);
    assert_eq!(stats.duration_ms, 40);
    assert_eq!(stats.pure_cv_estimated_tokens, 30000);
    assert_eq!(stats.saved_tokens(), 24500);
    let config = OrchestratorConfig::default();
    assert!(!should_save_script(&config, b.success));
    let r = explore_and_generate_result("req", "https://x", b.success, b.failed_items, 3, stats, None);
    assert!(!r.success);
    assert_eq!(r.error.as_deref(), Some("1 of 3 items failed"));
    assert!(matches!(r.path_used, AutomationPath::ExploreAndGenerate { estimated_tokens: 5500, .. }));
    let ok = batch(&[true]);
    assert!(should_save_script(&config, ok.success));
    let r = explore_and_generate_result("req", "u", true, 0, 1, stats, Some("s1".to_string()));
    assert!(r.success && r.error.is_none());
    assert_eq!(r.script_id.as_deref(), Some("s1"));
}

#[test]
fn orchestrator_other_paths() {
    let b = batch(&[true, true]);
    let r = cached_script_result("req", "script-9", &b, 2);
    assert!(r.success);
    assert!(r.stats.script_reused);
    assert_eq!(r.stats.pure_cv_estimated_tokens, 20000);
    assert_eq!(r.script_id.as_deref(), Some("script-9"));
    let r: AutomationResult = direct_api_result("req", "rest", 4);
    assert!(!r.success);
    assert_eq!(r.error.as_deref(), Some("Direct API execution not yet implemented"));
    assert_eq!(r.stats.pure_cv_estimated_tokens, 40000);
    let r = pure_cv_result("req", 10, 3);
    assert!(matches!(r.path_used, AutomationPath::PureComputerVision { max_items: 10, estimated_tokens: 45000 }));
    let r = human_assistance_result("req", "captcha");
    assert_eq!(r.error.as_deref(), Some("Requires human assistance: captcha"));
    let c = OrchestratorConfig::default();
    assert_eq!(c.cv_threshold, 10);
    assert_eq!(f64::from_bits(c.min_reuse_success_rate_bits), 0.8);
}

#[test]
fn automation_result_builders() {
    let r = AutomationResult::success("id", AutomationPath::ReuseScript { script_id: "s".to_string() })
        .with_output(Value::from(1))
        .with_script_id("s");
    assert!(r.success);
    assert_eq!(r.output, Some(Value::from(1)));
    let f = AutomationResult::failure("id", AutomationPath::RequiresHumanAssistance { reason: "r".to_string() }, "bad");
    assert_eq!(f.error.as_deref(), Some("bad"));
    let req = AutomationRequest::new("t").with_session("sess");
    assert_eq!(req.session_id.as_deref(), Some("sess"));
    assert_eq!(req.timeout_ms, 300000);
}

#[test]
fn test_config_default() {
    let config = OrchestratorConfig::default();
    assert_eq!(config.cv_threshold, 10);
    assert_eq!(f64::from_bits(config.min_reuse_success_rate_bits), 0.8);
    assert!(config.save_scripts);
}

#[test]
fn run_metrics_are_recorded_only_when_enabled() {
    let mut stats = ExecutionStats::default();
    stats.exploration_tokens = 3000;
    stats.generation_tokens = 800;
    stats.total_tokens = 3800;
    stats.pure_cv_estimated_tokens = 50000;
    let on = OrchestratorConfig::default();
    let mut m = OrchestratorMetrics::new();
    record_explore_and_generate(&on, &mut m, &stats);
    let s = m.snapshot();
    assert_eq!(s.scripts_generated, 1);
    assert_eq!(s.exploration_tokens, 3000);
    assert_eq!(s.generation_tokens, 800);
    assert_eq!(s.tokens_saved, 46200);
    record_cached_script(&on, &mut m, 3);
    let s = m.snapshot();
    assert_eq!(s.scripts_reused, 1);
    assert_eq!(s.tokens_saved, 76200);
    let off = OrchestratorConfig { enable_metrics: false, ..OrchestratorConfig::default() };
    let mut quiet = OrchestratorMetrics::new();
    record_explore_and_generate(&off, &mut quiet, &stats);
    record_cached_script(&off, &mut quiet, 3);
    assert_eq!(quiet.snapshot(), OrchestratorMetrics::new().snapshot());
}

#[test]
fn execute_dispatches_each_path_to_its_handler() {
    let h = path_handler(&AutomationPath::ReuseScript { script_id: "s-1".to_string() });
    assert!(matches!(h, PathHandler::CachedScript { ref script_id } if script_id == "s-1"));
    let h = path_handler(&AutomationPath::DirectApi {
        api_type: "rest".to_string(),
        api_endpoint: None,
    });
    assert!(matches!(h, PathHandler::DirectApi { ref api_type } if api_type == "rest"));
    let h = path_handler(&AutomationPath::PureComputerVision { max_items: 7, estimated_tokens: 1 });
    assert!(matches!(h, PathHandler::PureVision { max_items: 7 }));
    let h = path_handler(&AutomationPath::ExploreAndGenerate {
        target_url: "https://x.test".to_string(),
        estimated_tokens: 2,
    });
    assert!(matches!(h, PathHandler::ExploreAndGenerate { ref target_url } if target_url == "https://x.test"));
    let h = path_handler(&AutomationPath::HybridApproach {
        explore_phase_tokens: 1,
        execute_phase_tokens: 2,
    });
    assert!(matches!(h, PathHandler::Hybrid));
    let h = path_handler(&AutomationPath::RequiresHumanAssistance { reason: "captcha".to_string() });
    assert!(matches!(h, PathHandler::HumanAssistance { ref reason } if reason == "captcha"));
}

#[test]
fn execute_records_request_and_items() {
    let mut m = OrchestratorMetrics::new();
    let ok = AutomationResult::success("r1", AutomationPath::HybridApproach {
        explore_phase_tokens: 0,
        execute_phase_tokens: 0,
    });
    record_execution(&mut m, true, &Ok(ok), 12);
    let failed: Result<AutomationResult, OrchestratorError> =
        Err(OrchestratorError::IntentError("no".to_string()));
    record_execution(&mut m, true, &failed, 3);
    let s = m.snapshot();
    assert_eq!(s.total_requests, 2);
    assert_eq!(s.successful_requests, 1);
    assert_eq!(s.failed_requests, 1);
    assert_eq!(s.items_processed, 15);
    assert_eq!(s.total_requests, s.successful_requests + s.failed_requests);
    record_execution(&mut m, false, &failed, 100);
    assert_eq!(m.snapshot(), s);
}

#[test]
fn counters_hold_the_sums_recorded() {
    let mut m = OrchestratorMetrics::new();
    m.record_tokens(10, 20, 30);
    m.record_tokens(1, 2, 3);
    m.record_items(4);
    m.record_items(u64::MAX);
    m.record_script_generated();
    m.record_script_reused();
    m.record_script_reused();
    let s = m.snapshot();
    assert_eq!(s.exploration_tokens, 11);
    assert_eq!(s.generation_tokens, 22);
    assert_eq!(s.tokens_saved, 33);
    assert_eq!(s.items_processed, 3);
    assert_eq!(s.scripts_generated, 1);
    assert_eq!(s.scripts_reused, 2);
    assert_eq!(m.snapshot(), s);
}
