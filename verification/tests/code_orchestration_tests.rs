use gateway_core::code_orchestration::tool_proxy::check_tool_call_limit;
use gateway_core::code_orchestration::codegen::ToolCodeGenerator;
use gateway_core::code_orchestration::runtime::{
    request_refusal, run_outcome, CodeOrchestrationRuntime, RunRefusal, SandboxResult,
};
use std::sync::Arc;

// The runtime is generic over the handles it holds; these stand for them.
struct ToolRegistry;

impl ToolRegistry {
    fn new() -> Self {
        ToolRegistry
    }
}

#[derive(Default)]
struct CodeOrchestrationConfig {
    enabled: bool,
}

struct CodeOrchestrationRequest;

impl CodeOrchestrationRequest {
    fn python(_code: &str) -> Self {
        CodeOrchestrationRequest
    }
}

struct ToolContext;

impl ToolContext {
    fn new(_name: &str, _dir: &std::path::Path) -> Self {
        ToolContext
    }
}

type Runtime = CodeOrchestrationRuntime<Arc<ToolRegistry>, (), CodeOrchestrationConfig>;


#[test]
fn test_python_preamble_generation() {
    let preamble = ToolCodeGenerator::generate_python_preamble(8080, "{}", &[]);

    assert!(preamble.contains("class _ToolProxy"));
    assert!(preamble.contains("http://host.docker.internal:8080"));
    assert!(preamble.contains("tools = _ToolProxy"));
    assert!(preamble.contains("context = {}"));
    assert!(preamble.contains("def read(self, path)"));
    assert!(preamble.contains("def bash(self, cmd"));
    assert!(preamble.contains("def glob(self, pattern"));
    assert!(preamble.contains("def grep(self, pattern"));
}

#[test]
fn test_javascript_preamble_generation() {
    let preamble = ToolCodeGenerator::generate_javascript_preamble(9090, "{}", &[]);

    assert!(preamble.contains("class _ToolProxy"));
    assert!(preamble.contains("http://host.docker.internal:9090"));
    assert!(preamble.contains("const tools = new _ToolProxy"));
    assert!(preamble.contains("const context = {}"));
    assert!(preamble.contains("async read(path)"));
    assert!(preamble.contains("async bash(cmd"));
}

#[test]
fn test_generate_preamble_unsupported_language() {
    let result = ToolCodeGenerator::generate_preamble("ruby", 8080, "{}", &[]);
    assert!(result.is_err());
    assert!(result.unwrap_err().contains("Unsupported"));
}

#[test]
fn test_python_preamble_with_context() {
    let context = r#"{"step_1_output": "hello", "data": [1, 2, 3]}"#;
    let preamble = ToolCodeGenerator::generate_python_preamble(8080, context, &[]);

    assert!(preamble.contains(context));
}


#[test]
fn test_runtime_creation() {
    let registry = Arc::new(ToolRegistry::new());
    let config = CodeOrchestrationConfig::default();
    let runtime: Runtime = CodeOrchestrationRuntime::new(registry, config);

    assert!(runtime.code_executor().is_none());
}

#[test]
fn test_runtime_disabled() {
    let registry = Arc::new(ToolRegistry::new());
    let config = CodeOrchestrationConfig::default(); // enabled=false by default
    let runtime: Runtime = CodeOrchestrationRuntime::new(registry, config);

    let _request = CodeOrchestrationRequest::python("print('hello')");
    let _context = ToolContext::new("test", std::path::Path::new("/tmp"));

    // Can't run async test in sync block, but we verify config
    assert!(!runtime.config().enabled);
}

#[test]
fn test_runtime_decisions() {
    assert!(Runtime::is_supported_language("python"));
    assert!(!Runtime::is_supported_language("ruby"));
    assert_eq!(
        Runtime::unsupported_language_message("ruby"),
        "Code orchestration only supports 'python' and 'javascript', got 'ruby'"
    );
    assert_eq!(Runtime::full_code("P", "C"), "P\nC");
    assert_eq!(Runtime::exit_error(0, "x"), None);
    assert_eq!(
        Runtime::exit_error(-2, "boom"),
        Some("Code exited with code -2. stderr: boom".to_string())
    );
    let long = "e".repeat(600);
    let text = Runtime::exit_error(1, &long).unwrap();
    assert_eq!(text.len(), "Code exited with code 1. stderr: ".len() + 500);
    let runtime: Runtime = CodeOrchestrationRuntime::new(Arc::new(ToolRegistry::new()), CodeOrchestrationConfig::default())
        .with_code_executor(());
    assert!(runtime.code_executor().is_some());
}

#[test]
fn test_preamble_exact_pieces() {
    let js = ToolCodeGenerator::generate_javascript_preamble(1, "[]", &[]);
    assert!(js.starts_with("// === Canal Tool SDK (auto-generated) ===\n"));
    assert!(js.ends_with("const context = [];\n\n// === End Canal Tool SDK ===\n\n"));
    let py = ToolCodeGenerator::generate_preamble("python", 7, "{}", &[]).unwrap();
    assert_eq!(py, ToolCodeGenerator::generate_python_preamble(7, "{}", &[]));
}

#[test]
fn tool_proxy_limit_refusal() {
    assert!(check_tool_call_limit(2, 3).is_none());
    let r = check_tool_call_limit(3, 3).unwrap();
    assert_eq!(r.record_error, "Tool call limit exceeded: 3 >= 3");
    assert_eq!(r.response_error, "Tool call limit exceeded (3/3)");
    assert!(check_tool_call_limit(0, 0).is_some());
}

#[test]
fn runtime_return_value_reads_json_output() {
    let v = Runtime::return_value(0, "  {\"total\": 3}\n").unwrap();
    assert_eq!(v["total"], 3);
    assert!(Runtime::return_value(1, "{\"total\": 3}").is_none());
    assert!(Runtime::return_value(0, "   \n").is_none());
    assert!(Runtime::return_value(0, "not json").is_none());
}

#[test]
fn requests_are_refused_when_off_or_unsupported() {
    assert_eq!(request_refusal(false, "python"), Some(RunRefusal::NotEnabled));
    assert_eq!(
        RunRefusal::NotEnabled.message(),
        "Code orchestration is not enabled"
    );
    match request_refusal(true, "ruby") {
        Some(r @ RunRefusal::UnsupportedLanguage(_)) => assert_eq!(
            r.message(),
            "Code orchestration only supports 'python' and 'javascript', got 'ruby'"
        ),
        other => panic!("unexpected {:?}", other),
    }
    assert_eq!(request_refusal(true, "javascript"), None);
}

#[test]
fn run_outcomes() {
    let ok = run_outcome(Ok(SandboxResult {
        stdout: " {\"a\": 1} ".to_string(),
        stderr: String::new(),
        exit_code: 0,
    }));
    assert!(ok.success);
    assert_eq!(ok.return_value.unwrap()["a"], 1);
    assert!(ok.error.is_none());
    let failed = run_outcome(Ok(SandboxResult {
        stdout: "{}".to_string(),
        stderr: "boom".to_string(),
        exit_code: 2,
    }));
    assert!(!failed.success);
    assert!(failed.return_value.is_none());
    assert_eq!(failed.error.as_deref(), Some("Code exited with code 2. stderr: boom"));
    let broken = run_outcome(Err("sandbox down".to_string()));
    assert_eq!(broken.exit_code, -1);
    assert_eq!(broken.stdout, "");
    assert_eq!(broken.stderr, "sandbox down");
    assert_eq!(broken.error.as_deref(), Some("sandbox down"));
}
