use gateway_core::context::resolver::{ContextLayer, ContextPriority, LoadedSkill, ResolvedContext};
use gateway_core::context::task::{
    TaskContext, TaskContextBuilder, VerificationStatus, VerificationType,
};
use serde_json::Value;

fn cwd_state() -> Value {
    let mut m = serde_json::Map::new();
    m.insert("cwd".to_string(), Value::String("/home".to_string()));
    Value::Object(m)
}


#[test]
fn test_task_context_default() {
    let ctx = TaskContext::default();
    assert!(!ctx.task_id.is_empty());
    assert!(ctx.description.is_empty());
    assert!(ctx.loaded_skills.is_empty());
}

#[test]
fn test_task_context_new() {
    let ctx = TaskContext::new("Fix the bug");
    assert_eq!(ctx.description, "Fix the bug");
}

#[test]
fn test_task_context_with_id() {
    let ctx = TaskContext::with_id("task-123", "Implement feature");
    assert_eq!(ctx.task_id, "task-123");
    assert_eq!(ctx.description, "Implement feature");
}

#[test]
fn task_test_load_skill() {
    let mut ctx = TaskContext::default();
    let skill = LoadedSkill {
        name: "test-skill".to_string(),
        content: "content".to_string(),
        requires_browser: false,
        automation_tab: false,
    };

    ctx.load_skill(skill.clone());
    assert_eq!(ctx.loaded_skills.len(), 1);

    // Duplicate should not add
    ctx.load_skill(skill);
    assert_eq!(ctx.loaded_skills.len(), 1);
}

#[test]
fn test_set_current_file() {
    let mut ctx = TaskContext::default();
    ctx.set_current_file("/path/to/file.rs");

    assert_eq!(
        ctx.working_memory.current_file,
        Some("/path/to/file.rs".to_string())
    );
    assert!(ctx
        .working_memory
        .discovered_files
        .contains(&"/path/to/file.rs".to_string()));
}

#[test]
fn test_add_discovery() {
    let mut ctx = TaskContext::default();
    ctx.add_discovery("Found pattern X", "file.rs:42", 0.8f32.to_bits());

    assert_eq!(ctx.working_memory.discoveries.len(), 1);
    assert_eq!(ctx.working_memory.discoveries[0].content, "Found pattern X");
    assert!((f32::from_bits(ctx.working_memory.discoveries[0].relevance_bits) - 0.8).abs() < f32::EPSILON);
}

#[test]
fn test_verification_lifecycle() {
    let mut ctx = TaskContext::default();
    ctx.add_verification("cargo check", VerificationType::Compile);

    assert_eq!(ctx.working_memory.pending_verifications.len(), 1);
    assert_eq!(
        ctx.working_memory.pending_verifications[0].status,
        VerificationStatus::Pending
    );

    ctx.complete_verification("cargo check", true);
    assert_eq!(
        ctx.working_memory.pending_verifications[0].status,
        VerificationStatus::Passed
    );
}

#[test]
fn test_tool_state() {
    let mut ctx = TaskContext::default();
    ctx.set_tool_state("bash", cwd_state());

    let state = ctx.get_tool_state("bash");
    assert!(state.is_some());
    assert_eq!(
        state.unwrap()["cwd"],
        "home".to_string().replace("home", "/home")
    );
}

#[test]
fn task_test_is_tool_allowed() {
    let mut ctx = TaskContext::default();

    // No constraints = all allowed
    assert!(ctx.is_tool_allowed("read"));

    // Block a tool
    ctx.constraints.blocked_tools.push("bash".to_string());
    assert!(!ctx.is_tool_allowed("bash"));
    assert!(ctx.is_tool_allowed("read"));

    // Allow list takes precedence
    ctx.constraints.allowed_tools.push("read".to_string());
    assert!(ctx.is_tool_allowed("read"));
    assert!(!ctx.is_tool_allowed("write")); // Not in allow list
}

#[test]
fn task_test_context_layer_metadata() {
    let ctx = TaskContext::default();
    assert_eq!(ctx.layer_name(), "task");
    assert_eq!(ctx.priority(), ContextPriority::Task);
}

#[test]
fn task_test_apply_to() {
    let mut ctx = TaskContext::new("Fix the bug in auth module");
    ctx.load_skill(LoadedSkill {
        name: "bug-fix".to_string(),
        content: "Bug fix skill".to_string(),
        requires_browser: false,
        automation_tab: false,
    });
    ctx.constraints.blocked_tools.push("bash".to_string());
    ctx.constraints.max_files = Some(5);

    let mut resolved = ResolvedContext::default();
    ctx.apply_to(&mut resolved);

    assert_eq!(resolved.loaded_skills.len(), 1);
    assert!(resolved.blocked_tools.contains(&"bash".to_string()));
    assert!(resolved.task_instructions.is_some());

    let instructions = resolved.task_instructions.unwrap();
    assert!(instructions.contains("Fix the bug in auth module"));
    assert!(instructions.contains("Max files"));
    assert!(instructions.contains("5"));
}

#[test]
fn task_test_builder() {
    let ctx = TaskContextBuilder::new()
        .id("task-1")
        .description("Build feature X")
        .max_files(3)
        .allow_path("src/**")
        .block_tool("bash")
        .build();

    assert_eq!(ctx.task_id, "task-1");
    assert_eq!(ctx.description, "Build feature X");
    assert_eq!(ctx.constraints.max_files, Some(3));
    assert!(ctx
        .constraints
        .allowed_paths
        .contains(&"src/**".to_string()));
    assert!(ctx.constraints.blocked_tools.contains(&"bash".to_string()));
}

#[test]
fn test_working_memory_summary() {
    let mut ctx = TaskContext::default();
    ctx.set_current_file("/file.rs");
    ctx.add_discovery("Important pattern", "analysis", 0.9f32.to_bits());
    ctx.add_verification("cargo test", VerificationType::UnitTest);

    let summary = ctx.generate_working_memory_summary();
    assert!(summary.contains("/file.rs"));
    assert!(summary.contains("Important pattern"));
    assert!(summary.contains("cargo test"));
}

#[test]
fn test_task_instructions_exact() {
    let mut ctx = TaskContext::with_id("t", "Do X");
    ctx.set_instructions("Carefully");
    ctx.set_current_file("a.rs");
    ctx.set_current_file("a.rs");
    ctx.add_verification("lint", VerificationType::Lint);
    ctx.add_verification("test", VerificationType::UnitTest);
    ctx.complete_verification("test", false);
    ctx.constraints.allowed_paths = vec!["src/**".to_string(), "tests/**".to_string()];
    assert_eq!(ctx.working_memory.discovered_files.len(), 1);
    assert_eq!(
        ctx.working_memory.pending_verifications[1].status,
        VerificationStatus::Failed
    );
    let mut resolved = ResolvedContext::default();
    resolved.task_instructions = Some("Earlier".to_string());
    ctx.apply_to(&mut resolved);
    assert_eq!(
        resolved.task_instructions.as_deref(),
        Some(
            "Earlier\n\n## Task\n\nDo X\n\n## Instructions\n\nCarefully\n\n## Working Memory\n\nCurrent file: a.rs\n\n### Pending Verifications\n\n- Lint: lint\n\n## Constraints\n\n- Allowed paths: src/**, tests/**\n"
        )
    );
    ctx.set_result("k", Value::Bool(true));
    assert_eq!(ctx.get_result("k"), Some(&Value::Bool(true)));
    assert_eq!(ctx.get_result("missing"), None);
}
