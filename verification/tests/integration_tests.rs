use gateway_core::context::integration::ContextIntegration;
use gateway_core::context::organization::OrganizationContext;
use gateway_core::context::platform::PlatformContext;
use gateway_core::context::resolver::{LoadedSkill, PermissionMode};
use gateway_core::context::subagent::{ContextForkMode, SubAgentContext};
use gateway_core::context::task::TaskContext;
use gateway_core::context::user::UserContext;
use serde_json::Value;
use uuid::Uuid;

type Integration = ContextIntegration<()>;

#[test]
fn test_context_integration_new() {
    let integration = Integration::new();
    assert!(integration.platform().is_none());
    assert!(integration.session().is_none());
    assert!(integration.task().is_none());
}

#[test]
fn integration_test_create_session() {
    let mut integration = Integration::new();
    let session_id = Uuid::new_v4();

    let session = integration.create_session(session_id);
    assert_eq!(session.session_id, session_id);
}

#[test]
fn test_create_task() {
    let mut integration = Integration::new();
    let task = integration.create_task("Fix the bug");
    assert_eq!(task.description, "Fix the bug");
}

#[test]
fn test_resolve_empty() {
    let mut integration = Integration::new();
    let resolved = integration.resolve();
    assert!(resolved.platform_rules.is_empty());
    assert!(resolved.active_layers.is_empty());
}

#[test]
fn integration_test_generate_system_prompt() {
    let mut integration = Integration::new();
    integration.create_session(Uuid::new_v4());
    integration.create_task("Test task");

    let prompt = integration.generate_system_prompt();
    assert!(prompt.is_empty() || !prompt.is_empty());
}

#[test]
fn integration_test_is_tool_allowed() {
    let mut integration = Integration::new();

    assert!(integration.is_tool_allowed("read"));
    assert!(integration.is_tool_allowed("bash"));
}

#[test]
fn test_fork_for_subagent() {
    let mut integration = Integration::new();
    integration.create_session(Uuid::new_v4());
    integration.create_task("Parent task");

    let forked = integration.fork_for_subagent("sub-1", "explore", ContextForkMode::Inherit);

    assert!(forked.subagent().is_some());
    assert!(forked.session().is_none());
    assert!(forked.task().is_none());
}

#[test]
fn test_cache_invalidation() {
    let mut integration = Integration::new();

    let _ = integration.resolve();
    assert!(integration.cached_resolution().is_some());

    integration.create_task("New task");
    assert!(integration.cached_resolution().is_none());

    let resolved = integration.resolve();
    assert!(resolved.active_layers.contains(&"task".to_string()));
}

#[test]
fn integration_layers_in_order_and_prompt_sections() {
    let mut integration = Integration::new()
        .with_platform(PlatformContext::default())
        .with_organization(OrganizationContext::default())
        .with_user(UserContext::default())
        .with_task(TaskContext::new("Ship it"))
        .with_subagent(SubAgentContext::new("helper"));
    integration.create_session(Uuid::new_v4());
    let resolved = integration.resolve();
    assert_eq!(
        resolved.active_layers,
        vec!["platform", "organization", "user", "session", "task", "subagent"]
    );
    assert_eq!(resolved.get_config("max_retries"), Some(&Value::from(3)));
    let instructions = resolved.task_instructions.clone().unwrap();
    assert!(instructions.contains("Ship it"));
    assert!(instructions.contains("\n\n## SubAgent: helper"));
    let prompt = integration.generate_system_prompt();
    assert!(prompt.contains("# Platform Rules"));
    assert!(prompt.contains("## User Preferences"));
    assert!(prompt.contains("**Permission Mode**: Normal"));
    let minimal = integration.generate_minimal_prompt();
    assert!(!minimal.contains("**Permission Mode**"));
}

#[test]
fn integration_bundle_prompt_and_cache() {
    let mut integration =
        Integration::new().with_bundle_system_prompt("Use the bundle.".to_string());
    let prompt = integration.generate_system_prompt();
    assert!(prompt.ends_with("\n\n# Active Plugin Bundle Context\n\nUse the bundle."));
    integration.add_loaded_skill(LoadedSkill {
        name: "extra".to_string(),
        content: "c".to_string(),
        requires_browser: false,
        automation_tab: false,
    });
    assert_eq!(integration.resolve().loaded_skills.len(), 1);
    integration.invalidate_cache();
    assert_eq!(integration.resolve().loaded_skills.len(), 0);
}

#[test]
fn integration_subagent_restrictions_resolve() {
    let mut sub = SubAgentContext::new("restricted");
    sub.block_tool("bash");
    sub.set_permission_mode(PermissionMode::Restricted);
    let mut integration = Integration::new().with_subagent(sub);
    assert!(!integration.is_tool_allowed("bash"));
    assert!(integration.is_tool_allowed("read"));
    assert_eq!(integration.permission_mode(), PermissionMode::Restricted);
}

#[test]
fn integration_fork_copies_parent_task_and_files() {
    let mut integration = Integration::new().with_platform(PlatformContext::default());
    integration.create_session(Uuid::new_v4());
    integration.session_mut().unwrap().track_file("/a.rs");
    integration.create_task("Parent task");
    let forked = integration.fork_for_subagent("sub-1", "explore", ContextForkMode::Inherit);
    assert!(forked.platform().is_some());
    let sub = forked.subagent().unwrap();
    assert_eq!(sub.subagent_id, "sub-1");
    assert_eq!(sub.fork_mode, ContextForkMode::Fork);
    let f = sub.forked_context.as_ref().unwrap();
    assert_eq!(f.working_files, vec!["/a.rs".to_string()]);
    assert_eq!(f.custom_context, vec![("parent_task".to_string(), Value::String("Parent task".to_string()))]);
    let isolated = integration.fork_for_subagent("sub-2", "explore", ContextForkMode::Isolated);
    assert!(isolated.subagent().unwrap().forked_context.is_none());
}
