use gateway_core::context::resolver::{
    ContextLayer, ContextPriority, LoadedSkill, PermissionMode, ResolvedContext,
};
use gateway_core::context::session::SessionContext;
use gateway_core::context::subagent::{ContextForkMode, SubAgentContext, SubAgentContextBuilder};
use serde_json::Value;
use uuid::Uuid;

type Session = SessionContext<()>;



#[test]
fn test_subagent_context_default() {
    let ctx = SubAgentContext::default();
    assert!(!ctx.subagent_id.is_empty());
    assert_eq!(ctx.agent_type, "general");
    assert_eq!(ctx.fork_mode, ContextForkMode::Isolated);
    assert!(ctx.forked_context.is_none());
}

#[test]
fn test_subagent_context_new() {
    let ctx = SubAgentContext::new("explorer");
    assert_eq!(ctx.agent_type, "explorer");
    assert_eq!(ctx.fork_mode, ContextForkMode::Isolated);
}

#[test]
fn test_subagent_context_inherit() {
    let session_id = Uuid::new_v4();
    let ctx = SubAgentContext::inherit("planner", session_id);

    assert_eq!(ctx.agent_type, "planner");
    assert_eq!(ctx.parent_session_id, Some(session_id));
    assert_eq!(ctx.fork_mode, ContextForkMode::Inherit);
    assert!(ctx.has_parent_access());
}

#[test]
fn test_subagent_context_fork() {
    let mut session = Session::default();
    session.track_file("/path/to/file.rs");
    session.load_skill(LoadedSkill {
        name: "test-skill".to_string(),
        content: "content".to_string(),
        requires_browser: false,
        automation_tab: false,
    });

    let ctx = SubAgentContext::fork("worker", &session);

    assert_eq!(ctx.agent_type, "worker");
    assert_eq!(ctx.parent_session_id, Some(session.session_id));
    assert_eq!(ctx.fork_mode, ContextForkMode::Fork);
    assert!(ctx.forked_context.is_some());

    let forked = ctx.forked_context.as_ref().unwrap();
    assert!(forked
        .working_files
        .contains(&"/path/to/file.rs".to_string()));
    assert_eq!(forked.loaded_skills.len(), 1);
}

#[test]
fn test_tool_restrictions() {
    let mut ctx = SubAgentContext::new("restricted");

    // No restrictions = all allowed
    assert!(ctx.is_tool_allowed("read"));
    assert!(ctx.is_tool_allowed("bash"));

    // Block a tool
    ctx.block_tool("bash");
    assert!(!ctx.is_tool_allowed("bash"));
    assert!(ctx.is_tool_allowed("read"));

    // Set allow list
    ctx.allow_tool("read");
    ctx.allow_tool("glob");
    assert!(ctx.is_tool_allowed("read"));
    assert!(!ctx.is_tool_allowed("write")); // Not in allow list
    assert!(!ctx.is_tool_allowed("bash")); // Blocked takes precedence
}

#[test]
fn subagent_test_context_layer_metadata() {
    let ctx = SubAgentContext::default();
    assert_eq!(ctx.layer_name(), "subagent");
    assert_eq!(ctx.priority(), ContextPriority::SubAgent);
}

#[test]
fn test_apply_to_isolated() {
    let ctx = SubAgentContext::new("isolated");

    let mut resolved = ResolvedContext::default();
    ctx.apply_to(&mut resolved);

    assert!(resolved.task_instructions.is_some());
    let instructions = resolved.task_instructions.unwrap();
    assert!(instructions.contains("SubAgent: isolated"));
    assert!(instructions.contains("Isolated execution"));
}

#[test]
fn test_apply_to_with_fork() {
    let mut session = Session::default();
    session.load_skill(LoadedSkill {
        name: "forked-skill".to_string(),
        content: "content".to_string(),
        requires_browser: false,
        automation_tab: false,
    });

    let ctx = SubAgentContext::fork("forked-agent", &session);

    let mut resolved = ResolvedContext::default();
    ctx.apply_to(&mut resolved);

    assert_eq!(resolved.loaded_skills.len(), 1);
    assert_eq!(resolved.loaded_skills[0].name, "forked-skill");

    let instructions = resolved.task_instructions.unwrap();
    assert!(instructions.contains("Forked parent context"));
}

#[test]
fn test_apply_to_with_restrictions() {
    let mut ctx = SubAgentContext::new("restricted");
    ctx.allow_tool("read");
    ctx.allow_tool("glob");
    ctx.block_tool("bash");
    ctx.set_max_turns(5);
    ctx.set_permission_mode(PermissionMode::Restricted);

    let mut resolved = ResolvedContext::default();
    ctx.apply_to(&mut resolved);

    assert!(resolved.allowed_tools.contains(&"read".to_string()));
    assert!(resolved.blocked_tools.contains(&"bash".to_string()));
    assert_eq!(resolved.permission_mode, PermissionMode::Restricted);
}

#[test]
fn subagent_test_builder() {
    let ctx = SubAgentContextBuilder::new("explorer")
        .id("sub-1")
        .parent(Uuid::new_v4())
        .fork_mode(ContextForkMode::Inherit)
        .instructions("Find relevant files")
        .allow_tool("glob")
        .allow_tool("grep")
        .block_tool("write")
        .max_turns(10)
        .config("depth", Value::from(3))
        .build();

    assert_eq!(ctx.subagent_id, "sub-1");
    assert_eq!(ctx.agent_type, "explorer");
    assert_eq!(ctx.fork_mode, ContextForkMode::Inherit);
    assert_eq!(ctx.specific_instructions, "Find relevant files");
    assert_eq!(ctx.allowed_tools.len(), 2);
    assert_eq!(ctx.blocked_tools.len(), 1);
    assert_eq!(ctx.max_turns, Some(10));
    assert_eq!(ctx.get_config("depth"), Some(&Value::from(3)));
}

#[test]
fn test_has_parent_access() {
    let isolated = SubAgentContext::new("isolated");
    assert!(!isolated.has_parent_access());

    let inherit = SubAgentContext::inherit("inherit", Uuid::new_v4());
    assert!(inherit.has_parent_access());

    let session = Session::default();
    let fork = SubAgentContext::fork("fork", &session);
    assert!(fork.has_parent_access());
}

#[test]
fn subagent_instructions_exact_text() {
    let mut ctx = SubAgentContext::new("planner");
    ctx.set_instructions("Plan it");
    ctx.set_max_turns(3);
    assert_eq!(
        ctx.instructions_text(),
        "## SubAgent: planner\n\nPlan it\n\n### Context Mode\n\n- Isolated execution (no parent context access)\n\n- Max turns: 3\n"
    );
}

#[test]
fn subagent_fork_text_names_the_fork_time() {
    let mut session = Session::default();
    session.track_file("/a.rs");
    let ctx = SubAgentContext::fork("worker", &session);
    let text = ctx.instructions_text();
    assert!(text.contains("- Forked parent context (independent copy)\n- Forked at: "));
    assert!(text.contains(" UTC\n- Inherited 1 working files\n"));
}

#[test]
fn subagent_apply_appends_to_existing_instructions() {
    let ctx = SubAgentContext::new("helper");
    let mut resolved = ResolvedContext::default();
    resolved.task_instructions = Some("Earlier".to_string());
    ctx.apply_to(&mut resolved);
    let text = resolved.task_instructions.unwrap();
    assert!(text.starts_with("Earlier\n\n## SubAgent: helper\n\n"));
}
