use gateway_core::context::resolver::{ContextLayer, ContextPriority, LoadedSkill, ResolvedContext};
use gateway_core::context::session::SessionContext;
use serde_json::Value;
use uuid::Uuid;

type Session = SessionContext<()>;


#[test]
fn test_session_context_default() {
    let ctx = Session::default();
    assert!(!ctx.session_id.is_nil());
    assert!(ctx.messages.is_empty());
    assert!(ctx.working_files.is_empty());
    assert!(ctx.loaded_skills.is_empty());
}

#[test]
fn test_session_context_new() {
    let id = Uuid::new_v4();
    let ctx = Session::new(id);
    assert_eq!(ctx.session_id, id);
}

#[test]
fn test_session_context_for_user() {
    let session_id = Uuid::new_v4();
    let user_id = Uuid::new_v4();
    let ctx = Session::for_user(session_id, user_id);

    assert_eq!(ctx.session_id, session_id);
    assert_eq!(ctx.user_id, Some(user_id));
}

#[test]
fn test_track_file() {
    let mut ctx = Session::default();
    ctx.track_file("/path/to/file.rs");

    assert!(ctx.working_file("/path/to/file.rs").is_some());
    assert!(!ctx.working_file("/path/to/file.rs").unwrap().modified);
}

#[test]
fn test_mark_file_modified() {
    let mut ctx = Session::default();
    ctx.track_file("/path/to/file.rs");
    ctx.mark_file_modified("/path/to/file.rs");

    assert!(ctx.working_file("/path/to/file.rs").unwrap().modified);
}

#[test]
fn test_record_tool_call() {
    let mut ctx = Session::default();
    ctx.record_tool_call("read", Some("success".to_string()));
    ctx.record_tool_call("read", None);

    let state = ctx.tool_state("read").unwrap();
    assert_eq!(state.call_count, 2);
    assert!(state.last_result.is_none());
}

#[test]
fn session_test_load_skill() {
    let mut ctx = Session::default();
    let skill = LoadedSkill {
        name: "test-skill".to_string(),
        content: "Test content".to_string(),
        requires_browser: false,
        automation_tab: false,
    };

    ctx.load_skill(skill.clone());
    assert!(ctx.is_skill_loaded("test-skill"));
    assert!(!ctx.is_skill_loaded("other-skill"));

    // Duplicate load should not add
    ctx.load_skill(skill);
    assert_eq!(ctx.loaded_skills.len(), 1);
}

#[test]
fn test_custom_context() {
    let mut ctx = Session::default();
    ctx.set_context("key1", Value::String("value1".to_string()));

    assert_eq!(ctx.get_context("key1"), Some(&Value::String("value1".to_string())));
    assert!(ctx.get_context("key2").is_none());
}

#[test]
fn session_test_context_layer_metadata() {
    let ctx = Session::default();
    assert_eq!(ctx.layer_name(), "session");
    assert_eq!(ctx.priority(), ContextPriority::Session);
}

#[test]
fn session_test_apply_to() {
    let mut ctx = Session::default();
    ctx.track_file("/path/to/file.rs");
    ctx.load_skill(LoadedSkill {
        name: "test-skill".to_string(),
        content: "content".to_string(),
        requires_browser: false,
        automation_tab: false,
    });

    let mut resolved = ResolvedContext::default();
    ctx.apply_to(&mut resolved);

    assert_eq!(resolved.loaded_skills.len(), 1);
    assert!(resolved.task_instructions.is_some());
    let instructions = resolved.task_instructions.unwrap();
    assert!(instructions.contains("Working Files"));
    assert!(instructions.contains("/path/to/file.rs"));
    assert!(instructions.contains("test-skill"));
}

#[test]
fn test_generate_summary_empty() {
    let ctx = Session::default();
    let summary = ctx.generate_summary();
    assert!(summary.is_empty());
}

#[test]
fn test_generate_summary_with_files() {
    let mut ctx = Session::default();
    ctx.track_file("/path/to/file.rs");
    ctx.mark_file_modified("/path/to/file.rs");

    let summary = ctx.generate_summary();
    assert!(summary.contains("Working Files"));
    assert!(summary.contains("(modified)"));
}

#[test]
fn test_loaded_skill_names() {
    let mut ctx = Session::default();
    ctx.load_skill(LoadedSkill {
        name: "skill1".to_string(),
        content: "".to_string(),
        requires_browser: false,
        automation_tab: false,
    });
    ctx.load_skill(LoadedSkill {
        name: "skill2".to_string(),
        content: "".to_string(),
        requires_browser: false,
        automation_tab: false,
    });

    let names = ctx.loaded_skill_names();
    assert_eq!(names.len(), 2);
    assert!(names.contains(&"skill1"));
    assert!(names.contains(&"skill2"));
}

#[test]
fn test_session_summary_exact() {
    let mut ctx = Session::default();
    ctx.track_file("b.rs");
    ctx.track_file("a.rs");
    ctx.mark_file_modified("a.rs");
    ctx.mark_file_modified("untracked.rs");
    for name in ["t1", "t2", "t3", "t4", "t5", "t6"] {
        ctx.record_tool_call(name, None);
    }
    ctx.record_tool_call("t1", Some("ok".to_string()));
    assert_eq!(
        ctx.generate_summary(),
        "### Working Files\n\n- b.rs \n- a.rs (modified)\n\n### Recent Tools\n\n- t1 (2x)\n- t2 (1x)\n- t3 (1x)\n- t4 (1x)\n- t5 (1x)\n"
    );
    let mut resolved = ResolvedContext::default();
    resolved.task_instructions = Some("T".to_string());
    ctx.apply_to(&mut resolved);
    assert!(resolved
        .task_instructions
        .unwrap()
        .starts_with("T\n\n## Session Context\n\n### Working Files"));
    ctx.add_message(());
    assert_eq!(ctx.message_count(), 1);
}
