use gateway_core::context::resolver::{
    ContextLayer, ContextPriority, ContextResolver, LoadedSkill, PermissionMode, ResolvedContext,
};
use serde_json::Value;

// Mock context layer for testing
struct MockLayer {
    name: String,
    priority: ContextPriority,
    rules: String,
}

impl MockLayer {
    fn new(name: &str, priority: ContextPriority, rules: &str) -> Self {
        Self {
            name: name.to_string(),
            priority,
            rules: rules.to_string(),
        }
    }
}

impl ContextLayer for MockLayer {
    fn layer_name(&self) -> &str {
        &self.name
    }

    fn priority(&self) -> ContextPriority {
        self.priority
    }

    fn apply_to(&self, resolved: &mut ResolvedContext) {
        match self.priority {
            ContextPriority::Platform => {
                resolved.platform_rules = self.rules.clone();
            }
            ContextPriority::Organization => {
                resolved.org_conventions = Some(self.rules.clone());
            }
            ContextPriority::User => {
                resolved.user_preferences = Some(self.rules.clone());
            }
            ContextPriority::Session => {
                resolved.session_context = Some(self.rules.clone());
            }
            ContextPriority::Task => {
                resolved.task_instructions = Some(self.rules.clone());
            }
            ContextPriority::SubAgent => {
                resolved.subagent_context = Some(self.rules.clone());
            }
        }
    }
}

fn text(s: &str) -> Value {
    Value::String(s.to_string())
}


#[test]
fn test_priority_ordering() {
    assert!(ContextPriority::Platform < ContextPriority::Organization);
    assert!(ContextPriority::Organization < ContextPriority::User);
    assert!(ContextPriority::User < ContextPriority::Session);
    assert!(ContextPriority::Session < ContextPriority::Task);
    assert!(ContextPriority::Task < ContextPriority::SubAgent);
}

#[test]
fn test_priority_can_override() {
    assert!(ContextPriority::Platform.can_override(ContextPriority::Organization));
    assert!(ContextPriority::Platform.can_override(ContextPriority::User));
    assert!(!ContextPriority::User.can_override(ContextPriority::Platform));
    assert!(!ContextPriority::SubAgent.can_override(ContextPriority::Task));
}

#[test]
fn test_priority_layer_name() {
    assert_eq!(ContextPriority::Platform.layer_name(), "platform");
    assert_eq!(ContextPriority::SubAgent.layer_name(), "subagent");
}

#[test]
fn test_resolved_context_default() {
    let ctx = ResolvedContext::default();
    assert!(ctx.platform_rules.is_empty());
    assert_eq!(ctx.permission_mode, PermissionMode::Normal);
    assert!(ctx.active_layers.is_empty());
}

#[test]
fn test_resolved_context_is_tool_allowed() {
    let mut ctx = ResolvedContext::default();

    // No restrictions = all allowed
    assert!(ctx.is_tool_allowed("read"));
    assert!(ctx.is_tool_allowed("bash"));

    // Block a tool
    ctx.blocked_tools.push("bash".to_string());
    assert!(!ctx.is_tool_allowed("bash"));
    assert!(ctx.is_tool_allowed("read"));

    // Set allow list
    ctx.allowed_tools.push("read".to_string());
    ctx.allowed_tools.push("write".to_string());
    assert!(ctx.is_tool_allowed("read"));
    assert!(!ctx.is_tool_allowed("glob")); // Not in allow list
    assert!(!ctx.is_tool_allowed("bash")); // Blocked takes precedence
}

#[test]
fn test_resolved_context_get_config() {
    let mut ctx = ResolvedContext::default();
    ctx.config_values
        .push(("key1".to_string(), text("value1")));

    assert_eq!(ctx.get_config("key1"), Some(&text("value1")));
    assert_eq!(ctx.get_config("key2"), None);

    let default = text("default");
    assert_eq!(ctx.get_config_or("key2", &default), &default);
}

#[test]
fn test_resolved_context_has_layer() {
    let mut ctx = ResolvedContext::default();
    ctx.active_layers.push("platform".to_string());
    ctx.active_layers.push("user".to_string());

    assert!(ctx.has_layer("platform"));
    assert!(ctx.has_layer("user"));
    assert!(!ctx.has_layer("organization"));
}

#[test]
fn test_resolved_context_skills() {
    let mut ctx = ResolvedContext::default();
    ctx.loaded_skills.push(LoadedSkill {
        name: "skill1".to_string(),
        content: "content1".to_string(),
        requires_browser: false,
        automation_tab: false,
    });

    assert!(ctx.has_skill("skill1"));
    assert!(!ctx.has_skill("skill2"));

    let skill = ctx.get_skill("skill1");
    assert!(skill.is_some());
    assert_eq!(skill.unwrap().content, "content1");
}

#[test]
fn test_resolver_resolve() {
    let platform = MockLayer::new("platform", ContextPriority::Platform, "Platform rules");
    let user = MockLayer::new("user", ContextPriority::User, "User prefs");
    let task = MockLayer::new("task", ContextPriority::Task, "Task instructions");

    let mut resolver = ContextResolver::new();
    let resolved = resolver.resolve(&[&task, &platform, &user]); // Out of order

    // Should be applied in priority order
    assert_eq!(resolved.platform_rules, "Platform rules");
    assert_eq!(resolved.user_preferences, Some("User prefs".to_string()));
    assert_eq!(
        resolved.task_instructions,
        Some("Task instructions".to_string())
    );

    // Active layers tracked
    assert_eq!(resolved.active_layers.len(), 3);
    assert_eq!(resolved.active_layers[0], "platform");
    assert_eq!(resolved.active_layers[1], "user");
    assert_eq!(resolved.active_layers[2], "task");
}

#[test]
fn test_resolver_resolve_full() {
    let platform = MockLayer::new("platform", ContextPriority::Platform, "Platform");
    let org = MockLayer::new("org", ContextPriority::Organization, "Org");
    let user = MockLayer::new("user", ContextPriority::User, "User");
    let session = MockLayer::new("session", ContextPriority::Session, "Session");
    let task = MockLayer::new("task", ContextPriority::Task, "Task");
    let subagent = MockLayer::new("subagent", ContextPriority::SubAgent, "SubAgent");

    let mut resolver = ContextResolver::new();
    let resolved = resolver.resolve_full(
        Some(&platform),
        Some(&org),
        Some(&user),
        Some(&session),
        Some(&task),
        Some(&subagent),
    );

    assert_eq!(resolved.platform_rules, "Platform");
    assert_eq!(resolved.org_conventions, Some("Org".to_string()));
    assert_eq!(resolved.user_preferences, Some("User".to_string()));
    assert_eq!(resolved.session_context, Some("Session".to_string()));
    assert_eq!(resolved.task_instructions, Some("Task".to_string()));
    assert_eq!(resolved.subagent_context, Some("SubAgent".to_string()));
    assert_eq!(resolved.active_layers.len(), 6);
}

#[test]
fn test_resolver_resolve_partial() {
    let platform = MockLayer::new("platform", ContextPriority::Platform, "Platform");
    let task = MockLayer::new("task", ContextPriority::Task, "Task");

    let mut resolver = ContextResolver::new();
    let resolved = resolver.resolve_full(
        Some(&platform),
        None, // No org
        None, // No user
        None, // No session
        Some(&task),
        None, // No subagent
    );

    assert_eq!(resolved.platform_rules, "Platform");
    assert!(resolved.org_conventions.is_none());
    assert!(resolved.user_preferences.is_none());
    assert_eq!(resolved.task_instructions, Some("Task".to_string()));
    assert_eq!(resolved.active_layers.len(), 2);
}

#[test]
fn test_resolver_set_config() {
    let mut resolver = ContextResolver::new();
    let mut resolved = ResolvedContext::default();

    // Set from platform (highest priority)
    resolver.set_config(
        &mut resolved,
        "key1",
        text("platform"),
        ContextPriority::Platform,
    );
    assert_eq!(*resolved.get_config("key1").unwrap(), "platform");

    // Try to override from user (lower priority) - should fail
    resolver.set_config(
        &mut resolved,
        "key1",
        text("user"),
        ContextPriority::User,
    );
    assert_eq!(*resolved.get_config("key1").unwrap(), "platform"); // Unchanged

    // Set new key from user
    resolver.set_config(
        &mut resolved,
        "key2",
        text("user"),
        ContextPriority::User,
    );
    assert_eq!(*resolved.get_config("key2").unwrap(), "user");
}

#[test]
fn test_resolver_extend_config() {
    let mut resolver = ContextResolver::new();
    let mut resolved = ResolvedContext::default();

    // Set initial value
    resolver.set_config(
        &mut resolved,
        "key1",
        text("original"),
        ContextPriority::Platform,
    );

    // Extend with new values
    let mut values = Vec::new();
    values.push(("key1".to_string(), text("new1"))); // Won't override
    values.push(("key2".to_string(), text("new2"))); // Will add

    resolver.extend_config(&mut resolved, &values, ContextPriority::User);

    assert_eq!(*resolved.get_config("key1").unwrap(), "original"); // Not overridden
    assert_eq!(*resolved.get_config("key2").unwrap(), "new2"); // Added
}

#[test]
fn test_resolver_merge_tools() {
    let resolver = ContextResolver::new();
    let mut resolved = ResolvedContext::default();

    // First layer sets allowed tools
    resolver.merge_tools(
        &mut resolved,
        &["read".to_string(), "write".to_string()],
        &[],
    );
    assert_eq!(resolved.allowed_tools, vec!["read", "write"]);

    // Second layer restricts to intersection
    resolver.merge_tools(
        &mut resolved,
        &["read".to_string(), "glob".to_string()],
        &[],
    );
    assert_eq!(resolved.allowed_tools, vec!["read"]); // Intersection

    // Block a tool
    resolver.merge_tools(&mut resolved, &[], &["bash".to_string()]);
    assert!(resolved.blocked_tools.contains(&"bash".to_string()));
}

#[test]
fn resolver_test_generate_system_prompt() {
    let mut ctx = ResolvedContext::default();
    ctx.platform_rules = "## Platform\nUse English.".to_string();
    ctx.org_conventions = Some("## Organization\nFollow team standards.".to_string());
    ctx.user_preferences = Some("## User\nPrefer explicit types.".to_string());
    ctx.skill_descriptions = "## Skills\n- commit: Create commits".to_string();
    ctx.loaded_skills.push(LoadedSkill {
        name: "commit".to_string(),
        content: "Full commit skill content".to_string(),
        requires_browser: false,
        automation_tab: false,
    });
    ctx.task_instructions = Some("## Task\nFix the bug.".to_string());

    let prompt = ctx.generate_system_prompt();

    assert!(prompt.contains("## Platform"));
    assert!(prompt.contains("Use English"));
    assert!(prompt.contains("## Organization"));
    assert!(prompt.contains("## User"));
    assert!(prompt.contains("## Skills"));
    assert!(prompt.contains("[commit] Skill Loaded"));
    assert!(prompt.contains("Full commit skill content"));
    assert!(prompt.contains("## Task"));
    assert!(prompt.contains("Fix the bug"));

    // Verify order: platform should come before organization
    let platform_pos = prompt.find("## Platform").unwrap();
    let org_pos = prompt.find("## Organization").unwrap();
    assert!(platform_pos < org_pos);
}

#[test]
fn test_resolver_reset() {
    let mut resolver = ContextResolver::new();
    let mut resolved = ResolvedContext::default();

    resolver.set_config(&mut resolved, "key1", Value::String("value".to_string()), ContextPriority::Platform);
    assert_eq!(resolver.key_priority("key1"), Some(ContextPriority::Platform));

    resolver.reset();
    assert_eq!(resolver.key_priority("key1"), None);
}

#[test]
fn documented_override_rules() {
    let (pl, org, user, session, task, sub) = (
        ContextPriority::Platform,
        ContextPriority::Organization,
        ContextPriority::User,
        ContextPriority::Session,
        ContextPriority::Task,
        ContextPriority::SubAgent,
    );
    assert!(user.can_override(org));
    assert!(session.can_override(user));
    assert!(task.can_override(session));
    assert!(!org.can_override(pl));
    assert!(!session.can_override(org));
    assert!(!task.can_override(user));
    assert!(!sub.can_override(task));
    for p in [pl, org, user, session, task, sub] {
        assert!(!p.can_override(pl));
    }
}

#[test]
fn resolve_without_layers_gives_blank_context() {
    let mut resolver = ContextResolver::new();
    let resolved = resolver.resolve(&[]);
    assert_eq!(resolved.platform_rules, "");
    assert!(resolved.org_conventions.is_none());
    assert!(resolved.user_preferences.is_none());
    assert!(resolved.task_instructions.is_none());
    assert!(resolved.active_layers.is_empty());
    assert!(resolved.config_values.is_empty());

    let full = resolver.resolve_full(None, None, None, None, None, None);
    assert_eq!(full.platform_rules, "");
    assert!(full.active_layers.is_empty());
}

#[test]
fn resolve_keeps_given_order_among_equal_priorities() {
    let first = MockLayer::new("first", ContextPriority::Session, "one");
    let second = MockLayer::new("second", ContextPriority::Session, "two");
    let platform = MockLayer::new("platform", ContextPriority::Platform, "P");
    let mut resolver = ContextResolver::new();
    let resolved = resolver.resolve(&[&first, &platform, &second]);
    assert_eq!(resolved.active_layers, vec!["platform", "first", "second"]);
    // the later of two equal layers is applied last
    assert_eq!(resolved.session_context, Some("two".to_string()));
}
