use gateway_core::context::prompt_generator::{PromptBuilder, PromptSection, SystemPromptGenerator};
use gateway_core::context::resolver::{LoadedSkill, PermissionMode, ResolvedContext};

fn sample_context() -> ResolvedContext {
    let mut ctx = ResolvedContext::default();
    ctx.platform_rules = "Always use English.".to_string();
    ctx.org_conventions = Some("Follow team coding standards.".to_string());
    ctx.user_preferences = Some("Prefer explicit types.".to_string());
    ctx.skill_descriptions = "- commit: Create git commits\n- review: Review code".to_string();
    ctx.loaded_skills.push(LoadedSkill {
        name: "commit".to_string(),
        content: "When committing, use conventional commits format.".to_string(),
        requires_browser: false,
        automation_tab: false,
    });
    ctx.task_instructions = Some("Fix the authentication bug.".to_string());
    ctx
}


#[test]
fn test_default_generation() {
    let ctx = sample_context();
    let generator = SystemPromptGenerator::new();
    let prompt = generator.generate(&ctx);

    assert!(prompt.contains("Always use English"));
    assert!(prompt.contains("Follow team coding standards"));
    assert!(prompt.contains("Prefer explicit types"));
    assert!(prompt.contains("commit: Create git commits"));
    assert!(prompt.contains("commit (Active)"));
    assert!(prompt.contains("Fix the authentication bug"));
}

#[test]
fn test_section_order() {
    let ctx = sample_context();
    let generator = SystemPromptGenerator::new();
    let prompt = generator.generate(&ctx);

    // Platform should come before Organization
    let platform_pos = prompt.find("Always use English").unwrap();
    let org_pos = prompt.find("Follow team coding standards").unwrap();
    assert!(platform_pos < org_pos);

    // Task should come after skills
    let skills_pos = prompt.find("commit: Create git commits").unwrap();
    let task_pos = prompt.find("Fix the authentication bug").unwrap();
    assert!(skills_pos < task_pos);
}

#[test]
fn test_custom_section_order() {
    let ctx = sample_context();
    let generator = SystemPromptGenerator::new()
        .with_section_order(vec![PromptSection::Task, PromptSection::Platform]);
    let prompt = generator.generate(&ctx);

    // Task should now come before Platform
    let task_pos = prompt.find("Fix the authentication bug").unwrap();
    let platform_pos = prompt.find("Always use English").unwrap();
    assert!(task_pos < platform_pos);
}

#[test]
fn test_skip_sections() {
    let ctx = sample_context();
    let generator = SystemPromptGenerator::new().skip_section(PromptSection::Organization);
    let prompt = generator.generate(&ctx);

    assert!(!prompt.contains("Follow team coding standards"));
    assert!(prompt.contains("Always use English"));
}

#[test]
fn test_without_headers() {
    let ctx = sample_context();
    let generator = SystemPromptGenerator::new().with_headers(false);
    let prompt = generator.generate(&ctx);

    // Should not have the generic headers
    // (but content that starts with # is preserved)
    assert!(prompt.contains("Always use English"));
}

#[test]
fn test_with_tool_permissions() {
    let mut ctx = sample_context();
    ctx.allowed_tools = vec!["read".to_string(), "write".to_string()];
    ctx.blocked_tools = vec!["bash".to_string()];
    ctx.permission_mode = PermissionMode::Restricted;

    let generator = SystemPromptGenerator::new().with_tool_permissions(true);
    let prompt = generator.generate(&ctx);

    assert!(prompt.contains("**Permission Mode**: Restricted"));
    assert!(prompt.contains("`read`"));
    assert!(prompt.contains("`bash` ❌"));
}

#[test]
fn test_custom_sections() {
    let ctx = sample_context();
    let generator =
        SystemPromptGenerator::new().with_custom_section(1, "Custom content here.".to_string());
    let prompt = generator.generate(&ctx);

    assert!(prompt.contains("Custom content here"));
}

#[test]
fn test_token_limit() {
    let ctx = sample_context();
    let generator = SystemPromptGenerator::new().with_max_tokens(20); // Very low limit
    let prompt = generator.generate(&ctx);

    // Should be truncated
    assert!(prompt.len() < 200);
    assert!(prompt.contains("truncated"));
}

#[test]
fn test_section_budget() {
    let mut ctx = ResolvedContext::default();
    ctx.platform_rules = "A".repeat(1000); // Long content

    let generator =
        SystemPromptGenerator::new().with_section_budget(PromptSection::Platform, 50);
    let prompt = generator.generate(&ctx);

    // Should be truncated to budget
    assert!(prompt.len() < 500);
    assert!(prompt.contains("truncated"));
}

#[test]
fn test_loaded_skill_formatting() {
    let mut ctx = ResolvedContext::default();
    ctx.loaded_skills.push(LoadedSkill {
        name: "browser-skill".to_string(),
        content: "Content here".to_string(),
        requires_browser: true,
        automation_tab: true,
    });

    let generator = SystemPromptGenerator::new();
    let prompt = generator.generate(&ctx);

    assert!(prompt.contains("browser-skill (Active)"));
    assert!(prompt.contains("requires browser access"));
    assert!(prompt.contains("automation tab"));
}

#[test]
fn prompt_generator_test_estimate_tokens() {
    let content = "This is a test string with about 40 characters.";
    let tokens = SystemPromptGenerator::estimate_tokens(content);
    assert!(tokens > 0);
    assert!(tokens < content.len()); // Should be less than char count
}

#[test]
fn test_prompt_builder() {
    let prompt = PromptBuilder::new()
        .platform("Platform rules")
        .organization("Org conventions")
        .task("Task instructions")
        .build();

    assert!(prompt.contains("Platform rules"));
    assert!(prompt.contains("Org conventions"));
    assert!(prompt.contains("Task instructions"));

    // Verify order
    let platform_pos = prompt.find("Platform rules").unwrap();
    let task_pos = prompt.find("Task instructions").unwrap();
    assert!(platform_pos < task_pos);
}

#[test]
fn test_prompt_builder_custom_separator() {
    let prompt = PromptBuilder::new()
        .with_separator("\n---\n")
        .platform("Platform")
        .task("Task")
        .build();

    assert!(prompt.contains("Platform\n---\nTask"));
}

#[test]
fn test_empty_context() {
    let ctx = ResolvedContext::default();
    let generator = SystemPromptGenerator::new();
    let prompt = generator.generate(&ctx);

    assert!(prompt.is_empty() || prompt.trim().is_empty());
}

#[test]
fn test_section_default_order() {
    assert!(
        PromptSection::Platform.default_order() < PromptSection::Organization.default_order()
    );
    assert!(PromptSection::Organization.default_order() < PromptSection::User.default_order());
    assert!(PromptSection::Task.default_order() < PromptSection::SubAgent.default_order());
    assert!(
        PromptSection::Custom(0).default_order()
            > PromptSection::ToolPermissions.default_order()
    );
}

#[test]
fn platform_section_cannot_be_skipped() {
    let ctx = sample_context();
    let prompt = SystemPromptGenerator::new().skip_section(PromptSection::Platform).generate(&ctx);
    assert!(prompt.contains("Always use English"));
    let mut only_platform = ResolvedContext::default();
    only_platform.platform_rules = "Platform only.".to_string();
    let prompt = SystemPromptGenerator::new()
        .skip_section(PromptSection::Platform)
        .generate(&only_platform);
    assert!(prompt.contains("Platform only."));
}

#[test]
fn builder_sections_hold_their_content() {
    let a = PromptBuilder::new().add_section(5, "b").add_section(0, "a").add_section(5, "c").build();
    assert_eq!(a, "a\n\nb\n\nc");
    assert_eq!(PromptBuilder::new().task("T").platform("P").build(), "P\n\nT");
    let custom = PromptBuilder::new().with_separator("\n---\n").platform("Platform").task("Task");
    assert_eq!(custom.build(), "Platform\n---\nTask");
}
