use gateway_core::context::inspector::{sha256_hex, PromptInspection, SectionInfo};
use gateway_core::context::resolver::ResolvedContext;

fn utilization(inspection: &PromptInspection) -> f64 {
    if inspection.total_budget > 0 {
        inspection.total_tokens as f64 / inspection.total_budget as f64
    } else {
        0.0
    }
}


#[test]
fn test_inspection_empty_context() {
    let ctx = ResolvedContext::default();
    let inspection = PromptInspection::from_resolved(&ctx, 8000);

    assert_eq!(inspection.total_tokens, 0);
    assert_eq!(inspection.total_budget, 8000);
    assert_eq!(utilization(&inspection), 0.0);
    assert!(inspection.sections.is_empty());
}

#[test]
fn test_inspection_with_platform_rules() {
    let mut ctx = ResolvedContext::default();
    ctx.platform_rules = "Always use English. Follow best practices.".to_string();

    let inspection = PromptInspection::from_resolved(&ctx, 8000);

    assert_eq!(inspection.sections.len(), 1);
    assert_eq!(inspection.sections[0].name, "L1 Platform Rules");
    assert!(inspection.sections[0].tokens > 0);
    assert!(!inspection.sections[0].content_hash.is_empty());
}

#[test]
fn test_inspection_full_context() {
    let mut ctx = ResolvedContext::default();
    ctx.platform_rules = "Platform rules here".to_string();
    ctx.org_conventions = Some("Org conventions here".to_string());
    ctx.user_preferences = Some("User prefs here".to_string());
    ctx.skill_descriptions = "Skill list here".to_string();
    ctx.task_instructions = Some("Task instructions here".to_string());

    let inspection = PromptInspection::from_resolved(&ctx, 8000);

    assert_eq!(inspection.sections.len(), 5);
    assert!(inspection.total_tokens > 0);
    assert!(utilization(&inspection) > 0.0);
}

#[test]
fn test_inspection_utilization() {
    let mut ctx = ResolvedContext::default();
    // ~250 tokens worth of content (1000 chars / 4)
    ctx.platform_rules = "x".repeat(1000);

    let inspection = PromptInspection::from_resolved(&ctx, 500);

    // Utilization should be around 0.5
    assert!(utilization(&inspection) > 0.3);
}

#[test]
fn test_section_info_new() {
    let info = SectionInfo::new("Test Section", "test/source", "Hello world");

    assert_eq!(info.name, "Test Section");
    assert_eq!(info.source, "test/source");
    assert!(info.tokens > 0);
    assert!(!info.content_hash.is_empty());
    assert!(!info.truncated);
    assert!(info.budget.is_none());
}

#[test]
fn test_section_info_builders() {
    let info = SectionInfo::new("Test", "src", "content")
        .with_budget(100)
        .with_truncated(true);

    assert_eq!(info.budget, Some(100));
    assert!(info.truncated);
}

#[test]
fn test_sha256_deterministic() {
    let h1 = sha256_hex("hello");
    let h2 = sha256_hex("hello");
    assert_eq!(h1, h2);

    let h3 = sha256_hex("world");
    assert_ne!(h1, h3);
}

#[test]
fn test_unlimited_budget() {
    let ctx = ResolvedContext::default();
    let inspection = PromptInspection::from_resolved(&ctx, 0);
    assert_eq!(inspection.total_budget, 0);
    assert_eq!(utilization(&inspection), 0.0);
}

#[test]
fn test_sha256_known_digest() {
    assert_eq!(
        sha256_hex("abc"),
        "ba7816bf8f01cfea414140de5dae2223b00361a396177a9cb410ff61f20015ad"
    );
    let info = SectionInfo::new("n", "s", "abcdefgh");
    assert_eq!(info.tokens, 2);
}

#[test]
fn test_inspection_sections_in_order() {
    let mut ctx = ResolvedContext::default();
    ctx.platform_rules = "P".repeat(40).to_string();
    ctx.task_instructions = Some("T".repeat(8));
    ctx.memory_context = Some("not inspected".to_string());
    let inspection = PromptInspection::from_resolved(&ctx, 100);
    assert_eq!(inspection.sections.len(), 2);
    assert_eq!(inspection.sections[0].source, "config/platform-rules.yaml");
    assert_eq!(inspection.sections[1].name, "L5 Task Instructions");
    assert_eq!(inspection.total_tokens, 12);
    assert!(inspection.rendered_prompt.contains("# Current Task"));
}

#[test]
fn section_hash_is_64_lowercase_hex_digits() {
    let info = SectionInfo::new("Test Section", "test/source", "Hello world");
    assert_eq!(info.tokens, 2);
    assert_eq!(info.content_hash.len(), 64);
    assert_eq!(info.content_hash, "64ec88ca00b268e5ba1a35678a1b5316d212f4f366b2477232534a8aeca37f3c");
}
