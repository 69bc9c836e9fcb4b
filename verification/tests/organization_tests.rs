use gateway_core::context::organization::{
    CodeStyleRules, ConventionRules, OrganizationContext, OrganizationRules,
};
use gateway_core::context::resolver::{ContextLayer, ContextPriority, ResolvedContext};
use uuid::Uuid;


#[test]
fn test_organization_context_default() {
    let ctx = OrganizationContext::default();
    assert_eq!(ctx.id, Uuid::nil());
    assert!(ctx.name.is_empty());
    assert!(ctx.context_rules.team_knowledge.is_empty());
    assert!(ctx.shared_memory.is_empty());
}

#[test]
fn test_org_context_applies_conventions() {
    let org = OrganizationContext {
        id: Uuid::new_v4(),
        name: "Test Org".to_string(),
        context_rules: OrganizationRules {
            code_style: Some(CodeStyleRules {
                language: "rust".to_string(),
                formatting: Some("rustfmt".to_string()),
                testing: Some("cargo test".to_string()),
                linting: None,
                documentation: None,
            }),
            conventions: Some(ConventionRules {
                commit_prefix: Some("[TEST]".to_string()),
                branch_pattern: Some("feature/".to_string()),
                pr_title_format: None,
                review_requirements: None,
            }),
            team_knowledge: vec!["Use axum for HTTP".to_string()],
        },
        shared_memory: vec!["Previous decision: use tokio runtime".to_string()],
    };

    let mut resolved = ResolvedContext::default();
    org.apply_to(&mut resolved);

    assert!(resolved.org_conventions.is_some());
    let conv = resolved.org_conventions.unwrap();

    // Check all expected content is present
    assert!(conv.contains("Test Org"));
    assert!(conv.contains("rust"));
    assert!(conv.contains("rustfmt"));
    assert!(conv.contains("[TEST]"));
    assert!(conv.contains("feature/"));
    assert!(conv.contains("Use axum for HTTP"));
    assert!(conv.contains("use tokio runtime"));
}

#[test]
fn test_org_context_layer_metadata() {
    let org = OrganizationContext::default();

    assert_eq!(org.layer_name(), "organization");
    assert_eq!(org.priority(), ContextPriority::Organization);
}

#[test]
fn test_org_context_minimal_apply() {
    let org = OrganizationContext {
        id: Uuid::new_v4(),
        name: "Minimal Org".to_string(),
        context_rules: OrganizationRules::default(),
        shared_memory: vec![],
    };

    let mut resolved = ResolvedContext::default();
    org.apply_to(&mut resolved);

    assert!(resolved.org_conventions.is_some());
    let conv = resolved.org_conventions.unwrap();
    assert!(conv.contains("Minimal Org"));
}

#[test]
fn test_code_style_rules_default() {
    let rules = CodeStyleRules::default();
    assert!(rules.language.is_empty());
    assert!(rules.formatting.is_none());
    assert!(rules.testing.is_none());
}

#[test]
fn test_convention_rules_default() {
    let rules = ConventionRules::default();
    assert!(rules.commit_prefix.is_none());
    assert!(rules.branch_pattern.is_none());
    assert!(rules.pr_title_format.is_none());
}

#[test]
fn test_org_conventions_exact_text() {
    let org = OrganizationContext {
        id: Uuid::nil(),
        name: "Acme".to_string(),
        context_rules: OrganizationRules {
            code_style: Some(CodeStyleRules {
                language: "rust".to_string(),
                formatting: None,
                testing: None,
                linting: Some("clippy".to_string()),
                documentation: None,
            }),
            conventions: None,
            team_knowledge: vec![],
        },
        shared_memory: vec!["a".to_string(), "b".to_string()],
    };
    let mut resolved = ResolvedContext::default();
    resolved.platform_rules = "kept".to_string();
    org.apply_to(&mut resolved);
    assert_eq!(
        resolved.org_conventions.as_deref(),
        Some(
            "## Acme Organization Conventions\n\n### Code Style\n- Language: rust\n- Linting: clippy\n\n### Shared Memory\n- a\n- b\n"
        )
    );
    assert_eq!(resolved.platform_rules, "kept");
}
