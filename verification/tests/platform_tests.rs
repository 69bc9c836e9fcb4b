use gateway_core::context::platform::{
    ContextHierarchyConfig, ContextLayer, IssueRecordingConfig, IterationConfig, LanguageConfig,
    LearningLoopStep, PlatformContext, PlatformContextLoader, SkillLoadingConfig,
    SystemPromptConfig,
};
use gateway_core::context::resolver::{ContextLayer as Layer, ContextPriority, ResolvedContext};
use serde_json::Value;

/// The platform configuration of the reference YAML file, written out.
fn yaml_platform_context() -> PlatformContext {
    PlatformContext {
        language: LanguageConfig {
            default: "en".to_string(),
            enforce_english: true,
            system_prompt_rule: "All responses must be in English.\n".to_string(),
        },
        iteration: IterationConfig {
            enabled: true,
            max_retries: 5,
            auto_record: true,
            learning_loop: vec![
                LearningLoopStep {
                    step: "execute".to_string(),
                    description: "Execute tool".to_string(),
                },
                LearningLoopStep {
                    step: "verify".to_string(),
                    description: "Verify result".to_string(),
                },
            ],
            issue_recording: IssueRecordingConfig {
                deduplicate: true,
                similarity_threshold_bits: 0.85f32.to_bits(),
                format: "minimal".to_string(),
                required_fields: vec!["symptom".to_string(), "solution".to_string()],
                optional_fields: Vec::new(),
            },
        },
        system_prompt: SystemPromptConfig {
            platform_rules: "1. Always verify actions\n2. Log all changes\n".to_string(),
            skill_rules: "Check skill docs first\n".to_string(),
        },
        context_hierarchy: ContextHierarchyConfig {
            layers: vec![
                ContextLayer {
                    name: "platform".to_string(),
                    description: "Global rules".to_string(),
                    scope: "all".to_string(),
                    priority: 1,
                },
                ContextLayer {
                    name: "user".to_string(),
                    description: "User preferences".to_string(),
                    scope: "user".to_string(),
                    priority: 3,
                },
            ],
        },
        skill_loading: SkillLoadingConfig {
            two_layer: true,
            max_description_chars: 10000,
            skill_dir: ".skills".to_string(),
            auto_match: true,
            keyword_threshold_bits: 0.7f32.to_bits(),
        },
    }
}

fn create_test_platform_context() -> PlatformContext {
    PlatformContext {
        language: LanguageConfig {
            default: "en".to_string(),
            enforce_english: true,
            system_prompt_rule: "All output in English.".to_string(),
        },
        iteration: IterationConfig {
            enabled: true,
            max_retries: 3,
            auto_record: true,
            learning_loop: vec![
                LearningLoopStep { step: "execute".to_string(), description: String::new() },
                LearningLoopStep {
                    step: "verify".to_string(),
                    description: "Check results".to_string(),
                },
            ],
            issue_recording: IssueRecordingConfig::default(),
        },
        system_prompt: SystemPromptConfig {
            platform_rules: "Verify after each action.".to_string(),
            skill_rules: String::new(),
        },
        context_hierarchy: ContextHierarchyConfig::default(),
        skill_loading: SkillLoadingConfig::default(),
    }
}

#[test]
fn test_iteration_config_defaults() {
    let config = IterationConfig::default();
    assert!(config.enabled);
    assert_eq!(config.max_retries, 3);
    assert!(config.auto_record);
    assert!(config.learning_loop.is_empty());
}

#[test]
fn test_skill_loading_defaults() {
    let config = SkillLoadingConfig::default();
    assert!(config.two_layer);
    assert_eq!(config.max_description_chars, 15000);
    assert_eq!(config.skill_dir, ".agent/skills");
    assert!(config.auto_match);
    assert!((f32::from_bits(config.keyword_threshold_bits) - 0.6).abs() < f32::EPSILON);
}

#[test]
fn test_issue_recording_defaults() {
    let config = IssueRecordingConfig::default();
    assert!(!config.deduplicate);
    assert!((f32::from_bits(config.similarity_threshold_bits) - 0.8).abs() < f32::EPSILON);
    assert!(config.format.is_empty());
}

#[test]
fn test_platform_context_defaults() {
    let ctx = PlatformContext::default();
    assert!(!ctx.is_english_enforced());
    assert!(ctx.is_iteration_enabled());
    assert!(ctx.get_platform_rules().is_empty());
}

#[test]
fn test_context_hierarchy_sorted() {
    let ctx = yaml_platform_context();

    let sorted = ctx.context_hierarchy.sorted_layers();
    assert_eq!(sorted.len(), 2);
    assert_eq!(sorted[0].name, "platform");
    assert_eq!(sorted[1].name, "user");
}

#[test]
fn test_context_hierarchy_get_layer() {
    let ctx = yaml_platform_context();

    let layer = ctx.context_hierarchy.get_layer("platform");
    assert!(layer.is_some());
    assert_eq!(layer.unwrap().priority, 1);

    let missing = ctx.context_hierarchy.get_layer("nonexistent");
    assert!(missing.is_none());
}

#[test]
fn test_get_system_prompt_injection() {
    let loader = PlatformContextLoader::new("config/platform-rules.yaml");
    let ctx = yaml_platform_context();

    let prompt = loader.get_system_prompt_injection(&ctx);
    assert!(prompt.contains("## Platform Rules"));
    assert!(prompt.contains("English"));
    assert!(prompt.contains("verify"));
}

#[test]
fn test_get_full_system_prompt() {
    let loader = PlatformContextLoader::new("config/platform-rules.yaml");
    let ctx = yaml_platform_context();

    let prompt = loader.get_full_system_prompt(&ctx);
    assert!(prompt.contains("Language Requirements"));
    assert!(prompt.contains("English"));
    assert!(prompt.contains("skill docs"));
}

#[test]
fn test_get_platform_rules() {
    let ctx = yaml_platform_context();

    let rules = ctx.get_platform_rules();
    assert!(rules.contains("verify"));
    assert!(rules.contains("skill docs"));
}

#[test]
fn test_iteration_rules_generation() {
    let platform = create_test_platform_context();
    let rules = platform.get_iteration_rules();

    assert!(rules.contains("Self-Iteration"));
    assert!(rules.contains("EXECUTE"));
    assert!(rules.contains("VERIFY"));
    assert!(rules.contains("Max retries"));
    assert!(rules.contains("3"));
    assert!(rules.contains("Auto-record new issues: enabled"));
}

#[test]
fn test_iteration_rules_disabled() {
    let mut platform = create_test_platform_context();
    platform.iteration.enabled = false;

    let rules = platform.get_iteration_rules();
    assert!(rules.is_empty());
}

#[test]
fn test_iteration_rules_with_description() {
    let platform = create_test_platform_context();
    let rules = platform.get_iteration_rules();

    assert!(rules.contains("Check results"));
}

#[test]
fn test_context_rules_generation() {
    let mut platform = create_test_platform_context();
    platform.context_hierarchy = ContextHierarchyConfig {
        layers: vec![
            ContextLayer {
                name: "platform".to_string(),
                description: "Global rules".to_string(),
                scope: "all".to_string(),
                priority: 1,
            },
            ContextLayer {
                name: "user".to_string(),
                description: "User preferences".to_string(),
                scope: "user".to_string(),
                priority: 3,
            },
        ],
    };

    let rules = platform.get_context_rules();

    assert!(rules.contains("Context Priority"));
    assert!(rules.contains("**platform**"));
    assert!(rules.contains("**user**"));
    assert!(rules.contains("Global rules"));
    assert!(rules.contains("User preferences"));
}

#[test]
fn test_platform_section_generation() {
    let platform = create_test_platform_context();
    let section = platform.generate_platform_section();

    assert!(section.contains("Platform Rules"));
    assert!(section.contains("English"));
    assert!(section.contains("Verify after each action"));
    assert!(section.contains("Self-Iteration"));
}

#[test]
fn test_skill_loading_accessors() {
    let platform = create_test_platform_context();

    assert!(platform.is_two_layer_loading_enabled());
    assert_eq!(platform.max_skill_description_chars(), 15000);

    let config = platform.skill_loading_config();
    assert!(config.two_layer);
    assert!(config.auto_match);
}

#[test]
fn test_generate_full_system_prompt() {
    let loader = PlatformContextLoader::new("config/platform-rules.yaml");
    let platform = create_test_platform_context();

    let skill_descriptions =
        "## Available Skills\n\n- commit: Create git commits\n- review: Review code";

    let prompt = loader.generate_full_system_prompt(&platform, skill_descriptions);

    assert!(prompt.contains("Platform Rules"));
    assert!(prompt.contains("English"));
    assert!(prompt.contains("Available Skills"));
    assert!(prompt.contains("commit"));
    assert!(prompt.contains("review"));
}

#[test]
fn test_generate_full_system_prompt_no_skills() {
    let loader = PlatformContextLoader::new("config/platform-rules.yaml");
    let platform = create_test_platform_context();

    let prompt = loader.generate_full_system_prompt(&platform, "");

    assert!(prompt.contains("Platform Rules"));
    assert!(!prompt.ends_with("\n\n\n"));
}

#[test]
fn test_generate_full_system_prompt_two_layer_disabled() {
    let loader = PlatformContextLoader::new("config/platform-rules.yaml");
    let mut platform = create_test_platform_context();
    platform.skill_loading.two_layer = false;

    let skill_descriptions = "## Available Skills\n\n- commit: Create git commits";

    let prompt = loader.generate_full_system_prompt(&platform, skill_descriptions);

    assert!(prompt.contains("Platform Rules"));
    assert!(!prompt.contains("Available Skills"));
}

#[test]
fn platform_iteration_rules_exact_text() {
    let platform = create_test_platform_context();
    assert_eq!(
        platform.get_iteration_rules(),
        "## Self-Iteration Learning Protocol\n\nWhen a task fails, follow this loop:\n1. EXECUTE\n2. VERIFY\n   Check results\n\nMax retries: 3\nAuto-record new issues: enabled\n"
    );
}

#[test]
fn platform_context_rules_sort_by_priority_and_keep_ties() {
    let mut platform = create_test_platform_context();
    let layer = |name: &str, priority: u32| ContextLayer {
        name: name.to_string(),
        description: String::new(),
        scope: "s".to_string(),
        priority,
    };
    platform.context_hierarchy.layers = vec![layer("c", 5), layer("a", 1), layer("b", 5), layer("d", 2)];
    let sorted: Vec<&str> = platform
        .context_hierarchy
        .sorted_layers()
        .iter()
        .map(|l| l.name.as_str())
        .collect();
    assert_eq!(sorted, vec!["a", "d", "c", "b"]);
    assert_eq!(
        platform.get_context_rules(),
        "## Context Priority\n\nRules are applied in priority order. Higher priority cannot be overridden:\n\n1. **a** (s): \n2. **d** (s): \n5. **c** (s): \n5. **b** (s): \n"
    );
}

#[test]
fn platform_rules_join_with_blank_line() {
    let mut platform = create_test_platform_context();
    platform.system_prompt.skill_rules = "Skills first.".to_string();
    assert_eq!(platform.get_platform_rules(), "Verify after each action.\n\nSkills first.");
    platform.system_prompt.platform_rules = String::new();
    assert_eq!(platform.get_platform_rules(), "Skills first.");
}

#[test]
fn platform_injection_and_full_prompt_exact_text() {
    let loader = PlatformContextLoader::new("config/platform-rules.yaml");
    let platform = create_test_platform_context();
    assert_eq!(
        loader.get_system_prompt_injection(&platform),
        "## Platform Rules\n\nAll output in English.\nVerify after each action."
    );
    assert_eq!(
        loader.get_full_system_prompt(&platform),
        "## Language Requirements\n\nAll output in English.\n\nVerify after each action."
    );
}

#[test]
fn platform_apply_sets_rules_and_config() {
    let platform = create_test_platform_context();
    assert_eq!(platform.layer_name(), "platform");
    assert_eq!(platform.priority(), ContextPriority::Platform);
    let mut resolved = ResolvedContext::default();
    platform.apply_to(&mut resolved);
    assert_eq!(resolved.platform_rules, platform.generate_platform_section());
    assert!(resolved.enforce_english);
    assert_eq!(resolved.get_config("max_skill_description_chars"), Some(&Value::from(15000u64)));
    assert_eq!(resolved.get_config("two_layer_loading"), Some(&Value::Bool(true)));
    assert_eq!(resolved.get_config("iteration_enabled"), Some(&Value::Bool(true)));
    assert_eq!(resolved.get_config("max_retries"), Some(&Value::from(3u64)));
}
