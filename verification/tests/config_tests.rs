use gateway_core::config::{
    merge_configs, merge_discovered_configs, split_frontmatter, AgentFileConfig,
    AgentFileConfigError, AgentFileConfigLoader, AgentFileFrontmatter, CompactionDef,
    InheritanceResolution, PermissionsConfig, ResolutionStep, ToolsConfig,
};
use serde_json::Value;

fn config(frontmatter: AgentFileFrontmatter, body: &str) -> AgentFileConfig {
    AgentFileConfig::from_parts(frontmatter, body)
}

fn named(name: &str, extends: Option<&str>) -> AgentFileFrontmatter {
    let mut f = AgentFileFrontmatter::default();
    f.name = Some(name.to_string());
    f.extends = extends.map(|e| e.to_string());
    f
}

fn tools(allowed: &[&str], blocked: &[&str]) -> ToolsConfig {
    ToolsConfig {
        allowed: allowed.iter().map(|s| s.to_string()).collect(),
        blocked: blocked.iter().map(|s| s.to_string()).collect(),
        config: None,
    }
}

#[test]
fn test_parse_no_frontmatter() {
    let input = r#"# Just Markdown

No frontmatter here.
"#;

    let (front, body) = split_frontmatter(input).unwrap();
    assert!(front.is_empty());
    let config = config(AgentFileFrontmatter::default(), &body);
    assert!(config.frontmatter.name.is_none());
    assert!(config.content.contains("Just Markdown"));
}

#[test]
fn test_validate_tool_conflict() {
    let mut f = AgentFileFrontmatter::default();
    f.tools = Some(tools(&["Bash"], &["Bash"]));
    let config = config(f, "");
    let result = config.validate();
    assert!(result.is_err());
}

#[test]
fn test_config_inheritance() {
    let mut parent_fm = named("parent", None);
    parent_fm.model = Some("sonnet-4-6".to_string());
    parent_fm.max_turns = Some(100);
    parent_fm.tools = Some(tools(&["Read", "Write"], &[]));
    let parent = config(parent_fm, "# Parent Instructions\n\nBase rules.");

    let mut child_fm = named("child", Some("parent"));
    child_fm.max_turns = Some(50);
    child_fm.tools = Some(tools(&["Edit"], &["Write"]));
    let child = config(child_fm, "# Child Instructions\n\nAdditional rules.");

    let mut loader = AgentFileConfigLoader::new();
    loader.register("parent", parent);

    let mut resolution = InheritanceResolution::new();
    let resolved = match resolution.add(child) {
        ResolutionStep::NeedParent(name) => {
            assert_eq!(name, "parent");
            let parent = loader.registered(&name).unwrap().clone();
            match resolution.add(parent) {
                ResolutionStep::Done(r) => r,
                other => panic!("unexpected step {:?}", other),
            }
        },
        other => panic!("unexpected step {:?}", other),
    };

    assert_eq!(resolved.frontmatter.max_turns, Some(50));
    assert_eq!(resolved.frontmatter.model, Some("sonnet-4-6".to_string()));
    let tools = resolved.frontmatter.tools.as_ref().unwrap();
    assert_eq!(tools.allowed, vec!["Edit"]);
    assert!(tools.blocked.contains(&"Write".to_string()));
    assert!(resolved.content.contains("Parent Instructions"));
    assert!(resolved.content.contains("Child Instructions"));
}

#[test]
fn test_circular_inheritance() {
    let a = config(named("a", Some("b")), "");
    let b = config(named("b", Some("a")), "");

    let mut loader = AgentFileConfigLoader::new();
    loader.register("a", a.clone());
    loader.register("b", b);

    let mut resolution = InheritanceResolution::new();
    let mut step = resolution.add(a);
    let result = loop {
        match step {
            ResolutionStep::NeedParent(name) => {
                let next = loader.registered(&name).unwrap().clone();
                step = resolution.add(next);
            },
            ResolutionStep::Done(r) => break Ok(r),
            ResolutionStep::Failed(e) => break Err(e),
        }
    };
    assert!(result.is_err());
    let err = result.unwrap_err();
    assert!(matches!(err, AgentFileConfigError::CircularInheritance(_)));
    assert_eq!(
        err.message(),
        "Circular inheritance detected: Circular inheritance detected: [\"a\", \"b\"] -> a"
    );
}

#[test]
fn config_split_frontmatter_cases() {
    let (front, body) = split_frontmatter("  ---\nname: x\n---\n\n# Body\n").unwrap();
    assert_eq!(front, "name: x");
    assert_eq!(body, "# Body");
    let (front, body) = split_frontmatter("plain text  ").unwrap();
    assert_eq!(front, "");
    assert_eq!(body, "plain text");
    match split_frontmatter("---\nname: x\n") {
        Err(AgentFileConfigError::InvalidFrontmatter(m)) => {
            assert_eq!(m, "Missing closing --- for frontmatter")
        },
        other => panic!("unexpected {:?}", other),
    }
}

#[test]
fn config_validate_directories_and_messages() {
    let mut f = AgentFileFrontmatter::default();
    f.permissions = Some(PermissionsConfig {
        mode: None,
        allowed_directories: vec!["/home/user/projects".to_string()],
        blocked_directories: vec!["/tmp".to_string(), "/home/user//projects/".to_string()],
        allowed_commands: Vec::new(),
        blocked_commands: Vec::new(),
    });
    let c = config(f, "");
    match c.validate() {
        Err(e) => assert_eq!(
            e.message(),
            "Validation error: Directory '/home/user//projects/' is both allowed and blocked"
        ),
        Ok(()) => panic!("expected a conflict"),
    }
    let mut f = AgentFileFrontmatter::default();
    f.tools = Some(tools(&["Read", "Bash"], &["Write", "Bash"]));
    match config(f, "").validate() {
        Err(AgentFileConfigError::Validation(m)) => {
            assert_eq!(m, "Tool 'Bash' is both allowed and blocked")
        },
        other => panic!("unexpected {:?}", other),
    }
    assert!(config(AgentFileFrontmatter::default(), "").validate().is_ok());
}

#[test]
fn config_merge_maps_compaction_and_content() {
    let mut pf = AgentFileFrontmatter::default();
    pf.metadata = Some(vec![
        ("team".to_string(), Value::from("core")),
        ("tier".to_string(), Value::from(1)),
    ]);
    pf.compaction = Some(CompactionDef {
        enabled: Some(true),
        max_context_tokens: Some(1000),
        min_messages_to_keep: None,
        target_tokens: Some(500),
    });
    let mut cf = AgentFileFrontmatter::default();
    cf.metadata = Some(vec![("tier".to_string(), Value::from(2))]);
    cf.compaction = Some(CompactionDef {
        enabled: None,
        max_context_tokens: Some(2000),
        min_messages_to_keep: Some(4),
        target_tokens: None,
    });
    let m = merge_configs(config(pf, "Parent"), config(cf, ""));
    let meta = m.frontmatter.metadata.unwrap();
    let get = |k: &str| meta.iter().find(|(key, _)| key == k).map(|(_, v)| v.clone());
    assert_eq!(get("team"), Some(Value::from("core")));
    assert_eq!(get("tier"), Some(Value::from(2)));
    let c = m.frontmatter.compaction.unwrap();
    assert_eq!(c.enabled, Some(true));
    assert_eq!(c.max_context_tokens, Some(2000));
    assert_eq!(c.min_messages_to_keep, Some(4));
    assert_eq!(c.target_tokens, Some(500));
    assert_eq!(m.content, "Parent");
}

#[test]
fn config_merge_discovered_in_order() {
    let mut a = AgentFileFrontmatter::default();
    a.max_turns = Some(10);
    a.extends = Some("base".to_string());
    let mut b = AgentFileFrontmatter::default();
    b.model = Some("opus-4-6".to_string());
    let merged = merge_discovered_configs(vec![config(a, "Root rules"), config(b, "Local rules")]).unwrap();
    assert_eq!(merged.frontmatter.max_turns, Some(10));
    assert_eq!(merged.frontmatter.model, Some("opus-4-6".to_string()));
    assert!(merged.frontmatter.extends.is_none());
    assert_eq!(merged.content, "Root rules\n\nLocal rules");
}

#[test]
fn config_root_without_parent_resolves_to_itself() {
    let mut resolution = InheritanceResolution::new();
    match resolution.add(config(named("solo", None), "Body")) {
        ResolutionStep::Done(r) => {
            assert_eq!(r.name(), Some("solo"));
            assert_eq!(r.system_prompt(), "Body");
        },
        other => panic!("unexpected {:?}", other),
    }
    assert!(resolution.chain().is_empty());
}
