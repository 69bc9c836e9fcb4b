use gateway_core::context::resolver::{ContextLayer, ContextPriority, ResolvedContext};
use gateway_core::context::user::{
    CodingStyle, CommunicationPrefs, MemoryItem, UserContext, UserContextLoader, UserPreferences,
};
use serde_json::Value;
use uuid::Uuid;

#[test]
fn test_user_context_default() {
    let ctx = UserContext::default();
    assert_eq!(ctx.user_id, Uuid::nil());
    assert!(ctx.instructions_content.is_none());
    assert!(ctx.memory_items.is_empty());
}

#[test]
fn test_user_preferences_default() {
    let prefs = UserPreferences::default();
    assert!(prefs.coding_style.is_none());
    assert!(prefs.communication.is_none());
    assert!(prefs.custom.is_empty());
}

#[test]
fn test_user_context_applies_preferences() {
    let user = UserContext {
        user_id: Uuid::new_v4(),
        preferences: UserPreferences {
            coding_style: Some(CodingStyle {
                prefer_explicit_types: true,
                max_line_length: Some(100),
                prefer_functional: false,
            }),
            communication: Some(CommunicationPrefs {
                verbosity: "minimal".to_string(),
                include_explanations: true,
            }),
            custom: Default::default(),
        },
        instructions_content: Some("Custom instructions here".to_string()),
        memory_items: vec![],
    };

    let mut resolved = ResolvedContext::default();
    user.apply_to(&mut resolved);

    assert!(resolved.user_preferences.is_some());
    let prefs = resolved.user_preferences.unwrap();
    assert!(prefs.contains("explicit type"));
    assert!(prefs.contains("100"));
    assert!(prefs.contains("minimal"));
    assert!(prefs.contains("Custom instructions"));
}

#[test]
fn test_user_context_applies_memory_items() {
    let user = UserContext {
        user_id: Uuid::new_v4(),
        preferences: UserPreferences::default(),
        instructions_content: None,
        memory_items: vec![
            MemoryItem {
                category: "preference".to_string(),
                key: "favorite_language".to_string(),
                value: Value::String("Rust".to_string()),
                confidence_bits: 0.9f32.to_bits(),
                source: "explicit".to_string(),
            },
            MemoryItem {
                category: "fact".to_string(),
                key: "low_confidence_item".to_string(),
                value: Value::String("ignored".to_string()),
                confidence_bits: 0.5f32.to_bits(),
                source: "inferred".to_string(),
            },
        ],
    };

    let mut resolved = ResolvedContext::default();
    user.apply_to(&mut resolved);

    let prefs = resolved.user_preferences.unwrap();
    assert!(prefs.contains("favorite_language"));
    assert!(prefs.contains("Rust"));
    assert!(!prefs.contains("low_confidence_item"));
}

#[test]
fn test_user_context_layer_name() {
    let user = UserContext::default();
    assert_eq!(user.layer_name(), "user");
}

#[test]
fn test_user_context_priority() {
    let user = UserContext::default();
    assert_eq!(user.priority(), ContextPriority::User);
}

#[test]
fn test_loader_debug() {
    let loader = UserContextLoader::new("/tmp/test");
    let debug = format!("{:?}", loader);
    assert!(debug.contains("UserContextLoader"));
    assert!(debug.contains("/tmp/test"));
    assert!(debug.contains("has_pool"));
}

#[test]
fn user_preferences_exact_text() {
    let user = UserContext {
        user_id: Uuid::nil(),
        preferences: UserPreferences {
            coding_style: Some(CodingStyle {
                prefer_explicit_types: false,
                max_line_length: Some(80),
                prefer_functional: true,
            }),
            communication: Some(CommunicationPrefs {
                verbosity: "detailed".to_string(),
                include_explanations: false,
            }),
            custom: vec![("theme".to_string(), Value::String("dark".to_string()))],
        },
        instructions_content: Some("# My Rules\n- Be concise".to_string()),
        memory_items: vec![MemoryItem {
            category: "preference".to_string(),
            key: "editor".to_string(),
            value: Value::String("neovim".to_string()),
            confidence_bits: 0.7f32.to_bits(),
            source: "conversation".to_string(),
        }],
    };
    assert_eq!(
        user.preferences_text(),
        "## User Preferences\n\n- Max line length: 80\n- Prefer functional programming patterns\n- Verbosity: detailed\n- Skip explanations, show code only\n\n### Custom Preferences\n\n- theme: \"dark\"\n\n### From the instructions file\n\n# My Rules\n- Be concise\n\n### User Memory\n\n- editor: \"neovim\"\n"
    );
}

#[test]
fn user_memory_confidence_edges() {
    let item = |key: &str, c: f32| MemoryItem {
        category: "fact".to_string(),
        key: key.to_string(),
        value: Value::from(1),
        confidence_bits: c.to_bits(),
        source: "explicit".to_string(),
    };
    let mut user = UserContext::default();
    user.memory_items = vec![
        item("just_below", 0.6999999),
        item("negative", -1.0),
        item("nan", f32::NAN),
        item("infinite", f32::INFINITY),
    ];
    let text = user.preferences_text();
    assert!(!text.contains("just_below"));
    assert!(!text.contains("negative"));
    assert!(!text.contains("nan"));
    assert!(text.contains("- infinite: 1\n"));
    user.memory_items.truncate(3);
    assert_eq!(user.preferences_text(), "## User Preferences\n\n");
}

#[test]
fn user_context_with_instructions() {
    let id = Uuid::new_v4();
    let user = UserContext::with_instructions(id, Some("Rules\n".to_string()));
    assert_eq!(user.user_id, id);
    assert_eq!(user.preferences_text(), "## User Preferences\n\n\n### From the instructions file\n\nRules\n");
    assert!(!UserContextLoader::new("/tmp/x").has_pool());
}
