use gateway_core::context::user::{CodingStyle, CommunicationPrefs};
use gateway_core::context::platform::{LanguageConfig, PlatformContextLoader};


#[test]
fn test_coding_style_default() {
    let style = CodingStyle::default();
    assert!(!style.prefer_explicit_types);
    assert!(style.max_line_length.is_none());
    assert!(!style.prefer_functional);
}

#[test]
fn test_communication_prefs_default() {
    let comm = CommunicationPrefs::default();
    assert_eq!(comm.verbosity, "normal");
    assert!(comm.include_explanations);
}


#[test]
fn test_language_config_defaults() {
    let config = LanguageConfig::default();
    assert_eq!(config.default, "en");
    assert!(!config.enforce_english);
    assert!(config.system_prompt_rule.is_empty());
}

#[test]
fn test_debug_impl() {
    let loader = PlatformContextLoader::new("test/path.yaml");
    let debug = format!("{:?}", loader);
    assert!(debug.contains("PlatformContextLoader"));
    assert!(debug.contains("test/path.yaml"));
}

#[test]
fn test_loader_path_and_missing_file() {
    let loader = PlatformContextLoader::new("no/such/dir/platform-rules.yaml");
    assert_eq!(
        loader.config_path(),
        std::path::Path::new("no/such/dir/platform-rules.yaml")
    );
    assert!(!loader.config_exists());
}
