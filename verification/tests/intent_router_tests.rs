use gateway_core::automation::intent_router::{
    IntentRouterBuilder,
    DataVolume, IntentRouter, TargetSystem, TaskCategory, TokenSavings,
};
use gateway_core::automation::asset_store::MemoryAssetStore;
use gateway_core::automation::types::{AutomationPath, GeneratedScript, Ratio, ScriptAsset, ScriptType};


#[test]
fn test_target_system_matching() {
    let system = TargetSystem {
        id: "google-sheets".to_string(),
        name: "Google Sheets".to_string(),
        has_api: true,
        api_info: None,
        uses_canvas: true,
        blocks_dom: true,
        url_patterns: vec!["sheets.google.com".to_string()],
        keywords: vec!["google sheets".to_string(), "spreadsheet".to_string()],
    };

    assert!(system.matches_url("https://sheets.google.com/d/abc"));
    assert!(system.matches_keywords("Fill data in Google Sheets"));
    assert!(system.matches_keywords("Update the spreadsheet"));
}

#[test]
fn test_data_volume_from_count() {
    assert_eq!(DataVolume::from_count(3), DataVolume::Tiny);
    assert_eq!(DataVolume::from_count(10), DataVolume::Small);
    assert_eq!(DataVolume::from_count(50), DataVolume::Medium);
    assert_eq!(DataVolume::from_count(500), DataVolume::Large);
    assert_eq!(DataVolume::from_count(5000), DataVolume::VeryLarge);
}

#[test]
fn test_data_volume_should_generate_script() {
    assert!(!DataVolume::Tiny.should_generate_script());
    assert!(!DataVolume::Small.should_generate_script());
    assert!(DataVolume::Medium.should_generate_script());
    assert!(DataVolume::Large.should_generate_script());
}

#[test]
fn test_task_category_detection() {
    let router = IntentRouter::new();

    let analysis = router.analyze_intent("Fill the form with customer data", None);
    assert_eq!(analysis.task_category, TaskCategory::DataEntry);

    let analysis = router.analyze_intent("Extract prices from the website", None);
    assert_eq!(analysis.task_category, TaskCategory::DataExtraction);

    let analysis = router.analyze_intent("Create a new document", None);
    assert_eq!(analysis.task_category, TaskCategory::DocumentCreation);
}

#[test]
fn test_path_decision_savings() {
    let router = IntentRouter::new();
    let analysis = router.analyze_intent("Process 1000 rows in Google Sheets", Some(1000));
    let decision = router.decide_path(&analysis, None);

    // Should have significant savings compared to pure CV
    assert!(savings_percent(&decision.savings) > 90.0);
}

fn savings_percent(savings: &TokenSavings) -> f64 {
    match savings {
        TokenSavings::CachedScript => 99.0,
        TokenSavings::AgainstPureCv { pure_cv_tokens, chosen_tokens } => {
            if *pure_cv_tokens > 0 {
                (1.0 - (*chosen_tokens as f64 / *pure_cv_tokens as f64)) * 100.0
            } else {
                0.0
            }
        }
    }
}

#[test]
fn test_detect_known_systems() {
    let router = IntentRouter::new();
    let systems = &router.known_systems;
    let i = router.detect_target_system("Fill 1000 rows in Google Sheets").unwrap();
    assert_eq!(systems[i].name, "Google Sheets");
    let i = router.detect_target_system("open https://www.figma.com/file/xyz now").unwrap();
    assert_eq!(systems[i].id, "figma");
    let i = router.detect_target_system("look at https://acme.notion.site/page").unwrap();
    assert_eq!(systems[i].id, "notion");
    assert_eq!(router.detect_target_system("buy groceries"), None);
    // keywords win over URLs
    let i = router
        .detect_target_system("update the spreadsheet from https://figma.com/x")
        .unwrap();
    assert_eq!(systems[i].id, "google-sheets");
}

#[test]
fn test_extract_urls_in_order() {
    let urls = IntentRouter::extract_urls("see http://a.com and https://b.org/x, ftp://c");
    assert_eq!(urls, vec!["http://a.com".to_string(), "https://b.org/x,".to_string()]);
    let entities = IntentRouter::extract_entities("go to https://x.io");
    assert_eq!(entities.len(), 1);
    assert_eq!(entities[0].entity_type, "url");
    assert_eq!(entities[0].value, "https://x.io");
}

#[test]
fn test_estimate_volume_from_wording() {
    let router = IntentRouter::new();
    assert_eq!(router.estimate_data_volume("Copy a THOUSAND rows"), DataVolume::Large);
    assert_eq!(router.estimate_data_volume("about 100 entries"), DataVolume::Medium);
    assert_eq!(router.estimate_data_volume("bulk import"), DataVolume::Large);
    assert_eq!(router.estimate_data_volume("a few records"), DataVolume::Small);
    assert_eq!(router.estimate_data_volume("a single record"), DataVolume::Tiny);
    assert_eq!(router.estimate_data_volume("do it"), DataVolume::Unknown);
}

#[test]
fn test_category_navigation_and_unknown() {
    let router = IntentRouter::new();
    assert_eq!(router.detect_task_category("Upload the report"), TaskCategory::FileOperation);
    assert_eq!(router.detect_task_category("Submit"), TaskCategory::FormSubmission);
    assert_eq!(router.detect_task_category("Navigate home"), TaskCategory::Navigation);
    assert_eq!(router.detect_task_category("xyz"), TaskCategory::Unknown);
}

#[test]
fn test_decide_paths() {
    let router = IntentRouter::new();
    // Large canvas task: explore and generate
    let analysis = router.analyze_intent("Fill 1000 rows in Google Sheets", Some(1000));
    let decision = router.decide_path(&analysis, None);
    assert!(matches!(
        decision.path,
        AutomationPath::ExploreAndGenerate { estimated_tokens: 6000, .. }
    ));
    assert_eq!(decision.confidence_pct, 85);
    assert_eq!(decision.alternatives.len(), 2);
    assert_eq!(
        decision.savings,
        TokenSavings::AgainstPureCv { pure_cv_tokens: 5_000_000, chosen_tokens: 6000 }
    );
    // Small task: pure CV
    let analysis = router.analyze_intent("Enter 5 items in a form", Some(5));
    let decision = router.decide_path(&analysis, None);
    assert!(matches!(
        decision.path,
        AutomationPath::PureComputerVision { max_items: 3, estimated_tokens: 60_000 }
    ));
    assert_eq!(decision.reasoning, "Small data volume (3 items), using pure CV");
    assert!(decision.alternatives.is_empty());
    // Notion has a DOM API: direct API
    let analysis = router.analyze_intent("Add pages to Notion", Some(500));
    let decision = router.decide_path(&analysis, None);
    match &decision.path {
        AutomationPath::DirectApi { api_type, api_endpoint } => {
            assert_eq!(api_type, "rest");
            assert_eq!(api_endpoint.as_deref(), Some("https://api.notion.com/v1"));
        }
        _ => panic!("expected an API path"),
    }
    assert_eq!(decision.confidence_pct, 90);
    // A cached script wins
    let decision = router.decide_path(&analysis, Some("s-1".to_string()));
    assert!(matches!(decision.path, AutomationPath::ReuseScript { .. }));
    assert_eq!(decision.confidence_pct, 95);
    assert_eq!(decision.savings, TokenSavings::CachedScript);
}


#[test]
fn test_intent_router_analyze() {
    let router = IntentRouter::new();

    // Test Google Sheets task
    let analysis = router.analyze(None, "Fill 1000 rows in Google Sheets", Some(1000));
    assert_eq!(analysis.target_system, "Google Sheets");
    assert!(matches!(analysis.decision.path, AutomationPath::ExploreAndGenerate { .. }));

    // Test small task
    let analysis = router.analyze(None, "Enter 5 items in a form", Some(5));
    assert!(matches!(analysis.decision.path, AutomationPath::PureComputerVision { .. }));
}

#[test]
fn analyze_reuses_a_cached_script() {
    let router = IntentRouter::new();
    let task = "Fill 1000 rows in Google Sheets";
    let signature = router.generate_task_signature(task);
    assert!(signature.starts_with("task_"));
    assert_eq!(signature, router.generate_task_signature("fill 1000 rows, in google sheets!"));
    assert_ne!(signature, router.generate_task_signature("Fill 999 rows in Google Sheets"));

    let script = GeneratedScript::new(ScriptType::Playwright, "code", "javascript", "h", "x");
    let mut asset = ScriptAsset::from_script(&script);
    asset.id = "cached".to_string();
    asset.task_signature = signature.clone();
    let mut store = MemoryAssetStore::new();
    store.save(asset).unwrap();

    let found = router.find_reusable_script(&store, task);
    assert_eq!(found, Some(("cached".to_string(), Ratio::new(1, 1))));
    let analysis = router.analyze(Some(&store), task, Some(1000));
    match analysis.decision.path {
        AutomationPath::ReuseScript { script_id } => assert_eq!(script_id, "cached"),
        other => panic!("unexpected path {:?}", other),
    }
    assert_eq!(analysis.data_volume, 1000);

    // A poor success rate is not reused.
    store.record_usage("cached", false).unwrap();
    assert_eq!(router.find_reusable_script(&store, task), None);
    let analysis = router.analyze(Some(&store), "Process things", None);
    assert_eq!(analysis.target_system, "unknown");
    assert_eq!(analysis.data_volume, 0);
}

#[test]
fn reusable_script_respects_the_age_limit() {
    let router = IntentRouter::new();
    let task = "Update the Notion board";
    let script = GeneratedScript::new(ScriptType::Playwright, "code", "javascript", "h", "x");
    let mut asset = ScriptAsset::from_script(&script);
    asset.id = "old".to_string();
    asset.task_signature = router.generate_task_signature(task);
    asset.created_at_millis = 0;
    let mut store = MemoryAssetStore::new();
    store.save(asset).unwrap();
    let week_ms: i64 = 86400 * 7 * 1000;
    assert_eq!(
        router.find_reusable_script_at(&store, task, week_ms + 999),
        Some(("old".to_string(), Ratio::new(1, 1)))
    );
    assert_eq!(router.find_reusable_script_at(&store, task, week_ms + 1000), None);
    assert_eq!(router.find_reusable_script_at(&store, "Something else", 0), None);
}

#[test]
fn router_builder_sets_systems_and_thresholds() {
    let extra = IntentRouter::new().known_systems[2].clone();
    let router = IntentRouter::builder()
        .add_system(extra)
        .cv_threshold(3)
        .min_reuse_success_rate(Ratio::new(9, 10))
        .max_script_age(60)
        .prefer_api(false)
        .build();
    assert_eq!(router.known_systems.len(), 6);
    assert_eq!(router.known_systems[5].id, "notion");
    assert_eq!(router.cv_threshold, 3);
    assert_eq!(router.min_reuse_success_rate, Ratio::new(9, 10));
    assert_eq!(router.max_script_age_secs, 60);
    assert!(!router.prefer_api);
    let only = IntentRouterBuilder::new().known_systems(vec![]).build();
    assert!(only.known_systems.is_empty());
    let default = IntentRouterBuilder::default().build();
    assert_eq!(default.known_systems.len(), 5);
    assert_eq!(default.known_systems[0].name, "Google Sheets");
}
