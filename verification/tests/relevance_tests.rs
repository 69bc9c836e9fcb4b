use gateway_core::context::relevance::{
    estimate_tokens, extract_keywords, keyword_overlap_count, select_within_budget, ItemSource,
    ScoredItem,
};
use std::collections::HashSet;

fn keyword_set(task: &str) -> HashSet<String> {
    extract_keywords(task).into_iter().collect()
}


#[test]
fn test_extract_keywords() {
    let keywords = keyword_set("send an email to the user");
    assert!(keywords.contains("send"));
    assert!(keywords.contains("email"));
    assert!(keywords.contains("user"));
    assert!(!keywords.contains("the"));
    assert!(!keywords.contains("an"));
    assert!(!keywords.contains("to"));
}

#[test]
fn test_item_source_display() {
    assert_eq!(
        ItemSource::Skill("commit".to_string()).to_display_string(),
        "[Skill] commit"
    );
    assert_eq!(
        ItemSource::Knowledge("tool_guidance".to_string()).to_display_string(),
        "[Knowledge] tool_guidance"
    );
    assert_eq!(
        ItemSource::Memory("user_prefs".to_string()).to_display_string(),
        "[Memory] user_prefs"
    );
}

#[test]
fn relevance_test_estimate_tokens() {
    assert_eq!(estimate_tokens("hello world!"), 3); // 12 chars / 4
    assert_eq!(estimate_tokens(""), 0);
    assert_eq!(estimate_tokens("abcd"), 1);
}

#[test]
fn test_extract_keywords_filters_short_words() {
    let keywords = keyword_set("go to my app");
    assert!(!keywords.contains("go"));
    assert!(!keywords.contains("to"));
    assert!(!keywords.contains("my"));
    assert!(keywords.contains("app"));
}

#[test]
fn test_extract_keywords_handles_punctuation() {
    let keywords = keyword_set("send email, then check status.");
    assert!(keywords.contains("send"));
    assert!(keywords.contains("email"));
    assert!(keywords.contains("check"));
    assert!(keywords.contains("status"));
}

#[test]
fn test_item_source_equality() {
    assert_eq!(
        ItemSource::Skill("a".to_string()),
        ItemSource::Skill("a".to_string())
    );
    assert_ne!(
        ItemSource::Skill("a".to_string()),
        ItemSource::Knowledge("a".to_string())
    );
    assert_ne!(
        ItemSource::Skill("a".to_string()),
        ItemSource::Skill("b".to_string())
    );
}

#[test]
fn test_extract_keywords_order_and_duplicates() {
    let keywords = extract_keywords("Deploy APP; deploy app-server with the API");
    assert_eq!(
        keywords,
        vec!["deploy".to_string(), "app".to_string(), "server".to_string(), "api".to_string()]
    );
    assert_eq!(estimate_tokens("日本"), 1);
}

fn item(content: &str, tokens: usize, score: f64, source: ItemSource) -> ScoredItem {
    ScoredItem { content: content.to_string(), tokens, score_bits: score.to_bits(), source }
}

/// The knowledge share of a budget with the default 40% cap.
fn knowledge_cap(budget: usize) -> usize {
    (budget as f64 * 0.4) as usize
}

#[test]
fn test_select_within_budget() {
    let items = vec![
        item("Item A", 100, 0.9, ItemSource::Skill("skill-a".to_string())),
        item("Item B", 100, 0.8, ItemSource::Skill("skill-b".to_string())),
        item("Item C", 100, 0.7, ItemSource::Skill("skill-c".to_string())),
    ];
    let selected = select_within_budget(items, 250, knowledge_cap(250));
    assert_eq!(selected.len(), 2, "Should select 2 items within 250 token budget");
    assert_eq!(f64::from_bits(selected[0].score_bits), 0.9);
    assert_eq!(f64::from_bits(selected[1].score_bits), 0.8);
}

#[test]
fn test_knowledge_budget_cap() {
    let items = vec![
        item("K1", 300, 0.9, ItemSource::Knowledge("cat".to_string())),
        item("K2", 300, 0.8, ItemSource::Knowledge("cat".to_string())),
        item("S1", 200, 0.7, ItemSource::Skill("skill".to_string())),
    ];
    let selected = select_within_budget(items, 1000, knowledge_cap(1000));
    let knowledge_count = selected
        .iter()
        .filter(|i| matches!(i.source, ItemSource::Knowledge(_)))
        .count();
    assert_eq!(knowledge_count, 1, "Only 1 knowledge item should fit in 40% budget");
    assert_eq!(selected.len(), 2);
    assert_eq!(selected[1].content, "S1");
}

#[test]
fn test_select_empty() {
    let selected = select_within_budget(vec![], 1000, knowledge_cap(1000));
    assert!(selected.is_empty());
}

#[test]
fn test_select_skips_items_exceeding_budget_individually() {
    let items = vec![
        item("Big item", 500, 0.9, ItemSource::Skill("big".to_string())),
        item("Small item", 50, 0.8, ItemSource::Skill("small".to_string())),
    ];
    let selected = select_within_budget(items, 100, knowledge_cap(100));
    assert_eq!(selected.len(), 1);
    assert_eq!(selected[0].content, "Small item");
}

#[test]
fn test_memory_source_in_select() {
    let items = vec![
        item("Memory item", 100, 0.9, ItemSource::Memory("user_prefs".to_string())),
        item("Knowledge item", 100, 0.8, ItemSource::Knowledge("tips".to_string())),
    ];
    let selected = select_within_budget(items, 1000, knowledge_cap(1000));
    assert_eq!(selected.len(), 2);
    assert!(matches!(selected[0].source, ItemSource::Memory(_)));
}

#[test]
fn select_exact_budget_fill_and_zero_knowledge_cap() {
    let items = vec![
        item("K", 10, 0.9, ItemSource::Knowledge("k".to_string())),
        item("A", 60, 0.8, ItemSource::Skill("a".to_string())),
        item("B", 40, 0.7, ItemSource::Memory("b".to_string())),
        item("C", 1, 0.6, ItemSource::Skill("c".to_string())),
    ];
    let selected = select_within_budget(items, 100, 0);
    let names: Vec<&str> = selected.iter().map(|i| i.content.as_str()).collect();
    assert_eq!(names, vec!["A", "B"]);
}

#[test]
fn keyword_overlap_counts_tags_and_preview_words() {
    let keywords = extract_keywords("send email via gmail");
    let tags = vec!["Email".to_string(), "gmail".to_string()];
    assert_eq!(keyword_overlap_count(&tags, "Send emails via Gmail", &keywords), 4);
    let other = vec!["kubernetes".to_string(), "deploy".to_string()];
    assert_eq!(keyword_overlap_count(&other, "Deploy to k8s cluster", &keywords), 0);
    assert_eq!(keyword_overlap_count(&tags, "Email tool", &Vec::new()), 0);
}
