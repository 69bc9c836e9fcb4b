use gateway_core::context::eval::{EvalAssertion, EvalCase, EvalReport, EvalResult, PromptEvaluator};

// -------------------------------------------------------
// Helper to build a simple case with a single assertion
// -------------------------------------------------------
fn single_assertion_case(name: &str, assertion: EvalAssertion) -> EvalCase {
    EvalCase {
        name: name.to_string(),
        description: format!("Test {}", name),
        input: "test input".to_string(),
        assertions: vec![assertion],
        tags: vec!["unit".to_string()],
    }
}


#[test]
fn test_contains_pass() {
    let case = single_assertion_case(
        "contains_pass",
        EvalAssertion::Contains {
            value: "hello".to_string(),
        },
    );
    let result = PromptEvaluator::evaluate(&case, "hello world");
    assert!(result.passed);
    assert_eq!(result.assertions.len(), 1);
    assert!(result.assertions[0].passed);
    assert!(result.assertions[0].message.is_none());
}

#[test]
fn test_contains_fail() {
    let case = single_assertion_case(
        "contains_fail",
        EvalAssertion::Contains {
            value: "missing".to_string(),
        },
    );
    let result = PromptEvaluator::evaluate(&case, "hello world");
    assert!(!result.passed);
    assert!(!result.assertions[0].passed);
    assert!(result.assertions[0].message.is_some());
    assert!(result.assertions[0]
        .message
        .as_ref()
        .unwrap()
        .contains("missing"));
}

#[test]
fn test_contains_empty_prompt() {
    let case = single_assertion_case(
        "contains_empty",
        EvalAssertion::Contains {
            value: "anything".to_string(),
        },
    );
    let result = PromptEvaluator::evaluate(&case, "");
    assert!(!result.passed);
}

#[test]
fn test_contains_empty_value() {
    let case = single_assertion_case(
        "contains_empty_val",
        EvalAssertion::Contains {
            value: "".to_string(),
        },
    );
    let result = PromptEvaluator::evaluate(&case, "any prompt");
    // Empty string is always contained
    assert!(result.passed);
}

#[test]
fn test_not_contains_pass() {
    let case = single_assertion_case(
        "not_contains_pass",
        EvalAssertion::NotContains {
            value: "secret".to_string(),
        },
    );
    let result = PromptEvaluator::evaluate(&case, "hello world");
    assert!(result.passed);
    assert!(result.assertions[0].message.is_none());
}

#[test]
fn test_not_contains_fail() {
    let case = single_assertion_case(
        "not_contains_fail",
        EvalAssertion::NotContains {
            value: "hello".to_string(),
        },
    );
    let result = PromptEvaluator::evaluate(&case, "hello world");
    assert!(!result.passed);
    assert!(result.assertions[0]
        .message
        .as_ref()
        .unwrap()
        .contains("hello"));
}

#[test]
fn test_token_range_within() {
    // "hello world" = 11 chars, ~2 tokens
    let case = single_assertion_case(
        "token_in_range",
        EvalAssertion::TokenRange { min: 1, max: 10 },
    );
    let result = PromptEvaluator::evaluate(&case, "hello world");
    assert!(result.passed);
    assert!(result.assertions[0].message.is_some()); // always has estimated count
}

#[test]
fn test_token_range_too_small() {
    let case = single_assertion_case(
        "token_too_small",
        EvalAssertion::TokenRange { min: 100, max: 200 },
    );
    let result = PromptEvaluator::evaluate(&case, "short");
    assert!(!result.passed);
}

#[test]
fn test_token_range_too_large() {
    let long_prompt = "a".repeat(10000); // ~2500 tokens
    let case = single_assertion_case(
        "token_too_large",
        EvalAssertion::TokenRange { min: 1, max: 100 },
    );
    let result = PromptEvaluator::evaluate(&case, &long_prompt);
    assert!(!result.passed);
}

#[test]
fn test_token_range_exact_boundary() {
    // 400 chars = 100 estimated tokens
    let prompt = "a".repeat(400);
    let case = single_assertion_case(
        "token_exact",
        EvalAssertion::TokenRange { min: 100, max: 100 },
    );
    let result = PromptEvaluator::evaluate(&case, &prompt);
    assert!(result.passed);
}

#[test]
fn test_section_exists_pass() {
    let case = single_assertion_case(
        "section_exists",
        EvalAssertion::SectionExists {
            section_name: "## Rules".to_string(),
        },
    );
    let prompt = "You are an assistant.\n\n## Rules\n- Be helpful\n- Be concise";
    let result = PromptEvaluator::evaluate(&case, prompt);
    assert!(result.passed);
}

#[test]
fn test_section_exists_fail() {
    let case = single_assertion_case(
        "section_missing",
        EvalAssertion::SectionExists {
            section_name: "## Context".to_string(),
        },
    );
    let prompt = "You are an assistant.\n\n## Rules\n- Be helpful";
    let result = PromptEvaluator::evaluate(&case, prompt);
    assert!(!result.passed);
    assert!(result.assertions[0]
        .message
        .as_ref()
        .unwrap()
        .contains("Context"));
}

#[test]
fn test_skill_included_pass() {
    let case = single_assertion_case(
        "skill_included",
        EvalAssertion::SkillIncluded {
            skill_name: "code_review".to_string(),
        },
    );
    let prompt = "You have the Code_Review skill loaded.";
    let result = PromptEvaluator::evaluate(&case, prompt);
    assert!(result.passed); // case-insensitive match
}

#[test]
fn test_skill_included_case_insensitive() {
    let case = single_assertion_case(
        "skill_case",
        EvalAssertion::SkillIncluded {
            skill_name: "DEBUGGING".to_string(),
        },
    );
    let prompt = "Your debugging skills are available.";
    let result = PromptEvaluator::evaluate(&case, prompt);
    assert!(result.passed);
}

#[test]
fn test_skill_included_fail() {
    let case = single_assertion_case(
        "skill_missing",
        EvalAssertion::SkillIncluded {
            skill_name: "browser_automation".to_string(),
        },
    );
    let prompt = "You are a coding assistant.";
    let result = PromptEvaluator::evaluate(&case, prompt);
    assert!(!result.passed);
}

#[test]
fn test_skill_excluded_pass() {
    let case = single_assertion_case(
        "skill_excluded_pass",
        EvalAssertion::SkillExcluded {
            skill_name: "admin_tools".to_string(),
        },
    );
    let prompt = "You are a regular user assistant.";
    let result = PromptEvaluator::evaluate(&case, prompt);
    assert!(result.passed);
}

#[test]
fn test_skill_excluded_fail() {
    let case = single_assertion_case(
        "skill_excluded_fail",
        EvalAssertion::SkillExcluded {
            skill_name: "admin".to_string(),
        },
    );
    let prompt = "You have Admin privileges.";
    let result = PromptEvaluator::evaluate(&case, prompt);
    assert!(!result.passed);
}

#[test]
fn test_knowledge_injected_bracket_marker() {
    let case = single_assertion_case("knowledge_bracket", EvalAssertion::KnowledgeInjected);
    let prompt = "Context:\n[Knowledge]\n- User prefers Rust.";
    let result = PromptEvaluator::evaluate(&case, prompt);
    assert!(result.passed);
}

#[test]
fn test_knowledge_injected_text_marker() {
    let case = single_assertion_case("knowledge_text", EvalAssertion::KnowledgeInjected);
    let prompt = "Based on learned knowledge from previous sessions.";
    let result = PromptEvaluator::evaluate(&case, prompt);
    assert!(result.passed);
}

#[test]
fn test_knowledge_not_injected() {
    let case = single_assertion_case("no_knowledge", EvalAssertion::KnowledgeInjected);
    let prompt = "You are a helpful assistant.";
    let result = PromptEvaluator::evaluate(&case, prompt);
    assert!(!result.passed);
    assert!(result.assertions[0]
        .message
        .as_ref()
        .unwrap()
        .contains("No knowledge"));
}

#[test]
fn test_starts_with_pass() {
    let case = single_assertion_case(
        "starts_with",
        EvalAssertion::StartsWith {
            prefix: "You are".to_string(),
        },
    );
    let result = PromptEvaluator::evaluate(&case, "You are an AI assistant.");
    assert!(result.passed);
}

#[test]
fn test_starts_with_fail() {
    let case = single_assertion_case(
        "starts_with_fail",
        EvalAssertion::StartsWith {
            prefix: "System:".to_string(),
        },
    );
    let result = PromptEvaluator::evaluate(&case, "You are an AI assistant.");
    assert!(!result.passed);
}

#[test]
fn test_ends_with_pass() {
    let case = single_assertion_case(
        "ends_with",
        EvalAssertion::EndsWith {
            suffix: "carefully.".to_string(),
        },
    );
    let result = PromptEvaluator::evaluate(&case, "Please respond carefully.");
    assert!(result.passed);
}

#[test]
fn test_ends_with_fail() {
    let case = single_assertion_case(
        "ends_with_fail",
        EvalAssertion::EndsWith {
            suffix: "period.".to_string(),
        },
    );
    let result = PromptEvaluator::evaluate(&case, "No period here");
    assert!(!result.passed);
}

#[test]
fn test_line_starts_with_pass() {
    let case = single_assertion_case(
        "line_starts",
        EvalAssertion::LineStartsWith {
            prefix: "- Rule:".to_string(),
        },
    );
    let prompt = "## Rules\n- Rule: Be concise\n- Rule: Be accurate";
    let result = PromptEvaluator::evaluate(&case, prompt);
    assert!(result.passed);
}

#[test]
fn test_line_starts_with_fail() {
    let case = single_assertion_case(
        "line_starts_fail",
        EvalAssertion::LineStartsWith {
            prefix: "ERROR:".to_string(),
        },
    );
    let prompt = "line one\nline two\nline three";
    let result = PromptEvaluator::evaluate(&case, prompt);
    assert!(!result.passed);
}

#[test]
fn test_length_range_within() {
    let case = single_assertion_case(
        "length_in_range",
        EvalAssertion::LengthRange { min: 5, max: 20 },
    );
    let result = PromptEvaluator::evaluate(&case, "hello world"); // 11 chars
    assert!(result.passed);
}

#[test]
fn test_length_range_out_of_range() {
    let case = single_assertion_case(
        "length_out",
        EvalAssertion::LengthRange { min: 100, max: 200 },
    );
    let result = PromptEvaluator::evaluate(&case, "short");
    assert!(!result.passed);
}

#[test]
fn test_evaluate_multiple_assertions_all_pass() {
    let case = EvalCase {
        name: "multi_pass".to_string(),
        description: "All assertions pass".to_string(),
        input: "task".to_string(),
        assertions: vec![
            EvalAssertion::Contains {
                value: "assistant".to_string(),
            },
            EvalAssertion::NotContains {
                value: "secret".to_string(),
            },
            EvalAssertion::SectionExists {
                section_name: "## Rules".to_string(),
            },
        ],
        tags: vec![],
    };
    let prompt = "You are an assistant.\n\n## Rules\nBe helpful.";
    let result = PromptEvaluator::evaluate(&case, prompt);
    assert!(result.passed);
    assert_eq!(result.assertions.len(), 3);
    assert!(result.assertions.iter().all(|a| a.passed));
}

#[test]
fn test_evaluate_multiple_assertions_one_fails() {
    let case = EvalCase {
        name: "multi_fail".to_string(),
        description: "One assertion fails".to_string(),
        input: "task".to_string(),
        assertions: vec![
            EvalAssertion::Contains {
                value: "assistant".to_string(),
            },
            EvalAssertion::Contains {
                value: "MISSING_SECTION".to_string(),
            },
            EvalAssertion::NotContains {
                value: "secret".to_string(),
            },
        ],
        tags: vec![],
    };
    let prompt = "You are an assistant.";
    let result = PromptEvaluator::evaluate(&case, prompt);
    assert!(!result.passed);
    assert!(result.assertions[0].passed);
    assert!(!result.assertions[1].passed);
    assert!(result.assertions[2].passed);
}

#[test]
fn test_evaluate_empty_assertions() {
    let case = EvalCase {
        name: "empty".to_string(),
        description: "No assertions".to_string(),
        input: "task".to_string(),
        assertions: vec![],
        tags: vec![],
    };
    let result = PromptEvaluator::evaluate(&case, "any prompt");
    // No assertions means vacuously true
    assert!(result.passed);
    assert_eq!(result.assertions.len(), 0);
}

#[test]
fn test_evaluate_has_duration() {
    let case = single_assertion_case(
        "timing",
        EvalAssertion::Contains {
            value: "test".to_string(),
        },
    );
    let result = PromptEvaluator::evaluate(&case, "test prompt");
    // Duration should be non-negative (may be 0 for fast operations)
    assert!(result.duration_ms <= 1000); // sanity check: should be fast
}

#[test]
fn test_evaluate_case_name_preserved() {
    let case = single_assertion_case(
        "my_unique_name",
        EvalAssertion::Contains {
            value: "x".to_string(),
        },
    );
    let result = PromptEvaluator::evaluate(&case, "x");
    assert_eq!(result.case_name, "my_unique_name");
}

#[test]
fn test_evaluate_all_all_pass() {
    let cases = vec![
        single_assertion_case(
            "case1",
            EvalAssertion::Contains {
                value: "hello".to_string(),
            },
        ),
        single_assertion_case(
            "case2",
            EvalAssertion::NotContains {
                value: "secret".to_string(),
            },
        ),
    ];
    let report = PromptEvaluator::evaluate_all(&cases, "hello world");
    assert_eq!(report.total, 2);
    assert_eq!(report.passed, 2);
    assert_eq!(report.failed, 0);
    assert!(report.all_passed());
}

#[test]
fn test_evaluate_all_mixed_results() {
    let cases = vec![
        single_assertion_case(
            "pass_case",
            EvalAssertion::Contains {
                value: "hello".to_string(),
            },
        ),
        single_assertion_case(
            "fail_case",
            EvalAssertion::Contains {
                value: "missing".to_string(),
            },
        ),
        single_assertion_case(
            "pass_case_2",
            EvalAssertion::NotContains {
                value: "secret".to_string(),
            },
        ),
    ];
    let report = PromptEvaluator::evaluate_all(&cases, "hello world");
    assert_eq!(report.total, 3);
    assert_eq!(report.passed, 2);
    assert_eq!(report.failed, 1);
    assert!(!report.all_passed());
}

#[test]
fn test_evaluate_all_empty_cases() {
    let cases: Vec<EvalCase> = vec![];
    let report = PromptEvaluator::evaluate_all(&cases, "any prompt");
    assert_eq!(report.total, 0);
    assert_eq!(report.passed, 0);
    assert_eq!(report.failed, 0);
    assert!(report.all_passed());
}

#[test]
fn test_evaluate_with_tags_filters_correctly() {
    let cases = vec![
        EvalCase {
            name: "basic_check".to_string(),
            description: "Basic check".to_string(),
            input: "task".to_string(),
            assertions: vec![EvalAssertion::Contains {
                value: "hello".to_string(),
            }],
            tags: vec!["basic".to_string(), "smoke".to_string()],
        },
        EvalCase {
            name: "advanced_check".to_string(),
            description: "Advanced check".to_string(),
            input: "task".to_string(),
            assertions: vec![EvalAssertion::Contains {
                value: "advanced".to_string(),
            }],
            tags: vec!["advanced".to_string()],
        },
        EvalCase {
            name: "smoke_check".to_string(),
            description: "Smoke check".to_string(),
            input: "task".to_string(),
            assertions: vec![EvalAssertion::Contains {
                value: "hello".to_string(),
            }],
            tags: vec!["smoke".to_string()],
        },
    ];

    // Only run "smoke" tagged cases
    let report = PromptEvaluator::evaluate_with_tags(&cases, "hello world", &["smoke"]);
    assert_eq!(report.total, 2); // basic_check (has smoke) + smoke_check
    assert_eq!(report.passed, 2);
}

#[test]
fn test_evaluate_with_tags_no_match() {
    let cases = vec![single_assertion_case(
        "tagged",
        EvalAssertion::Contains {
            value: "x".to_string(),
        },
    )];
    let report = PromptEvaluator::evaluate_with_tags(&cases, "x", &["nonexistent_tag"]);
    assert_eq!(report.total, 0);
}

#[test]
fn test_report_failed_cases() {
    let report = EvalReport {
        results: vec![
            EvalResult {
                case_name: "pass_case".to_string(),
                passed: true,
                assertions: vec![],
                duration_ms: 0,
            },
            EvalResult {
                case_name: "fail_case_1".to_string(),
                passed: false,
                assertions: vec![],
                duration_ms: 0,
            },
            EvalResult {
                case_name: "fail_case_2".to_string(),
                passed: false,
                assertions: vec![],
                duration_ms: 0,
            },
        ],
        total: 3,
        passed: 1,
        failed: 2,
        total_duration_ms: 0,
    };
    let failed = report.failed_cases();
    assert_eq!(failed.len(), 2);
    assert!(failed.contains(&"fail_case_1"));
    assert!(failed.contains(&"fail_case_2"));
}

#[test]
fn test_report_all_passed_true() {
    let report = EvalReport {
        results: vec![],
        total: 5,
        passed: 5,
        failed: 0,
        total_duration_ms: 0,
    };
    assert!(report.all_passed());
}

#[test]
fn test_report_all_passed_false() {
    let report = EvalReport {
        results: vec![],
        total: 5,
        passed: 4,
        failed: 1,
        total_duration_ms: 0,
    };
    assert!(!report.all_passed());
}

#[test]
fn test_realistic_prompt_with_failures() {
    let prompt = "You are an assistant.\nDo stuff.";

    let cases = vec![
        EvalCase {
            name: "has_rules".to_string(),
            description: "Must have rules".to_string(),
            input: "any".to_string(),
            assertions: vec![EvalAssertion::SectionExists {
                section_name: "## Rules".to_string(),
            }],
            tags: vec!["structure".to_string()],
        },
        EvalCase {
            name: "has_skills".to_string(),
            description: "Must have skills".to_string(),
            input: "any".to_string(),
            assertions: vec![EvalAssertion::SectionExists {
                section_name: "## Skills".to_string(),
            }],
            tags: vec!["structure".to_string()],
        },
        EvalCase {
            name: "has_identity".to_string(),
            description: "Must start with identity".to_string(),
            input: "any".to_string(),
            assertions: vec![EvalAssertion::StartsWith {
                prefix: "You are".to_string(),
            }],
            tags: vec!["identity".to_string()],
        },
    ];

    let report = PromptEvaluator::evaluate_all(&cases, prompt);
    assert_eq!(report.total, 3);
    assert_eq!(report.passed, 1); // only "has_identity" passes
    assert_eq!(report.failed, 2);

    let failed = report.failed_cases();
    assert!(failed.contains(&"has_rules"));
    assert!(failed.contains(&"has_skills"));
    assert!(!failed.contains(&"has_identity"));
}

#[test]
fn test_realistic_system_prompt_eval() {
    let prompt = "\
You are Canal, an AI coding assistant.

## Rules
- Always respond in English
- Be concise and accurate
- Use code blocks for code

## Skills
- code_review: Analyze code for issues
- debugging: Help debug problems

## Context
[Knowledge]
- User prefers Rust programming language
- User uses VS Code editor";

    let case = |name: &str, description: &str, input: &str, assertions: Vec<EvalAssertion>, tag: &str| EvalCase {
        name: name.to_string(),
        description: description.to_string(),
        input: input.to_string(),
        assertions,
        tags: vec![tag.to_string()],
    };
    let cases = vec![
        case(
            "has_identity",
            "Prompt establishes agent identity",
            "any",
            vec![
                EvalAssertion::StartsWith { prefix: "You are".to_string() },
                EvalAssertion::Contains { value: "Canal".to_string() },
            ],
            "identity",
        ),
        case(
            "has_rules",
            "Prompt has rules section",
            "any",
            vec![
                EvalAssertion::SectionExists { section_name: "## Rules".to_string() },
                EvalAssertion::Contains { value: "English".to_string() },
            ],
            "structure",
        ),
        case(
            "skills_loaded",
            "Required skills are present",
            "code review task",
            vec![
                EvalAssertion::SkillIncluded { skill_name: "code_review".to_string() },
                EvalAssertion::SkillIncluded { skill_name: "debugging".to_string() },
                EvalAssertion::SkillExcluded { skill_name: "browser_automation".to_string() },
            ],
            "skills",
        ),
        case("knowledge_present", "Knowledge is injected", "any", vec![EvalAssertion::KnowledgeInjected], "knowledge"),
        case(
            "no_secrets",
            "No secrets or API keys leaked",
            "any",
            vec![
                EvalAssertion::NotContains { value: "API_KEY".to_string() },
                EvalAssertion::NotContains { value: "password".to_string() },
                EvalAssertion::NotContains { value: "Bearer ".to_string() },
            ],
            "security",
        ),
        case(
            "token_budget",
            "Prompt is within token budget",
            "any",
            vec![EvalAssertion::TokenRange { min: 10, max: 5000 }],
            "budget",
        ),
    ];

    let report = PromptEvaluator::evaluate_all(&cases, prompt);
    assert_eq!(report.total, 6);
    assert_eq!(report.passed, 6);
    assert_eq!(report.failed, 0);
    assert!(report.all_passed());
    let pass_rate = report.passed as f64 / report.total as f64 * 100.0;
    assert!((pass_rate - 100.0).abs() < f64::EPSILON);
}

#[test]
fn length_range_counts_characters() {
    let case = single_assertion_case("chars", EvalAssertion::LengthRange { min: 2, max: 2 });
    assert!(!PromptEvaluator::evaluate(&case, "\u{e9}").passed);
    let case = single_assertion_case("chars", EvalAssertion::LengthRange { min: 1, max: 1 });
    let result = PromptEvaluator::evaluate(&case, "\u{e9}");
    assert!(result.passed);
}

#[test]
fn untagged_cases_are_never_run() {
    // The untagged case's excerpt would cut a character in half; it is never
    // checked because it does not carry the tag.
    let mut uncheckable = single_assertion_case("cut", EvalAssertion::StartsWith { prefix: "ab".to_string() });
    uncheckable.tags = vec!["other".to_string()];
    let mut tagged = single_assertion_case("ok", EvalAssertion::Contains { value: "\u{e9}".to_string() });
    tagged.tags = vec!["smoke".to_string()];
    let report = PromptEvaluator::evaluate_with_tags(&[uncheckable, tagged], "\u{e9}\u{e9}", &["smoke"]);
    assert_eq!(report.total, 1);
    assert_eq!(report.passed, 1);
}
