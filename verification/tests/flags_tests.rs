use gateway_core::context::flags::{user_id_hash, ContextResolverFlags};
use uuid::Uuid;


#[test]
fn test_default_flags() {
    let flags = ContextResolverFlags::default();
    assert_eq!(flags.scoring_rollout_pct, 0);
    assert!(!flags.memory_dual_write);
    assert!(flags.knowledge_injection);
    assert!(flags.prompt_inspection);
    assert!(!flags.conversation_tracing);
}

#[test]
fn test_sticky_canary_zero() {
    let flags = ContextResolverFlags {
        scoring_rollout_pct: 0,
        ..Default::default()
    };
    // 0% means no one gets it
    for _ in 0..100 {
        assert!(!flags.should_use_new_pipeline(&Uuid::new_v4()));
    }
}

#[test]
fn test_sticky_canary_hundred() {
    let flags = ContextResolverFlags {
        scoring_rollout_pct: 100,
        ..Default::default()
    };
    // 100% means everyone gets it
    for _ in 0..100 {
        assert!(flags.should_use_new_pipeline(&Uuid::new_v4()));
    }
}

#[test]
fn test_sticky_canary_deterministic() {
    let flags = ContextResolverFlags {
        scoring_rollout_pct: 50,
        ..Default::default()
    };
    let user = Uuid::new_v4();
    let result1 = flags.should_use_new_pipeline(&user);
    let result2 = flags.should_use_new_pipeline(&user);
    assert_eq!(result1, result2, "Same user must always get same result");
}

#[test]
fn test_sticky_canary_distribution() {
    let flags = ContextResolverFlags {
        scoring_rollout_pct: 50,
        ..Default::default()
    };

    let mut enabled_count = 0;
    let total = 1000;

    for _ in 0..total {
        if flags.should_use_new_pipeline(&Uuid::new_v4()) {
            enabled_count += 1;
        }
    }

    // Should be roughly 50% (with tolerance for randomness)
    let pct = (enabled_count as f64 / total as f64) * 100.0;
    assert!(pct > 30.0 && pct < 70.0, "Expected ~50%, got {:.1}%", pct);
}

#[test]
fn test_is_flag_enabled() {
    let mut flags = ContextResolverFlags::default();
    flags.flags.insert("my_flag".to_string(), true);

    assert!(flags.is_flag_enabled("my_flag"));
    assert!(!flags.is_flag_enabled("nonexistent"));
}

#[test]
fn test_user_id_hash_deterministic() {
    let id = Uuid::parse_str("a1a2a3a4-b1b2-c1c2-d1d2-e1e2e3e4e5e6").unwrap();
    let h1 = user_id_hash(id.as_bytes());
    let h2 = user_id_hash(id.as_bytes());
    assert_eq!(h1, h2);
}

#[test]
fn test_user_id_hash_value() {
    let mut bytes = [0u8; 16];
    bytes[15] = 7;
    bytes[14] = 1;
    assert_eq!(user_id_hash(&bytes), 31 + 7);
    let flags = ContextResolverFlags { scoring_rollout_pct: 39, ..Default::default() };
    assert!(flags.should_use_new_pipeline_for(&bytes));
    let flags = ContextResolverFlags { scoring_rollout_pct: 38, ..Default::default() };
    assert!(!flags.should_use_new_pipeline_for(&bytes));
}

#[test]
fn rollout_depends_on_the_user_id() {
    let flags = ContextResolverFlags { scoring_rollout_pct: 50, ..Default::default() };
    let nil = Uuid::nil();
    let nil_in = flags.should_use_new_pipeline(&nil);
    assert_eq!(nil_in, flags.should_use_new_pipeline_for(nil.as_bytes()));
    let mut differs = false;
    for _ in 0..200 {
        let u = Uuid::new_v4();
        let r = flags.should_use_new_pipeline(&u);
        assert_eq!(r, flags.should_use_new_pipeline_for(u.as_bytes()));
        assert_eq!(r, (user_id_hash(u.as_bytes()) % 100) < 50);
        differs |= r != nil_in;
    }
    assert!(differs);
}
