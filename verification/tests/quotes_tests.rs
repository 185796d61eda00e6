use nixie::pet_core::{mood_css_class, PetMood};
use nixie::quotes::{
    default_quotes, get_random_quote, get_random_quote_at, index_from_nanos, pick_quote,
    pick_quote_at, quotes_from_json, QuoteContext, QuoteTable,
};

#[test]
fn pick_quote_prefers_subagent_key() {
    let mut m = QuoteTable::new();
    m.insert("thinking".to_string(), vec!["plain".to_string()]);
    m.insert(
        "thinking_subagent".to_string(),
        vec!["from_sub".to_string()],
    );
    let ctx = QuoteContext { subagent_depth: 1 };
    assert_eq!(pick_quote(&m, "thinking", "fb", &ctx), "from_sub");
    let ctx0 = QuoteContext { subagent_depth: 0 };
    assert_eq!(pick_quote(&m, "thinking", "fb", &ctx0), "plain");
}

#[test]
fn pick_falls_back_to_plain_lines_without_subagent_list() {
    let mut m = QuoteTable::new();
    m.insert("writing".to_string(), vec!["w".to_string()]);
    m.insert("writing_subagent".to_string(), vec![]);
    let ctx = QuoteContext { subagent_depth: 3 };
    assert_eq!(pick_quote(&m, "writing", "fb", &ctx), "w");
    assert_eq!(pick_quote_at(&m, "writing", "fb", &ctx, 77), "w");
}

#[test]
fn random_quote_falls_back_to_label() {
    let mut m = QuoteTable::new();
    m.insert("idle".to_string(), vec![]);
    assert_eq!(get_random_quote(&m, "idle", "idle-label"), "idle-label");
    assert_eq!(get_random_quote(&m, "missing", "nothing"), "nothing");
}

#[test]
fn random_quote_picks_by_mixed_index() {
    let mut m = QuoteTable::new();
    let lines: Vec<String> = (0..7).map(|i| format!("line{}", i)).collect();
    m.insert("running".to_string(), lines);
    // 12345 has no bits above 40, so the index is 12345 % 7 == 4.
    assert_eq!(get_random_quote_at(&m, "running", "fb", 12345), "line4");
}

#[test]
fn index_mixes_high_bits() {
    assert_eq!(index_from_nanos(12345, 7), 4);
    // (1 << 41) ^ ((1 << 41) >> 40) == 2199023255554, and that % 10 == 4.
    assert_eq!(index_from_nanos(1u128 << 41, 10), 4);
    assert_eq!(index_from_nanos(999, 0), 0);
    assert_eq!(index_from_nanos(5, 1), 0);
}

#[test]
fn every_mood_has_default_lines() {
    let table = default_quotes();
    let moods = [
        PetMood::Idle,
        PetMood::AgentThinking,
        PetMood::AgentWriting,
        PetMood::AgentRunning,
        PetMood::AgentSearching,
        PetMood::AgentWebSearch,
        PetMood::Error,
        PetMood::Success,
        PetMood::Sleeping,
    ];
    for m in moods {
        let class = mood_css_class(m);
        let lines = table.get(class).expect("lines for every mood");
        assert!(!lines.is_empty());
        let q = get_random_quote(&table, class, "LABEL");
        assert!(lines.contains(&q));
    }
    assert_eq!(table.get("thinking").unwrap()[3], "收到！");
    assert_eq!(table.get("error_subagent").unwrap().len(), 5);
    assert_eq!(table.get("success_subagent").unwrap().len(), 4);
    assert_eq!(table.get("web-search_subagent").unwrap()[0], "分身干活中");
    assert_eq!(table.len(), 17);
}

#[test]
fn quotes_file_overrides_non_empty_lists() {
    let table = quotes_from_json(r#"{"idle": ["a", "b"], "error": [], "custom": ["c"]}"#);
    assert_eq!(table.get("idle").unwrap(), &vec!["a".to_string(), "b".to_string()]);
    assert_eq!(table.get("error").unwrap()[0], "哎呀");
    assert_eq!(table.get("custom").unwrap(), &vec!["c".to_string()]);
    assert_eq!(table.len(), 18);
}

#[test]
fn unreadable_quotes_file_gives_defaults() {
    let table = quotes_from_json("not json");
    assert_eq!(table.len(), 17);
    assert_eq!(table.get("idle").unwrap()[0], "在呢在呢");
    let table = quotes_from_json(r#"{"idle": "one string"}"#);
    assert_eq!(table.get("idle").unwrap()[0], "在呢在呢");
}
