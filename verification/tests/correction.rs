use ariatype::correction::diff::{extract_correction_pair, is_word_level_correction_pair};
use ariatype::correction::observer::{
    baseline_decision, common_affix_chars, looks_like_direct_edit, snapshot_contains_delivery,
    BaselineDecision, ObserveAction, ObserveState,
};
use ariatype::correction::platform::{bounded_text_range, non_empty_text, MAX_TEXT_SNAPSHOT_CHARS};

#[test]
fn extracts_ascii_word_replacement() {
    let pair = extract_correction_pair(
        "Please ship this with OpenAI tomorrow",
        "Please ship this with OpenRouter tomorrow",
    )
    .unwrap();

    assert_eq!(pair.wrong, "OpenAI");
    assert_eq!(pair.corrected, "OpenRouter");
}

#[test]
fn expands_single_cjk_character_to_term_pair() {
    let pair = extract_correction_pair(
        "这个分析错误可能是由于标点引起的",
        "这个分词错误可能是由于标点引起的",
    )
    .unwrap();

    assert_eq!(pair.wrong, "分析");
    assert_eq!(pair.corrected, "分词");
}

#[test]
fn extracts_cjk_to_ascii_product_name_replacement() {
    let pair = extract_correction_pair(
        "那你试一试搜题现在的功能是不是符合预期的？",
        "那你试一试sootie现在的功能是不是符合预期的？",
    )
    .unwrap();

    assert_eq!(pair.wrong, "搜题");
    assert_eq!(pair.corrected, "sootie");
}

#[test]
fn ignores_insert_only_edits() {
    assert!(extract_correction_pair("hello", "hello world").is_none());
}

#[test]
fn ignores_punctuation_only_edits() {
    assert!(extract_correction_pair("hello.", "hello!").is_none());
}

#[test]
fn ignores_unicode_punctuation_only_edits() {
    assert!(extract_correction_pair("你好，", "你好。").is_none());
}

#[test]
fn trims_sentence_punctuation_from_term_pairs() {
    let pair = extract_correction_pair("请使用搜题。", "请使用sootie.").unwrap();

    assert_eq!(pair.wrong, "搜题");
    assert_eq!(pair.corrected, "sootie");
}

#[test]
fn identifies_word_level_pairs_only() {
    assert!(is_word_level_correction_pair("搜题", "sootie"));
    assert!(is_word_level_correction_pair("C++", "Rust"));
    assert!(!is_word_level_correction_pair("，", "。"));
    assert!(!is_word_level_correction_pair("hello!", "hi!"));
}

#[test]
fn identical_texts_yield_no_correction() {
    assert!(extract_correction_pair("same text here", "same text here").is_none());
    assert!(extract_correction_pair("line\r\nbreak", "line\nbreak").is_none());
}

#[test]
fn carriage_returns_are_normalised_before_diffing() {
    let pair = extract_correction_pair("first\r\nOpenAI rocks", "first\nOpenRouter rocks").unwrap();
    assert_eq!(pair.wrong, "OpenAI");
    assert_eq!(pair.corrected, "OpenRouter");
}

#[test]
fn overlong_terms_are_not_learned() {
    let before = format!("x {} y", "a".repeat(90));
    let after = format!("x {} y", "b".repeat(90));
    assert!(extract_correction_pair(&before, &after).is_none());
}

#[test]
fn accepts_exact_delivery_snapshot() {
    assert!(snapshot_contains_delivery("hello world", "hello world"));
}

#[test]
fn accepts_delivery_embedded_in_existing_text() {
    assert!(snapshot_contains_delivery(
        "Before. hello world After.",
        "hello world"
    ));
}

#[test]
fn rejects_unrelated_focused_text() {
    assert!(!snapshot_contains_delivery(
        "different document",
        "hello world"
    ));
}

#[test]
fn containment_ignores_white_space_differences() {
    assert!(snapshot_contains_delivery("say  hello\n\tworld now", "hello world"));
    assert!(!snapshot_contains_delivery("anything", "   "));
}

#[test]
fn accepts_fast_user_correction_as_direct_edit() {
    assert!(looks_like_direct_edit(
        "那你进行详细完整的流程，试一试搜题现在的功能是不是符合预期的？",
        "那你进行详细完整的流程，试一试sootie现在的功能是不是符合预期的？"
    ));
}

#[test]
fn rejects_unrelated_direct_edit_snapshot() {
    assert!(!looks_like_direct_edit(
        "那你进行详细完整的流程，试一试搜题现在的功能是不是符合预期的？",
        "completely unrelated focused field"
    ));
}

#[test]
fn common_affix_counts_prefix_and_suffix_once() {
    let l: Vec<char> = "abcXdef".chars().collect();
    let r: Vec<char> = "abcYdef".chars().collect();
    assert_eq!(common_affix_chars(&l, &r), 6);
    let same: Vec<char> = "aaa".chars().collect();
    let longer: Vec<char> = "aaaa".chars().collect();
    assert_eq!(common_affix_chars(&same, &longer), 3);
}

#[test]
fn baseline_decision_classifies_reads() {
    assert!(matches!(baseline_decision("hello world", None), BaselineDecision::Unavailable));
    match baseline_decision("hello world", Some("x hello world y".to_string())) {
        BaselineDecision::Baseline(s) => assert_eq!(s, "x hello world y"),
        other => panic!("unexpected {:?}", other),
    }
    assert!(matches!(
        baseline_decision("hello world", Some("nothing alike".to_string())),
        BaselineDecision::Unrelated
    ));
    match baseline_decision(
        "Please ship this with OpenAI tomorrow",
        Some("Please ship this with OpenRouter tomorrow".to_string()),
    ) {
        BaselineDecision::QuickEdit(s) => assert_eq!(s, "Please ship this with OpenRouter tomorrow"),
        other => panic!("unexpected {:?}", other),
    }
}

#[test]
fn observer_learns_after_two_identical_reads() {
    let mut state = ObserveState::new();
    assert!(matches!(state.step("base", Some("edited".to_string())), ObserveAction::Continue));
    match state.step("base", Some("edited".to_string())) {
        ObserveAction::Learn(t) => assert_eq!(t, "edited"),
        other => panic!("unexpected {:?}", other),
    }
}

#[test]
fn observer_resets_on_baseline_and_stops_when_unreadable() {
    let mut state = ObserveState::new();
    assert!(matches!(state.step("base", Some("edited".to_string())), ObserveAction::Continue));
    assert!(matches!(state.step("base", Some("base".to_string())), ObserveAction::Continue));
    assert_eq!(state.stable_reads, 0);
    assert!(matches!(state.step("base", Some("edited".to_string())), ObserveAction::Continue));
    assert!(matches!(state.step("base", Some("other".to_string())), ObserveAction::Continue));
    assert!(matches!(state.step("base", None), ObserveAction::Stop));
}

#[test]
fn keeps_non_blank_text_unchanged() {
    assert_eq!(
        non_empty_text("  hello  ".to_string()).as_deref(),
        Some("  hello  ")
    );
}

#[test]
fn rejects_blank_text() {
    assert_eq!(non_empty_text(" \n\t ".to_string()), None);
}

#[test]
fn reads_complete_short_text_range() {
    assert_eq!(bounded_text_range(42, Some(12)), Some((0, 42)));
}

#[test]
fn bounds_large_text_around_caret() {
    assert_eq!(
        bounded_text_range(120_000, Some(80_000)),
        Some((
            80_000 - MAX_TEXT_SNAPSHOT_CHARS / 2,
            80_000 + MAX_TEXT_SNAPSHOT_CHARS / 2
        ))
    );
}

#[test]
fn bounds_large_text_near_document_end() {
    assert_eq!(
        bounded_text_range(120_000, Some(119_990)),
        Some((120_000 - MAX_TEXT_SNAPSHOT_CHARS, 120_000))
    );
}

#[test]
fn empty_text_has_no_range() {
    assert_eq!(bounded_text_range(0, None), None);
    assert_eq!(bounded_text_range(120_000, Some(0)), Some((-25_000, 25_000)));
    assert_eq!(bounded_text_range(120_000, Some(100)), Some((-24_900, 25_100)));
    assert_eq!(bounded_text_range(120_000, Some(-5)), Some((-25_000, 25_000)));
}
