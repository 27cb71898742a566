use lexa_kernel::wildcard::{target_matches, MAX_PATTERN_LENGTH};

#[test]
fn a_literal_pattern_is_found_anywhere_in_the_target() {
    assert!(target_matches("lexa_kernel::settings", "lexa_kernel"));
    assert!(target_matches("lexa_kernel::settings", "settings"));
    assert!(target_matches("lexa_kernel::settings", "kernel::set"));
    assert!(!target_matches("lexa_kernel::settings", "logger"));
    assert!(!target_matches("", "logger"));
    assert!(target_matches("lexa_kernel", ""));
}

#[test]
fn letters_match_whatever_their_case() {
    assert!(target_matches("Lexa_Kernel", "lexa_kernel"));
    assert!(target_matches("lexa_kernel", "LEXA_KERNEL"));
}

#[test]
fn an_asterisk_stands_for_any_run_of_characters() {
    assert!(target_matches("lexa_kernel::settings", "lexa*settings"));
    assert!(target_matches("lexa_kernel::settings", "lexa_kernel*"));
    assert!(target_matches("lexa_kernel", "lexa*kernel"));
    assert!(target_matches("lexa_kernel", "*"));
    assert!(!target_matches("lexa_kernel::settings", "settings*lexa"));
}

#[test]
fn a_question_mark_stands_for_one_character() {
    assert!(target_matches("lexa_kernel", "lexa?kernel"));
    assert!(!target_matches("lexakernel", "lexa?kernel"));
    assert!(!target_matches("lexa", "lexa?"));
    assert!(target_matches("lexa", "l??a"));
}

#[test]
fn other_characters_have_no_special_meaning() {
    assert!(target_matches("a.b", "a.b"));
    assert!(!target_matches("axb", "a.b"));
    assert!(target_matches("a+b(c)[d]", "a+b(c)[d]"));
    assert!(!target_matches("aab", "a+b"));
    assert!(target_matches("a\\b", "a\\b"));
    assert!(target_matches("^a$", "^a$"));
    assert!(!target_matches("a", "^a$"));
}

#[test]
fn the_longest_patterns_are_still_matched() {
    assert_eq!(MAX_PATTERN_LENGTH, 1024);

    let target = "a".repeat(2000);
    assert!(target_matches(&target, &"a".repeat(MAX_PATTERN_LENGTH)));
    assert!(!target_matches(&target, &"b".repeat(MAX_PATTERN_LENGTH)));
    assert!(target_matches(&target, &"?".repeat(MAX_PATTERN_LENGTH)));
    assert!(!target_matches("short", &"?".repeat(MAX_PATTERN_LENGTH)));
    assert!(target_matches("short", &"*".repeat(MAX_PATTERN_LENGTH)));
    assert!(target_matches(&"ǆ".repeat(1024), &"ǅ".repeat(MAX_PATTERN_LENGTH)));
    assert!(target_matches(&"θ".repeat(1024), &"ϴ".repeat(MAX_PATTERN_LENGTH)));
    assert!(target_matches(&"\\".repeat(1024), &"\\".repeat(MAX_PATTERN_LENGTH)));
    assert!(!target_matches("short", &"\u{10FFFF}".repeat(MAX_PATTERN_LENGTH)));
    assert!(target_matches(&"k?".repeat(512), &"\u{212A}?".repeat(512)));
}

#[test]
fn a_pattern_over_the_limit_matches_nothing() {
    let target = "a".repeat(2000);
    assert!(!target_matches(&target, &"a".repeat(MAX_PATTERN_LENGTH + 1)));
    assert!(!target_matches(&target, &"*".repeat(MAX_PATTERN_LENGTH + 1)));
    assert!(!target_matches("", &"*".repeat(5000)));
}

#[test]
fn the_limit_counts_characters_not_bytes() {
    let pattern = "é".repeat(MAX_PATTERN_LENGTH);
    assert!(pattern.len() > MAX_PATTERN_LENGTH);
    assert!(target_matches(&"É".repeat(MAX_PATTERN_LENGTH), &pattern));
}
