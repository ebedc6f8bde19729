use indigauge::feedback::{
    build_feedback_payload, normalize_message, toggle_panel_visibility, FeedbackCategory,
    FeedbackError, FeedbackFormState, FeedbackPanelProps,
};

#[test]
fn normalization_unifies_line_endings() {
    assert_eq!(normalize_message("a\r\nb"), "a\nb");
    assert_eq!(normalize_message("a\rb"), "a\nb");
    assert_eq!(normalize_message("a\r\r\nb"), "a\n\nb");
}

#[test]
fn normalization_collapses_space_runs() {
    assert_eq!(normalize_message("a   b"), "a b");
    assert_eq!(normalize_message("a  b  c"), "a b c");
    assert_eq!(normalize_message("a b"), "a b");
}

#[test]
fn normalization_trims_ends() {
    assert_eq!(normalize_message("  hello  "), "hello");
    assert_eq!(normalize_message("\thello\n"), "hello");
    assert_eq!(normalize_message("  hello\r\nworld  "), "hello\nworld");
    assert_eq!(normalize_message("   "), "");
    assert_eq!(normalize_message("\r"), "");
    assert_eq!(normalize_message(""), "");
}

#[test]
fn one_character_message_is_rejected() {
    assert!(matches!(
        build_feedback_payload("a", FeedbackCategory::General, None, 0),
        Err(FeedbackError::TooShort)
    ));
}

#[test]
fn two_character_message_is_accepted() {
    let p = build_feedback_payload("ab", FeedbackCategory::General, None, 42).unwrap();
    assert_eq!(p.message, "ab");
    assert_eq!(p.category, "general");
    assert_eq!(p.elapsed_ms, 42);
    assert!(p.question.is_none());
}

#[test]
fn length_check_runs_after_normalization() {
    // Whitespace padding does not rescue a one-character message.
    assert!(matches!(
        build_feedback_payload("  a  ", FeedbackCategory::Bugs, None, 0),
        Err(FeedbackError::TooShort)
    ));
    // And interior normalization alone cannot shrink a valid one below the bound.
    let p = build_feedback_payload(" a   b ", FeedbackCategory::Bugs, None, 0).unwrap();
    assert_eq!(p.message, "a b");
}

#[test]
fn payload_carries_category_and_question() {
    let p = build_feedback_payload(
        "found a bug",
        FeedbackCategory::Ui,
        Some("How was the menu?".to_string()),
        7,
    )
    .unwrap();
    assert_eq!(p.category, "ui");
    assert_eq!(p.question.as_deref(), Some("How was the menu?"));
}

#[test]
fn error_message_text() {
    assert_eq!(FeedbackError::TooShort.message(), "Feedback cannot be less than 2 characters");
    assert_eq!(FeedbackError::NoActiveSession.message(), "No active session");
}

#[test]
fn panel_props_constructors() {
    let p = FeedbackPanelProps::visible();
    assert!(p.visible && p.allow_screenshot && p.question.is_none() && p.category.is_none());
    let p = FeedbackPanelProps::with_question("Fun?".to_string(), FeedbackCategory::Gameplay);
    assert_eq!(p.question.as_deref(), Some("Fun?"));
    assert_eq!(p.category, Some(FeedbackCategory::Gameplay));
    assert!(p.visible);
    let p = p.allow_screenshot(false);
    assert!(!p.allow_screenshot);
}

#[test]
fn visibility_toggle_creates_then_flips() {
    let mut props: Option<FeedbackPanelProps> = None;
    toggle_panel_visibility(&mut props);
    assert!(props.as_ref().unwrap().visible);
    toggle_panel_visibility(&mut props);
    assert!(!props.as_ref().unwrap().visible);
    toggle_panel_visibility(&mut props);
    assert!(props.as_ref().unwrap().visible);
}

#[test]
fn form_state_toggles() {
    let mut f = FeedbackFormState::new();
    assert_eq!(f.category, FeedbackCategory::General);
    assert!(!f.dropdown_open && !f.include_screenshot);
    f.toggle_dropdown();
    assert!(f.dropdown_open);
    f.pick_category(FeedbackCategory::Audio);
    assert_eq!(f.category, FeedbackCategory::Audio);
    assert!(!f.dropdown_open);
    f.toggle_screenshot();
    assert!(f.include_screenshot);
    f.toggle_screenshot();
    assert!(!f.include_screenshot);
}
