use phrack_read::line::{classify, should_highlight_headings, should_highlight_topics, Line, StyleTag};

#[test]
fn framed_line_is_heading() {
    assert_eq!(classify("|=section name=|"), StyleTag::Heading);
    assert!(should_highlight_headings("|=section name=|"));
    assert!(!should_highlight_topics("|=section name=|"));
}

#[test]
fn topic_marker_is_highlighted() {
    assert_eq!(classify("--[ Topic ]"), StyleTag::Highlighted);
    assert!(should_highlight_topics("--[ Topic ]"));
    assert!(!should_highlight_headings("--[ Topic ]"));
}

#[test]
fn plain_text_is_normal() {
    assert_eq!(classify("plain text"), StyleTag::Normal);
    assert!(!should_highlight_headings("plain text"));
    assert!(!should_highlight_topics("plain text"));
}

#[test]
fn heading_wins_over_topic() {
    let line = "|=--[ both ]--=|";
    assert!(should_highlight_headings(line));
    assert!(should_highlight_topics(line));
    assert_eq!(classify(line), StyleTag::Heading);
}

#[test]
fn heading_needs_both_ends() {
    assert!(!should_highlight_headings("|=only the start"));
    assert!(!should_highlight_headings("only the end=|"));
    assert!(!should_highlight_headings(" |=indented=|"));
    assert!(!should_highlight_headings("|=trailing blank=| "));
    assert!(!should_highlight_headings(""));
    assert!(!should_highlight_headings("|"));
    assert!(!should_highlight_headings("|="));
    assert!(!should_highlight_headings("=|"));
}

#[test]
fn shortest_headings() {
    // The two delimiters may share their middle character.
    assert!(should_highlight_headings("|=|"));
    assert!(should_highlight_headings("|==|"));
    assert_eq!(classify("|=|"), StyleTag::Heading);
}

#[test]
fn topic_marker_anywhere() {
    assert!(should_highlight_topics("--["));
    assert!(should_highlight_topics("0x01 --[ Introduction"));
    assert!(should_highlight_topics("at the end --["));
    assert!(should_highlight_topics("---["));
    assert!(!should_highlight_topics("--"));
    assert!(!should_highlight_topics("-["));
    assert!(!should_highlight_topics("-- ["));
    assert!(!should_highlight_topics(""));
    assert!(!should_highlight_topics("[--"));
}

#[test]
fn classifier_handles_wide_characters() {
    assert_eq!(classify("|=見出し=|"), StyleTag::Heading);
    assert_eq!(classify("日本語 --[ 話題"), StyleTag::Highlighted);
    assert_eq!(classify("日本語"), StyleTag::Normal);
}

#[test]
fn classified_line_keeps_text() {
    let line = Line::classified("--[ 1 - Intro");
    assert_eq!(line.text, "--[ 1 - Intro");
    assert_eq!(line.style, StyleTag::Highlighted);
    let line = Line::new(String::from("x"), StyleTag::Heading);
    assert_eq!(line.text, "x");
    assert_eq!(line.style, StyleTag::Heading);
}
