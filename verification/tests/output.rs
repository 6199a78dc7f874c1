use codex_discord_gateway::output::{
    char_boundary_at_or_before, discord_chunks, reply_content, truncate, turn_failed, DISCORD_LIMIT,
};

fn chunks(text: &str, max: usize) -> Vec<String> {
    discord_chunks(text, max)
}

fn strings(list: &[&str]) -> Vec<String> {
    list.iter().map(|s| s.to_string()).collect()
}

#[test]
fn blank_text_gives_no_chunks() {
    assert_eq!(chunks("", 10), strings(&[]));
    assert_eq!(chunks(" \n\t\u{3000}", 1), strings(&[]));
}

#[test]
fn whitespace_is_what_unicode_says() {
    for c in '\0'..=char::MAX {
        let white = matches!(
            c as u32,
            0x09..=0x0d
                | 0x20
                | 0x85
                | 0xa0
                | 0x1680
                | 0x2000..=0x200a
                | 0x2028
                | 0x2029
                | 0x202f
                | 0x205f
                | 0x3000
        );
        assert_eq!(chunks(&c.to_string(), 4).is_empty(), white);
    }
}

#[test]
fn text_that_fits_is_one_trimmed_chunk() {
    assert_eq!(chunks("  hello world \n", 11), strings(&["hello world"]));
}

#[test]
fn chunks_split_at_the_last_space_that_fits() {
    assert_eq!(chunks("ab cd", 3), strings(&["ab", "cd"]));
    assert_eq!(chunks("one two three", 8), strings(&["one two", "three"]));
}

#[test]
fn line_breaks_come_before_spaces() {
    assert_eq!(chunks("one\ntwo three four", 12), strings(&["one", "two three", "four"]));
}

#[test]
fn words_without_spaces_are_cut_at_the_limit() {
    assert_eq!(chunks("abcdefgh", 3), strings(&["abc", "def", "gh"]));
}

#[test]
fn characters_are_not_split() {
    assert_eq!(chunks("ééééé", 5), strings(&["éé", "éé", "é"]));
    assert_eq!(chunks("a€b", 3), strings(&["a", "€", "b"]));
}

#[test]
fn wide_whitespace_may_exceed_the_limit() {
    assert_eq!(chunks("a\u{3000}b", 2), strings(&["a", "b"]));
}

#[test]
fn a_limit_of_zero_gives_single_characters() {
    assert_eq!(chunks("ab c", 0), strings(&["a", "b", "c"]));
}

#[test]
fn long_messages_fit_and_keep_their_text() {
    let text = "word \u{1f600} and\nmore ".repeat(400);
    let parts = chunks(&text, DISCORD_LIMIT);
    assert!(parts.len() > 1);
    for part in &parts {
        assert!(!part.is_empty());
        assert_eq!(part.trim(), part.as_str());
        assert!(part.len() <= DISCORD_LIMIT);
    }
    let mut rest = text.as_str();
    for part in &parts {
        let at = rest.find(part.as_str()).unwrap();
        assert_eq!(rest[..at].trim(), "");
        rest = &rest[at + part.len()..];
    }
    assert_eq!(rest.trim(), "");
}

#[test]
fn inner_whitespace_is_kept() {
    assert_eq!(chunks(" a  b\tc\n\nd  e ", 8), strings(&["a  b\tc", "d  e"]));
}

#[test]
fn boundaries() {
    assert_eq!(char_boundary_at_or_before("hello", 3), 3);
    assert_eq!(char_boundary_at_or_before("hello", 9), 5);
    assert_eq!(char_boundary_at_or_before("aé", 2), 1);
    assert_eq!(char_boundary_at_or_before("a€€", 6), 4);
    assert_eq!(char_boundary_at_or_before("€", 2), 1);
    assert_eq!(char_boundary_at_or_before("", 5), 1);
    assert_eq!(char_boundary_at_or_before("abc", 0), 1);
}

#[test]
fn short_values_are_not_truncated() {
    assert_eq!(truncate("hello".to_string(), 5), "hello");
    assert_eq!(truncate(String::new(), 0), "");
}

#[test]
fn long_values_are_truncated_and_marked() {
    assert_eq!(truncate("hello world".to_string(), 5), "hello\n...[truncated]");
    assert_eq!(truncate("éa".to_string(), 2), "é\n...[truncated]");
    assert_eq!(truncate("abc".to_string(), 0), "\n...[truncated]");
}

#[test]
fn truncation_does_not_split_characters() {
    assert_eq!(truncate("aéb".to_string(), 2), "a\n...[truncated]");
    assert_eq!(truncate("aéb".to_string(), 3), "aé\n...[truncated]");
    assert_eq!(truncate("\u{1f600}\u{1f600}".to_string(), 7), "\u{1f600}\n...[truncated]");
    assert_eq!(truncate("\u{1f600}".to_string(), 3), "\n...[truncated]");
}

#[test]
fn replies_are_cut_at_the_limit() {
    assert_eq!(reply_content("ok".to_string()), "ok");
    let exact = "x".repeat(1900);
    assert_eq!(reply_content(exact.clone()), exact);
    assert_eq!(reply_content("x".repeat(1901)), format!("{exact}\n...[truncated]"));
    let shorter = "x".repeat(1899);
    assert_eq!(reply_content(format!("{shorter}é")), format!("{shorter}\n...[truncated]"));
    assert_eq!(
        reply_content("€".repeat(700)),
        format!("{}\n...[truncated]", "€".repeat(633))
    );
}

#[test]
fn failed_turns_are_told() {
    assert_eq!(turn_failed("no network"), "Codex turn failed: no network");
}
