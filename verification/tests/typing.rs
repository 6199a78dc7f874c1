use codex_discord_gateway::typing::TypingIndicators;

#[test]
fn typing_is_started_once_and_stopped() {
    let mut typing: TypingIndicators<&str> = TypingIndicators::new();
    typing.start_typing(1, || "first");
    typing.start_typing(1, || panic!("already typing"));
    typing.start_typing(2, || "second");
    assert_eq!(typing.stop_typing(1), Some("first"));
    assert_eq!(typing.stop_typing(1), None);
    assert_eq!(typing.stop_typing(2), Some("second"));
}

#[test]
fn stopping_leaves_the_other_channels_alone() {
    let mut typing: TypingIndicators<u8> = TypingIndicators::new();
    typing.start_typing(1, || 10);
    typing.start_typing(2, || 20);
    assert_eq!(typing.stop_typing(3), None);
    assert_eq!(typing.stop_typing(2), Some(20));
    typing.start_typing(2, || 21);
    assert_eq!(typing.stop_typing(2), Some(21));
    assert_eq!(typing.stop_typing(1), Some(10));
}
