use cascade_agent::memory::tokenizer::{
    count_from_encoding, estimate_tokens, role_overhead, Message, MessageRole, TokenCounter,
};

#[test]
fn test_estimate_tokens() {
    assert_eq!(estimate_tokens("hello"), 1); // 5 chars / 4 = 1
    assert_eq!(estimate_tokens("hello world this is a test"), 6); // 26 chars / 4 = 6
    assert!(estimate_tokens("") >= 1); // empty -> max(1) = 1
}

#[test]
fn test_count_messages_empty() {
    // A counter without a tokenizer uses the fallback estimate.
    let counter = TokenCounter::new("test", None).unwrap();
    assert_eq!(counter.count_messages(&[]), 3); // just the framing tokens
}

#[test]
fn test_count_messages_with_roles() {
    let counter = TokenCounter::new("test", None).unwrap();
    let msgs = vec![
        Message { role: MessageRole::System, content: "You are helpful.".into() },
        Message { role: MessageRole::User, content: "Hello!".into() },
        Message { role: MessageRole::Assistant, content: "Hi there!".into() },
    ];
    let count = counter.count_messages(&msgs);
    // "You are helpful." = 16/4=4 + 2 (system) + 1 (sep) = 7
    // "Hello!" = 6/4=1 + 2 (user) + 1 (sep) = 4
    // "Hi there!" = 9/4=2 + 3 (assistant) + 1 (sep) = 6
    // + 3 framing = 20
    assert_eq!(count, 20);
}

#[test]
fn estimate_counts_utf8_bytes() {
    // "héllo wörld" is 13 bytes: 13 / 4 = 3.
    assert_eq!(estimate_tokens("héllo wörld"), 3);
    assert_eq!(estimate_tokens("abcdefgh"), 2);
    assert_eq!(estimate_tokens("abc"), 1);
}

#[test]
fn role_overheads() {
    assert_eq!(role_overhead(MessageRole::System), 2);
    assert_eq!(role_overhead(MessageRole::User), 2);
    assert_eq!(role_overhead(MessageRole::Assistant), 3);
    assert_eq!(role_overhead(MessageRole::Tool), 2);
}

#[test]
fn count_from_encoding_prefers_tokenizer_count() {
    assert_eq!(count_from_encoding(Some(42), "hello world"), 42);
    assert_eq!(count_from_encoding(None, "hello world"), 2);
}

#[test]
fn count_text_without_tokenizer_is_estimate() {
    let counter = TokenCounter::new("m", None).unwrap();
    assert_eq!(counter.count_text("0123456789abcdef"), 4);
    assert_eq!(counter.model_identifier(), "m");
}

#[test]
fn tool_message_overhead_counts() {
    let counter = TokenCounter::new("test", None).unwrap();
    let msgs = vec![Message { role: MessageRole::Tool, content: "".into() }];
    // 1 (minimum estimate) + 2 (tool) + 1 (sep) + 3 framing
    assert_eq!(counter.count_messages(&msgs), 7);
}

#[test]
fn message_counts_add_up() {
    let counter = TokenCounter::new("test", None).unwrap();
    let a = vec![Message { role: MessageRole::User, content: "Hello there!".into() }];
    let b = vec![
        Message { role: MessageRole::Assistant, content: "Hi".into() },
        Message { role: MessageRole::System, content: "Be brief and kind.".into() },
    ];
    let both: Vec<Message> = vec![
        Message { role: MessageRole::User, content: "Hello there!".into() },
        Message { role: MessageRole::Assistant, content: "Hi".into() },
        Message { role: MessageRole::System, content: "Be brief and kind.".into() },
    ];
    assert_eq!(
        counter.count_messages(&both),
        counter.count_messages(&a) + counter.count_messages(&b) - 3
    );
    assert_eq!(counter.count_messages(&a), counter.count_text("Hello there!") + 2 + 1 + 3);
}
