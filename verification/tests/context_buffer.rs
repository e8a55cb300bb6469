use claudima::context::ContextBuffer;
use claudima::message::ChatMessage;

fn make_msg(id: i64, text: &str) -> ChatMessage {
    ChatMessage {
        message_id: id,
        chat_id: -12345,
        user_id: 100,
        username: "test".to_string(),
        timestamp: "10:00".to_string(),
        text: text.to_string(),
        reply_to: None,
        image: None,
        voice_transcription: None,
        documents: vec![],
    }
}

#[test]
fn test_add_and_get() {
    let mut ctx = ContextBuffer::new();
    ctx.add_message(make_msg(1, "hello"));

    let msg = ctx.get_message(1).unwrap();
    assert_eq!(msg.text, "hello");
}

#[test]
fn test_edit() {
    let mut ctx = ContextBuffer::new();
    ctx.add_message(make_msg(1, "hello"));
    ctx.edit_message(1, "world");

    let msg = ctx.get_message(1).unwrap();
    assert_eq!(msg.text, "world");
}

#[test]
fn test_edit_message() {
    let mut ctx = ContextBuffer::new();

    ctx.add_message(ChatMessage {
        message_id: 1,
        chat_id: -12345,
        user_id: 100,
        username: "Alice".to_string(),
        timestamp: "10:00".to_string(),
        text: "hello".to_string(),
        reply_to: None,
        image: None,
        voice_transcription: None,
        documents: vec![],
    });

    ctx.edit_message(1, "hello world");

    let msg = ctx.get_message(1).unwrap();
    assert_eq!(msg.text, "hello world");
}

#[test]
fn lookup_finds_the_latest_message_with_an_id() {
    let mut ctx = ContextBuffer::new();
    ctx.add_message(make_msg(1, "first"));
    ctx.add_message(make_msg(2, "other"));
    ctx.add_message(make_msg(1, "second"));
    assert_eq!(ctx.message_count(), 3);
    assert_eq!(ctx.get_message(1).unwrap().text, "second");
    assert_eq!(ctx.get_message(2).unwrap().text, "other");
    assert!(ctx.get_message(3).is_none());
}

#[test]
fn edit_changes_only_the_latest_message_with_the_id() {
    let mut ctx = ContextBuffer::new();
    ctx.add_message(make_msg(1, "first"));
    ctx.add_message(make_msg(1, "second"));
    ctx.edit_message(1, "edited");
    ctx.edit_message(9, "nobody");
    let all = ctx.messages();
    assert_eq!(all.len(), 2);
    assert_eq!(all[0].text, "first");
    assert_eq!(all[1].text, "edited");
    assert_eq!(all[1].username, "test");
}

#[test]
fn snapshot_restores_the_index() {
    let ctx = ContextBuffer::load_or_new(Some(vec![make_msg(5, "five"), make_msg(6, "six")]));
    assert_eq!(ctx.get_message(5).unwrap().text, "five");
    assert_eq!(ctx.get_message(6).unwrap().text, "six");
    let empty = ContextBuffer::load_or_new(None);
    assert_eq!(empty.message_count(), 0);
    let rebuilt = ContextBuffer::from_messages(vec![make_msg(5, "a"), make_msg(5, "b")]);
    assert_eq!(rebuilt.get_message(5).unwrap().text, "b");
}

#[test]
fn test_add_message() {
    let mut ctx = ContextBuffer::new();

    ctx.add_message(ChatMessage {
        message_id: 1,
        chat_id: -12345,
        user_id: 100,
        username: "Alice".to_string(),
        timestamp: "10:00".to_string(),
        text: "hello".to_string(),
        reply_to: None,
        image: None,
        voice_transcription: None,
        documents: vec![],
    });

    assert_eq!(ctx.message_count(), 1);
}
