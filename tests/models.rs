use asuka_core::document::Document;
use asuka_core::models::{
    Account, Channel, ChannelType, ColumnValue, Conversation, Message, RowError, Source,
};
use asuka_core::time::Timestamp;

fn message() -> Message {
    Message {
        id: "m1".to_string(),
        source: Source::Telegram,
        source_id: "s1".to_string(),
        channel_type: ChannelType::DirectMessage,
        channel_id: "c1".to_string(),
        account_id: "a1".to_string(),
        role: "user".to_string(),
        content: "hello".to_string(),
        created_at: Some(Timestamp::new(1704067200, 0)),
    }
}

#[test]
fn document_round_trips() {
    let d = Document {
        id: "github:repo:acme/widget".to_string(),
        source_id: "github:acme".to_string(),
        content: "Repository: acme/widget".to_string(),
        created_at: Some(Timestamp::new(1704067200, 5)),
        metadata: Some("{\"a\":1}".to_string()),
    };
    let back = Document::from_row(&d.to_row()).unwrap();
    assert_eq!(back.id, d.id);
    assert_eq!(back.source_id, d.source_id);
    assert_eq!(back.content, d.content);
    assert_eq!(back.created_at, d.created_at);
    assert_eq!(back.metadata, d.metadata);
}

#[test]
fn document_schema_indexes_source_id() {
    let cols = Document::schema();
    let names: Vec<&str> = cols.iter().map(|c| c.name.as_str()).collect();
    assert_eq!(names, vec!["id", "source_id", "content", "created_at", "metadata"]);
    assert_eq!(cols[0].column_type, "TEXT PRIMARY KEY");
    assert!(cols[1].indexed && !cols[2].indexed);
    assert_eq!(Document::table_name(), "documents");
    assert_eq!(Document::embedded_column(), "content");
}

#[test]
fn message_round_trips_with_canonical_names() {
    let m = message();
    let row = m.to_row();
    assert!(matches!(&row[1], ColumnValue::Text(s) if s == "telegram"));
    assert!(matches!(&row[3], ColumnValue::Text(s) if s == "direct_message"));
    let back = Message::from_row(&row).unwrap();
    assert_eq!(back.id, "m1");
    assert_eq!(back.source, Source::Telegram);
    assert_eq!(back.channel_type, ChannelType::DirectMessage);
    assert_eq!(back.content, "hello");
    assert_eq!(back.created_at, m.created_at);
    assert_eq!(Message::schema().iter().filter(|c| c.indexed).count(), 3);
}

#[test]
fn unknown_enum_name_is_a_conversion_error() {
    let mut row = message().to_row();
    row[1] = ColumnValue::Text("irc".to_string());
    assert!(matches!(Message::from_row(&row), Err(RowError::UnknownVariant(1))));
    let mut row = message().to_row();
    row[3] = ColumnValue::Text("Text".to_string());
    assert!(matches!(Message::from_row(&row), Err(RowError::UnknownVariant(3))));
}

#[test]
fn malformed_rows_are_rejected() {
    let mut row = message().to_row();
    row.pop();
    assert!(matches!(Message::from_row(&row), Err(RowError::ColumnCount)));
    let mut row = message().to_row();
    row[0] = ColumnValue::Integer(1);
    assert!(matches!(Message::from_row(&row), Err(RowError::InvalidColumn(0))));
    let mut row = message().to_row();
    row[8] = ColumnValue::Text("yesterday".to_string());
    assert!(matches!(Message::from_row(&row), Err(RowError::InvalidColumn(8))));
}

#[test]
fn sqlite_default_timestamp_text_is_read() {
    let row = vec![
        ColumnValue::Text("d".to_string()),
        ColumnValue::Text("s".to_string()),
        ColumnValue::Text("c".to_string()),
        ColumnValue::Text("2024-01-01 00:00:00".to_string()),
        ColumnValue::Null,
    ];
    let d = Document::from_row(&row).unwrap();
    assert_eq!(d.created_at, Some(Timestamp::new(1704067200, 0)));
    assert_eq!(d.metadata, None);
}

#[test]
fn account_conversation_channel_round_trip() {
    let a = Account {
        id: 7,
        source_id: "s".to_string(),
        name: "n".to_string(),
        source: "discord".to_string(),
        created_at: None,
        updated_at: Some(Timestamp::new(1, 2)),
    };
    let b = Account::from_row(&a.to_row()).unwrap();
    assert_eq!((b.id, b.name, b.source_id, b.source), (7, "n".to_string(), "s".to_string(), "discord".to_string()));
    assert_eq!(b.updated_at, a.updated_at);

    let c = Conversation {
        id: "c".to_string(),
        user_id: "u".to_string(),
        title: "t".to_string(),
        created_at: Some(Timestamp::new(3, 0)),
        updated_at: None,
    };
    let d = Conversation::from_row(&c.to_row()).unwrap();
    assert_eq!((d.id, d.user_id, d.title), ("c".to_string(), "u".to_string(), "t".to_string()));
    assert_eq!(d.created_at, c.created_at);

    let ch = Channel {
        id: "x".to_string(),
        channel_id: "42".to_string(),
        channel_type: "text".to_string(),
        source: "discord".to_string(),
        name: "general".to_string(),
        created_at: None,
        updated_at: None,
    };
    let back = Channel::from_row(&ch.to_row()).unwrap();
    assert_eq!(back.channel_id, "42");
    assert_eq!(back.name, "general");
    assert_eq!(Channel::schema().len(), 7);
}

#[test]
fn enum_names_read_back() {
    for s in [Source::Discord, Source::Telegram] {
        assert_eq!(Source::from_name(s.as_str()), Some(s));
    }
    for c in [ChannelType::DirectMessage, ChannelType::Text, ChannelType::Voice] {
        assert_eq!(ChannelType::from_name(c.as_str()), Some(c));
    }
    assert_eq!(Source::from_name("Discord"), None);
}

#[test]
fn metadata_that_is_not_json_is_refused() {
    let row = vec![
        ColumnValue::Text("d".to_string()),
        ColumnValue::Text("s".to_string()),
        ColumnValue::Text("c".to_string()),
        ColumnValue::Null,
        ColumnValue::Text("not json".to_string()),
    ];
    assert!(matches!(Document::from_row(&row), Err(RowError::InvalidColumn(4))));
}

#[test]
fn fractional_timestamp_text_is_read() {
    let row = vec![
        ColumnValue::Text("d".to_string()),
        ColumnValue::Text("s".to_string()),
        ColumnValue::Text("c".to_string()),
        ColumnValue::Text("2024-01-01 00:00:00.000000005".to_string()),
        ColumnValue::Text("{\"k\":[1,2]}".to_string()),
    ];
    let d = Document::from_row(&row).unwrap();
    assert_eq!(d.created_at, Some(Timestamp::new(1704067200, 5)));
    assert_eq!(d.metadata.as_deref(), Some("{\"k\":[1,2]}"));
}
