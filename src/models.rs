//! The storage contract: each persisted entity as a row of column values in
//! schema order, and back. Enumerations are stored by their canonical names;
//! a name that matches no variant is a conversion error, never a default.

use crate::document::Document;
use crate::text::str_eq;
use crate::time::{datetime_of, deserialize_datetime, Timestamp};
use vstd::prelude::*;

verus! {

/// One stored value.
#[derive(Clone, Debug)]
pub enum ColumnValue {
    Null,
    Text(String),
    Integer(i64),
    Timestamp(Timestamp),
}

/// A column of a table: its name, its SQL type, and whether it is indexed
/// for equality lookup.
#[derive(Clone, Debug)]
pub struct Column {
    pub name: String,
    pub column_type: String,
    pub indexed: bool,
}

pub open spec fn column_view(c: Column) -> (Seq<char>, Seq<char>, bool) {
    (c.name@, c.column_type@, c.indexed)
}

pub open spec fn columns_view(cs: Seq<Column>) -> Seq<(Seq<char>, Seq<char>, bool)> {
    cs.map_values(|c: Column| column_view(c))
}

fn column(name: &str, column_type: &str, indexed: bool) -> (r: Column)
    ensures
        column_view(r) == (name@, column_type@, indexed),
{
    Column { name: String::from_str(name), column_type: String::from_str(column_type), indexed }
}

/// Why a row could not be read back.
#[derive(Clone, Copy, Debug, PartialEq, Eq, Structural)]
pub enum RowError {
    /// The row does not have the table's number of columns.
    ColumnCount,
    /// The value at this column has the wrong type or shape.
    InvalidColumn(usize),
    /// The text at this column names no variant of its enumeration.
    UnknownVariant(usize),
}

// ---------------------------------------------------------------- column values

pub open spec fn text_col(v: ColumnValue) -> Option<String> {
    match v {
        ColumnValue::Text(s) => Some(s),
        _ => None,
    }
}

/// A timestamp column: stored as an instant, or as SQLite's
/// `YYYY-MM-DD HH:MM:SS[.fraction]` text (what `CURRENT_TIMESTAMP` writes).
pub open spec fn time_col(v: ColumnValue) -> Result<Option<Timestamp>, ()> {
    match v {
        ColumnValue::Null => Ok(None),
        ColumnValue::Timestamp(t) => Ok(Some(t)),
        ColumnValue::Text(s) => datetime_of(Some(s@)),
        ColumnValue::Integer(_) => Err(()),
    }
}

pub open spec fn int_col(v: ColumnValue) -> Option<i64> {
    match v {
        ColumnValue::Integer(i) => Some(i),
        _ => None,
    }
}

pub open spec fn opt_text_value(o: Option<String>) -> ColumnValue {
    match o {
        Some(s) => ColumnValue::Text(s),
        None => ColumnValue::Null,
    }
}

pub open spec fn time_value(o: Option<Timestamp>) -> ColumnValue {
    match o {
        Some(t) => ColumnValue::Timestamp(t),
        None => ColumnValue::Null,
    }
}

fn read_text(v: &ColumnValue) -> (r: Option<String>)
    ensures
        r == text_col(*v),
{
    match v {
        ColumnValue::Text(s) => Some(s.clone()),
        _ => None,
    }
}

fn read_time(v: &ColumnValue) -> (r: Result<Option<Timestamp>, ()>)
    ensures
        r == time_col(*v),
{
    match v {
        ColumnValue::Null => Ok(None),
        ColumnValue::Timestamp(t) => Ok(Some(*t)),
        ColumnValue::Text(s) => deserialize_datetime(Some(s.as_str())),
        ColumnValue::Integer(_) => Err(()),
    }
}

fn read_int(v: &ColumnValue) -> (r: Option<i64>)
    ensures
        r == int_col(*v),
{
    match v {
        ColumnValue::Integer(i) => Some(*i),
        _ => None,
    }
}

fn text_value(s: &String) -> (r: ColumnValue)
    ensures
        r == ColumnValue::Text(*s),
{
    ColumnValue::Text(s.clone())
}

fn opt_text_value_of(o: &Option<String>) -> (r: ColumnValue)
    ensures
        r == opt_text_value(*o),
{
    match o {
        Some(s) => ColumnValue::Text(s.clone()),
        None => ColumnValue::Null,
    }
}

fn time_value_of(o: Option<Timestamp>) -> (r: ColumnValue)
    ensures
        r == time_value(o),
{
    match o {
        Some(t) => ColumnValue::Timestamp(t),
        None => ColumnValue::Null,
    }
}

// ---------------------------------------------------------------- documents

/// Whether serde_json reads `text` as a JSON value.
pub uninterp spec fn json_valid(text: Seq<char>) -> bool;

/// Relies on `serde_json::from_str::<serde_json::Value>`: whether the text
/// parses as JSON depends on the text alone (deep nesting is an error, not
/// a panic).
#[verifier::external_body]
fn is_json(text: &str) -> (r: bool)
    ensures
        r == json_valid(text@),
{
    serde_json::from_str::<serde_json::Value>(text).is_ok()
}

/// The metadata column: absent, or the provider payload as JSON text.
pub open spec fn metadata_col(v: ColumnValue) -> Result<Option<String>, ()> {
    match v {
        ColumnValue::Null => Ok(None),
        ColumnValue::Text(s) => if json_valid(s@) {
            Ok(Some(s))
        } else {
            Err(())
        },
        _ => Err(()),
    }
}

fn read_metadata(v: &ColumnValue) -> (r: Result<Option<String>, ()>)
    ensures
        r == metadata_col(*v),
{
    match v {
        ColumnValue::Null => Ok(None),
        ColumnValue::Text(s) => if is_json(s.as_str()) {
            Ok(Some(s.clone()))
        } else {
            Err(())
        },
        _ => Err(()),
    }
}

/// A record whose metadata, if any, is JSON text.
pub open spec fn metadata_is_json(d: Document) -> bool {
    d.metadata matches Some(m) ==> json_valid(m@)
}

pub open spec fn document_columns() -> Seq<(Seq<char>, Seq<char>, bool)> {
    seq![
        ("id"@, "TEXT PRIMARY KEY"@, false),
        ("source_id"@, "TEXT"@, true),
        ("content"@, "TEXT"@, false),
        ("created_at"@, "TIMESTAMP"@, false),
        ("metadata"@, "TEXT"@, false),
    ]
}

pub open spec fn document_row(d: Document) -> Seq<ColumnValue> {
    seq![
        ColumnValue::Text(d.id),
        ColumnValue::Text(d.source_id),
        ColumnValue::Text(d.content),
        time_value(d.created_at),
        opt_text_value(d.metadata),
    ]
}

pub open spec fn document_of_row(row: Seq<ColumnValue>) -> Result<Document, RowError> {
    if row.len() != 5 {
        Err(RowError::ColumnCount)
    } else if text_col(row[0]) is None {
        Err(RowError::InvalidColumn(0))
    } else if text_col(row[1]) is None {
        Err(RowError::InvalidColumn(1))
    } else if text_col(row[2]) is None {
        Err(RowError::InvalidColumn(2))
    } else if time_col(row[3]) is Err {
        Err(RowError::InvalidColumn(3))
    } else if metadata_col(row[4]) is Err {
        Err(RowError::InvalidColumn(4))
    } else {
        Ok(
            Document {
                id: text_col(row[0]).unwrap(),
                source_id: text_col(row[1]).unwrap(),
                content: text_col(row[2]).unwrap(),
                created_at: time_col(row[3]).unwrap(),
                metadata: metadata_col(row[4]).unwrap(),
            },
        )
    }
}

impl Document {
    /// The table that holds records.
    pub fn table_name() -> (r: &'static str)
        ensures
            r@ == "documents"@,
    {
        "documents"
    }

    /// The columns, in row order: `id` is the primary key, `source_id` is
    /// indexed, and `content` is the one column that is embedded.
    pub fn schema() -> (r: Vec<Column>)
        ensures
            columns_view(r@) == document_columns(),
    {
        let r = vec![
            column("id", "TEXT PRIMARY KEY", false),
            column("source_id", "TEXT", true),
            column("content", "TEXT", false),
            column("created_at", "TIMESTAMP", false),
            column("metadata", "TEXT", false),
        ];
        assert(columns_view(r@) =~= document_columns());
        r
    }

    /// The column that is embedded.
    pub fn embedded_column() -> (r: &'static str)
        ensures
            r@ == "content"@,
    {
        "content"
    }

    /// The primary key.
    pub fn id(&self) -> (r: String)
        ensures
            r == self.id,
    {
        self.id.clone()
    }

    /// The record as a row, in schema order.
    pub fn to_row(&self) -> (r: Vec<ColumnValue>)
        ensures
            r@ == document_row(*self),
    {
        let r = vec![
            text_value(&self.id),
            text_value(&self.source_id),
            text_value(&self.content),
            time_value_of(self.created_at),
            opt_text_value_of(&self.metadata),
        ];
        assert(r@ =~= document_row(*self));
        r
    }

    /// Reads a record back from a row in schema order; metadata text that
    /// is not JSON is refused.
    pub fn from_row(row: &Vec<ColumnValue>) -> (r: Result<Document, RowError>)
        ensures
            r == document_of_row(row@),
    {
        if row.len() != 5 {
            return Err(RowError::ColumnCount);
        }
        let id = match read_text(&row[0]) {
            Some(s) => s,
            None => return Err(RowError::InvalidColumn(0)),
        };
        let source_id = match read_text(&row[1]) {
            Some(s) => s,
            None => return Err(RowError::InvalidColumn(1)),
        };
        let content = match read_text(&row[2]) {
            Some(s) => s,
            None => return Err(RowError::InvalidColumn(2)),
        };
        let created_at = match read_time(&row[3]) {
            Ok(t) => t,
            Err(_) => return Err(RowError::InvalidColumn(3)),
        };
        let metadata = match read_metadata(&row[4]) {
            Ok(m) => m,
            Err(_) => return Err(RowError::InvalidColumn(4)),
        };
        Ok(Document { id, source_id, content, created_at, metadata })
    }
}

// ---------------------------------------------------------------- enumerations

/// Where a chat message came from.
#[derive(Clone, Copy, Debug, PartialEq, Eq, Structural)]
pub enum Source {
    Discord,
    Telegram,
}

impl Source {
    pub open spec fn spec_name(self) -> Seq<char> {
        match self {
            Source::Discord => "discord"@,
            Source::Telegram => "telegram"@,
        }
    }

    /// The canonical name.
    pub fn as_str(&self) -> (r: &'static str)
        ensures
            r@ == self.spec_name(),
    {
        match self {
            Source::Discord => "discord",
            Source::Telegram => "telegram",
        }
    }

    /// The variant a canonical name stands for; any other text is `None`.
    pub fn from_name(name: &str) -> (r: Option<Source>)
        ensures
            r == source_of(name@),
    {
        if str_eq(name, "discord") {
            Some(Source::Discord)
        } else if str_eq(name, "telegram") {
            Some(Source::Telegram)
        } else {
            None
        }
    }
}

pub open spec fn source_of(name: Seq<char>) -> Option<Source> {
    if name == "discord"@ {
        Some(Source::Discord)
    } else if name == "telegram"@ {
        Some(Source::Telegram)
    } else {
        None
    }
}

/// The kind of channel a chat message was posted in.
#[derive(Clone, Copy, Debug, PartialEq, Eq, Structural)]
pub enum ChannelType {
    DirectMessage,
    Text,
    Voice,
}

impl ChannelType {
    pub open spec fn spec_name(self) -> Seq<char> {
        match self {
            ChannelType::DirectMessage => "direct_message"@,
            ChannelType::Text => "text"@,
            ChannelType::Voice => "voice"@,
        }
    }

    /// The canonical name.
    pub fn as_str(&self) -> (r: &'static str)
        ensures
            r@ == self.spec_name(),
    {
        match self {
            ChannelType::DirectMessage => "direct_message",
            ChannelType::Text => "text",
            ChannelType::Voice => "voice",
        }
    }

    /// The variant a canonical name stands for; any other text is `None`.
    pub fn from_name(name: &str) -> (r: Option<ChannelType>)
        ensures
            r == channel_type_of(name@),
    {
        if str_eq(name, "direct_message") {
            Some(ChannelType::DirectMessage)
        } else if str_eq(name, "text") {
            Some(ChannelType::Text)
        } else if str_eq(name, "voice") {
            Some(ChannelType::Voice)
        } else {
            None
        }
    }
}

pub open spec fn channel_type_of(name: Seq<char>) -> Option<ChannelType> {
    if name == "direct_message"@ {
        Some(ChannelType::DirectMessage)
    } else if name == "text"@ {
        Some(ChannelType::Text)
    } else if name == "voice"@ {
        Some(ChannelType::Voice)
    } else {
        None
    }
}

/// Every variant's canonical name reads back as that variant.
pub proof fn lemma_enum_names_round_trip(s: Source, c: ChannelType)
    ensures
        source_of(s.spec_name()) == Some(s),
        channel_type_of(c.spec_name()) == Some(c),
{
    reveal_strlit("discord");
    reveal_strlit("telegram");
    reveal_strlit("direct_message");
    reveal_strlit("text");
    reveal_strlit("voice");
    assert("discord"@[0] != "telegram"@[0]);
    assert("direct_message"@[0] != "text"@[0]);
    assert("direct_message"@[0] != "voice"@[0]);
    assert("text"@[0] != "voice"@[0]);
}

// ---------------------------------------------------------------- messages

/// A chat message; `content` is the embedded column.
#[derive(Clone, Debug)]
pub struct Message {
    pub id: String,
    pub source: Source,
    pub source_id: String,
    pub channel_type: ChannelType,
    pub channel_id: String,
    pub account_id: String,
    pub role: String,
    pub content: String,
    pub created_at: Option<Timestamp>,
}

pub open spec fn message_columns() -> Seq<(Seq<char>, Seq<char>, bool)> {
    seq![
        ("id"@, "TEXT PRIMARY KEY"@, false),
        ("source"@, "TEXT"@, false),
        ("source_id"@, "TEXT"@, true),
        ("channel_type"@, "TEXT"@, false),
        ("channel_id"@, "TEXT"@, true),
        ("account_id"@, "TEXT"@, true),
        ("role"@, "TEXT"@, false),
        ("content"@, "TEXT"@, false),
        ("created_at"@, "TIMESTAMP"@, false),
    ]
}

/// The name of an enumeration column as stored.
pub open spec fn stored_name(v: ColumnValue) -> Option<Seq<char>> {
    match v {
        ColumnValue::Text(s) => Some(s@),
        _ => None,
    }
}

/// A message's row: the texts of its fields, its enumerations by canonical
/// name, in schema order.
pub open spec fn message_row_ok(m: Message, row: Seq<ColumnValue>) -> bool {
    &&& row.len() == 9
    &&& row[0] == ColumnValue::Text(m.id)
    &&& stored_name(row[1]) == Some(m.source.spec_name())
    &&& row[2] == ColumnValue::Text(m.source_id)
    &&& stored_name(row[3]) == Some(m.channel_type.spec_name())
    &&& row[4] == ColumnValue::Text(m.channel_id)
    &&& row[5] == ColumnValue::Text(m.account_id)
    &&& row[6] == ColumnValue::Text(m.role)
    &&& row[7] == ColumnValue::Text(m.content)
    &&& row[8] == time_value(m.created_at)
}

pub open spec fn message_of_row(row: Seq<ColumnValue>) -> Result<Message, RowError> {
    if row.len() != 9 {
        Err(RowError::ColumnCount)
    } else if text_col(row[0]) is None {
        Err(RowError::InvalidColumn(0))
    } else if stored_name(row[1]) is None {
        Err(RowError::InvalidColumn(1))
    } else if source_of(stored_name(row[1]).unwrap()) is None {
        Err(RowError::UnknownVariant(1))
    } else if text_col(row[2]) is None {
        Err(RowError::InvalidColumn(2))
    } else if stored_name(row[3]) is None {
        Err(RowError::InvalidColumn(3))
    } else if channel_type_of(stored_name(row[3]).unwrap()) is None {
        Err(RowError::UnknownVariant(3))
    } else if text_col(row[4]) is None {
        Err(RowError::InvalidColumn(4))
    } else if text_col(row[5]) is None {
        Err(RowError::InvalidColumn(5))
    } else if text_col(row[6]) is None {
        Err(RowError::InvalidColumn(6))
    } else if text_col(row[7]) is None {
        Err(RowError::InvalidColumn(7))
    } else if time_col(row[8]) is Err {
        Err(RowError::InvalidColumn(8))
    } else {
        Ok(
            Message {
                id: text_col(row[0]).unwrap(),
                source: source_of(stored_name(row[1]).unwrap()).unwrap(),
                source_id: text_col(row[2]).unwrap(),
                channel_type: channel_type_of(stored_name(row[3]).unwrap()).unwrap(),
                channel_id: text_col(row[4]).unwrap(),
                account_id: text_col(row[5]).unwrap(),
                role: text_col(row[6]).unwrap(),
                content: text_col(row[7]).unwrap(),
                created_at: time_col(row[8]).unwrap(),
            },
        )
    }
}

fn name_value(name: &str) -> (r: ColumnValue)
    ensures
        stored_name(r) == Some(name@),
{
    ColumnValue::Text(String::from_str(name))
}

fn read_source(v: &ColumnValue, at: usize) -> (r: Result<Source, RowError>)
    ensures
        match stored_name(*v) {
            None => r == Err::<Source, RowError>(RowError::InvalidColumn(at)),
            Some(n) => match source_of(n) {
                None => r == Err::<Source, RowError>(RowError::UnknownVariant(at)),
                Some(s) => r == Ok::<Source, RowError>(s),
            },
        },
{
    match v {
        ColumnValue::Text(s) => match Source::from_name(s.as_str()) {
            Some(x) => Ok(x),
            None => Err(RowError::UnknownVariant(at)),
        },
        _ => Err(RowError::InvalidColumn(at)),
    }
}

fn read_channel_type(v: &ColumnValue, at: usize) -> (r: Result<ChannelType, RowError>)
    ensures
        match stored_name(*v) {
            None => r == Err::<ChannelType, RowError>(RowError::InvalidColumn(at)),
            Some(n) => match channel_type_of(n) {
                None => r == Err::<ChannelType, RowError>(RowError::UnknownVariant(at)),
                Some(c) => r == Ok::<ChannelType, RowError>(c),
            },
        },
{
    match v {
        ColumnValue::Text(s) => match ChannelType::from_name(s.as_str()) {
            Some(x) => Ok(x),
            None => Err(RowError::UnknownVariant(at)),
        },
        _ => Err(RowError::InvalidColumn(at)),
    }
}

impl Message {
    pub fn table_name() -> (r: &'static str)
        ensures
            r@ == "messages"@,
    {
        "messages"
    }

    /// The columns, in row order: `id` is the primary key; `source_id`,
    /// `channel_id` and `account_id` are indexed; `content` is embedded.
    pub fn schema() -> (r: Vec<Column>)
        ensures
            columns_view(r@) == message_columns(),
    {
        let r = vec![
            column("id", "TEXT PRIMARY KEY", false),
            column("source", "TEXT", false),
            column("source_id", "TEXT", true),
            column("channel_type", "TEXT", false),
            column("channel_id", "TEXT", true),
            column("account_id", "TEXT", true),
            column("role", "TEXT", false),
            column("content", "TEXT", false),
            column("created_at", "TIMESTAMP", false),
        ];
        assert(columns_view(r@) =~= message_columns());
        r
    }

    pub fn id(&self) -> (r: String)
        ensures
            r == self.id,
    {
        self.id.clone()
    }

    /// The message as a row, in schema order.
    pub fn to_row(&self) -> (r: Vec<ColumnValue>)
        ensures
            message_row_ok(*self, r@),
    {
        vec![
            text_value(&self.id),
            name_value(self.source.as_str()),
            text_value(&self.source_id),
            name_value(self.channel_type.as_str()),
            text_value(&self.channel_id),
            text_value(&self.account_id),
            text_value(&self.role),
            text_value(&self.content),
            time_value_of(self.created_at),
        ]
    }

    /// Reads a message back from a row in schema order.
    pub fn from_row(row: &Vec<ColumnValue>) -> (r: Result<Message, RowError>)
        ensures
            r == message_of_row(row@),
    {
        if row.len() != 9 {
            return Err(RowError::ColumnCount);
        }
        let id = match read_text(&row[0]) {
            Some(s) => s,
            None => return Err(RowError::InvalidColumn(0)),
        };
        let source = match read_source(&row[1], 1) {
            Ok(s) => s,
            Err(e) => return Err(e),
        };
        let source_id = match read_text(&row[2]) {
            Some(s) => s,
            None => return Err(RowError::InvalidColumn(2)),
        };
        let channel_type = match read_channel_type(&row[3], 3) {
            Ok(c) => c,
            Err(e) => return Err(e),
        };
        let channel_id = match read_text(&row[4]) {
            Some(s) => s,
            None => return Err(RowError::InvalidColumn(4)),
        };
        let account_id = match read_text(&row[5]) {
            Some(s) => s,
            None => return Err(RowError::InvalidColumn(5)),
        };
        let role = match read_text(&row[6]) {
            Some(s) => s,
            None => return Err(RowError::InvalidColumn(6)),
        };
        let content = match read_text(&row[7]) {
            Some(s) => s,
            None => return Err(RowError::InvalidColumn(7)),
        };
        let created_at = match read_time(&row[8]) {
            Ok(t) => t,
            Err(_) => return Err(RowError::InvalidColumn(8)),
        };
        Ok(
            Message {
                id,
                source,
                source_id,
                channel_type,
                channel_id,
                account_id,
                role,
                content,
                created_at,
            },
        )
    }
}

// ---------------------------------------------------------------- accounts, conversations, channels

/// A chat account.
#[derive(Clone, Debug)]
pub struct Account {
    pub id: i64,
    pub source_id: String,
    pub name: String,
    pub source: String,
    pub created_at: Option<Timestamp>,
    pub updated_at: Option<Timestamp>,
}

/// A conversation of a user.
#[derive(Clone, Debug)]
pub struct Conversation {
    pub id: String,
    pub user_id: String,
    pub title: String,
    pub created_at: Option<Timestamp>,
    pub updated_at: Option<Timestamp>,
}

/// A chat channel.
#[derive(Clone, Debug)]
pub struct Channel {
    pub id: String,
    pub channel_id: String,
    pub channel_type: String,
    pub source: String,
    pub name: String,
    pub created_at: Option<Timestamp>,
    pub updated_at: Option<Timestamp>,
}

pub open spec fn account_row(a: Account) -> Seq<ColumnValue> {
    seq![
        ColumnValue::Integer(a.id),
        ColumnValue::Text(a.name),
        ColumnValue::Text(a.source_id),
        ColumnValue::Text(a.source),
        time_value(a.created_at),
        time_value(a.updated_at),
    ]
}

pub open spec fn account_of_row(row: Seq<ColumnValue>) -> Result<Account, RowError> {
    if row.len() != 6 {
        Err(RowError::ColumnCount)
    } else if int_col(row[0]) is None {
        Err(RowError::InvalidColumn(0))
    } else if text_col(row[1]) is None {
        Err(RowError::InvalidColumn(1))
    } else if text_col(row[2]) is None {
        Err(RowError::InvalidColumn(2))
    } else if text_col(row[3]) is None {
        Err(RowError::InvalidColumn(3))
    } else if time_col(row[4]) is Err {
        Err(RowError::InvalidColumn(4))
    } else if time_col(row[5]) is Err {
        Err(RowError::InvalidColumn(5))
    } else {
        Ok(
            Account {
                id: int_col(row[0]).unwrap(),
                name: text_col(row[1]).unwrap(),
                source_id: text_col(row[2]).unwrap(),
                source: text_col(row[3]).unwrap(),
                created_at: time_col(row[4]).unwrap(),
                updated_at: time_col(row[5]).unwrap(),
            },
        )
    }
}

impl Account {
    /// The account as a row: id, name, source id, source, created, updated.
    pub fn to_row(&self) -> (r: Vec<ColumnValue>)
        ensures
            r@ == account_row(*self),
    {
        let r = vec![
            ColumnValue::Integer(self.id),
            text_value(&self.name),
            text_value(&self.source_id),
            text_value(&self.source),
            time_value_of(self.created_at),
            time_value_of(self.updated_at),
        ];
        assert(r@ =~= account_row(*self));
        r
    }

    /// Reads an account back from a row in that order.
    pub fn from_row(row: &Vec<ColumnValue>) -> (r: Result<Account, RowError>)
        ensures
            r == account_of_row(row@),
    {
        if row.len() != 6 {
            return Err(RowError::ColumnCount);
        }
        let id = match read_int(&row[0]) {
            Some(i) => i,
            None => return Err(RowError::InvalidColumn(0)),
        };
        let name = match read_text(&row[1]) {
            Some(s) => s,
            None => return Err(RowError::InvalidColumn(1)),
        };
        let source_id = match read_text(&row[2]) {
            Some(s) => s,
            None => return Err(RowError::InvalidColumn(2)),
        };
        let source = match read_text(&row[3]) {
            Some(s) => s,
            None => return Err(RowError::InvalidColumn(3)),
        };
        let created_at = match read_time(&row[4]) {
            Ok(t) => t,
            Err(_) => return Err(RowError::InvalidColumn(4)),
        };
        let updated_at = match read_time(&row[5]) {
            Ok(t) => t,
            Err(_) => return Err(RowError::InvalidColumn(5)),
        };
        Ok(Account { id, source_id, name, source, created_at, updated_at })
    }
}

pub open spec fn conversation_row(c: Conversation) -> Seq<ColumnValue> {
    seq![
        ColumnValue::Text(c.id),
        ColumnValue::Text(c.user_id),
        ColumnValue::Text(c.title),
        time_value(c.created_at),
        time_value(c.updated_at),
    ]
}

pub open spec fn conversation_of_row(row: Seq<ColumnValue>) -> Result<Conversation, RowError> {
    if row.len() != 5 {
        Err(RowError::ColumnCount)
    } else if text_col(row[0]) is None {
        Err(RowError::InvalidColumn(0))
    } else if text_col(row[1]) is None {
        Err(RowError::InvalidColumn(1))
    } else if text_col(row[2]) is None {
        Err(RowError::InvalidColumn(2))
    } else if time_col(row[3]) is Err {
        Err(RowError::InvalidColumn(3))
    } else if time_col(row[4]) is Err {
        Err(RowError::InvalidColumn(4))
    } else {
        Ok(
            Conversation {
                id: text_col(row[0]).unwrap(),
                user_id: text_col(row[1]).unwrap(),
                title: text_col(row[2]).unwrap(),
                created_at: time_col(row[3]).unwrap(),
                updated_at: time_col(row[4]).unwrap(),
            },
        )
    }
}

impl Conversation {
    /// The conversation as a row: id, user id, title, created, updated.
    pub fn to_row(&self) -> (r: Vec<ColumnValue>)
        ensures
            r@ == conversation_row(*self),
    {
        let r = vec![
            text_value(&self.id),
            text_value(&self.user_id),
            text_value(&self.title),
            time_value_of(self.created_at),
            time_value_of(self.updated_at),
        ];
        assert(r@ =~= conversation_row(*self));
        r
    }

    /// Reads a conversation back from a row in that order.
    pub fn from_row(row: &Vec<ColumnValue>) -> (r: Result<Conversation, RowError>)
        ensures
            r == conversation_of_row(row@),
    {
        if row.len() != 5 {
            return Err(RowError::ColumnCount);
        }
        let id = match read_text(&row[0]) {
            Some(s) => s,
            None => return Err(RowError::InvalidColumn(0)),
        };
        let user_id = match read_text(&row[1]) {
            Some(s) => s,
            None => return Err(RowError::InvalidColumn(1)),
        };
        let title = match read_text(&row[2]) {
            Some(s) => s,
            None => return Err(RowError::InvalidColumn(2)),
        };
        let created_at = match read_time(&row[3]) {
            Ok(t) => t,
            Err(_) => return Err(RowError::InvalidColumn(3)),
        };
        let updated_at = match read_time(&row[4]) {
            Ok(t) => t,
            Err(_) => return Err(RowError::InvalidColumn(4)),
        };
        Ok(Conversation { id, user_id, title, created_at, updated_at })
    }
}

pub open spec fn channel_columns() -> Seq<(Seq<char>, Seq<char>, bool)> {
    seq![
        ("id"@, "TEXT PRIMARY KEY"@, false),
        ("channel_id"@, "TEXT"@, true),
        ("channel_type"@, "TEXT"@, false),
        ("source"@, "TEXT"@, false),
        ("name"@, "TEXT"@, false),
        ("created_at"@, "TIMESTAMP"@, false),
        ("updated_at"@, "TIMESTAMP"@, false),
    ]
}

pub open spec fn channel_row(c: Channel) -> Seq<ColumnValue> {
    seq![
        ColumnValue::Text(c.id),
        ColumnValue::Text(c.channel_id),
        ColumnValue::Text(c.channel_type),
        ColumnValue::Text(c.source),
        ColumnValue::Text(c.name),
        time_value(c.created_at),
        time_value(c.updated_at),
    ]
}

pub open spec fn channel_of_row(row: Seq<ColumnValue>) -> Result<Channel, RowError> {
    if row.len() != 7 {
        Err(RowError::ColumnCount)
    } else if text_col(row[0]) is None {
        Err(RowError::InvalidColumn(0))
    } else if text_col(row[1]) is None {
        Err(RowError::InvalidColumn(1))
    } else if text_col(row[2]) is None {
        Err(RowError::InvalidColumn(2))
    } else if text_col(row[3]) is None {
        Err(RowError::InvalidColumn(3))
    } else if text_col(row[4]) is None {
        Err(RowError::InvalidColumn(4))
    } else if time_col(row[5]) is Err {
        Err(RowError::InvalidColumn(5))
    } else if time_col(row[6]) is Err {
        Err(RowError::InvalidColumn(6))
    } else {
        Ok(
            Channel {
                id: text_col(row[0]).unwrap(),
                channel_id: text_col(row[1]).unwrap(),
                channel_type: text_col(row[2]).unwrap(),
                source: text_col(row[3]).unwrap(),
                name: text_col(row[4]).unwrap(),
                created_at: time_col(row[5]).unwrap(),
                updated_at: time_col(row[6]).unwrap(),
            },
        )
    }
}

impl Channel {
    pub fn table_name() -> (r: &'static str)
        ensures
            r@ == "channels"@,
    {
        "channels"
    }

    /// The columns, in row order: `id` is the primary key and `channel_id`
    /// is indexed.
    pub fn schema() -> (r: Vec<Column>)
        ensures
            columns_view(r@) == channel_columns(),
    {
        let r = vec![
            column("id", "TEXT PRIMARY KEY", false),
            column("channel_id", "TEXT", true),
            column("channel_type", "TEXT", false),
            column("source", "TEXT", false),
            column("name", "TEXT", false),
            column("created_at", "TIMESTAMP", false),
            column("updated_at", "TIMESTAMP", false),
        ];
        assert(columns_view(r@) =~= channel_columns());
        r
    }

    pub fn id(&self) -> (r: String)
        ensures
            r == self.id,
    {
        self.id.clone()
    }

    /// The channel as a row, in schema order.
    pub fn to_row(&self) -> (r: Vec<ColumnValue>)
        ensures
            r@ == channel_row(*self),
    {
        let r = vec![
            text_value(&self.id),
            text_value(&self.channel_id),
            text_value(&self.channel_type),
            text_value(&self.source),
            text_value(&self.name),
            time_value_of(self.created_at),
            time_value_of(self.updated_at),
        ];
        assert(r@ =~= channel_row(*self));
        r
    }

    /// Reads a channel back from a row in schema order.
    pub fn from_row(row: &Vec<ColumnValue>) -> (r: Result<Channel, RowError>)
        ensures
            r == channel_of_row(row@),
    {
        if row.len() != 7 {
            return Err(RowError::ColumnCount);
        }
        let id = match read_text(&row[0]) {
            Some(s) => s,
            None => return Err(RowError::InvalidColumn(0)),
        };
        let channel_id = match read_text(&row[1]) {
            Some(s) => s,
            None => return Err(RowError::InvalidColumn(1)),
        };
        let channel_type = match read_text(&row[2]) {
            Some(s) => s,
            None => return Err(RowError::InvalidColumn(2)),
        };
        let source = match read_text(&row[3]) {
            Some(s) => s,
            None => return Err(RowError::InvalidColumn(3)),
        };
        let name = match read_text(&row[4]) {
            Some(s) => s,
            None => return Err(RowError::InvalidColumn(4)),
        };
        let created_at = match read_time(&row[5]) {
            Ok(t) => t,
            Err(_) => return Err(RowError::InvalidColumn(5)),
        };
        let updated_at = match read_time(&row[6]) {
            Ok(t) => t,
            Err(_) => return Err(RowError::InvalidColumn(6)),
        };
        Ok(Channel { id, channel_id, channel_type, source, name, created_at, updated_at })
    }
}

// ---------------------------------------------------------------- round trips

/// Every entity written as a row reads back equal, field for field (a
/// record's metadata being JSON text, as its column requires).
pub proof fn lemma_round_trip(
    d: Document,
    m: Message,
    message_row: Seq<ColumnValue>,
    a: Account,
    c: Conversation,
    ch: Channel,
)
    requires
        metadata_is_json(d),
        message_row_ok(m, message_row),
    ensures
        document_of_row(document_row(d)) == Ok::<Document, RowError>(d),
        message_of_row(message_row) == Ok::<Message, RowError>(m),
        account_of_row(account_row(a)) == Ok::<Account, RowError>(a),
        conversation_of_row(conversation_row(c)) == Ok::<Conversation, RowError>(c),
        channel_of_row(channel_row(ch)) == Ok::<Channel, RowError>(ch),
{
    lemma_enum_names_round_trip(m.source, m.channel_type);
}

} // verus!
