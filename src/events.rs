//! The host's line protocol: the messages this process sends, their
//! encoding as one JSON object per line, and the responses it receives.

use vstd::prelude::*;

use crate::clock::{now_text, timestamp_of, LocalTime};
use crate::model::BibItem;
use crate::text::{
    decimal, decimal_digits, decimal_signed, extension, extension_of, json_string,
    lemma_decimal_one_line, lemma_json_string_one_line, lemma_one_line_concat, one_line,
    quote_json, signed_decimal,
};

verus! {

/// serde_json's `Value`, declared so that the host's search results can be
/// carried through unread.
#[verifier::external_type_specification]
#[verifier::external_body]
pub struct ExJsonValue(serde_json::Value);

/// The file that a document was written to.
#[derive(Debug, Clone, PartialEq)]
pub struct PlatoFileInfo {
    pub path: String,
    pub kind: String,
    pub size: u64,
}

/// The metadata that announces a new document to the host.
#[derive(Debug, Clone, PartialEq)]
pub struct PlatoDocumentInfo {
    pub title: String,
    pub author: String,
    pub year: i32,
    pub identifier: String,
    pub added: String,
    pub file: PlatoFileInfo,
}

/// A message to the host.
#[derive(Debug, PartialEq)]
pub enum PlatoMessage {
    Notification { message: String },
    Wifi { enabled: bool },
    Search { path: String, query: String, sort_by: (String, bool) },
    AddDocument { info: PlatoDocumentInfo },
}

/// A message from the host.
#[derive(Debug, Clone, PartialEq)]
pub enum PlatoResponse {
    SearchResults { results: Vec<serde_json::Value> },
}

pub open spec fn bool_json(b: bool) -> Seq<char> {
    if b {
        "true"@
    } else {
        "false"@
    }
}

pub open spec fn file_json(f: PlatoFileInfo) -> Seq<char> {
    "{\"path\":"@ + json_string(f.path@) + ",\"kind\":"@ + json_string(f.kind@) + ",\"size\":"@
        + decimal_digits(f.size as nat) + "}"@
}

pub open spec fn document_json(d: PlatoDocumentInfo) -> Seq<char> {
    "{\"title\":"@ + json_string(d.title@) + ",\"author\":"@ + json_string(d.author@)
        + ",\"year\":"@ + signed_decimal(d.year as int) + ",\"identifier\":"@ + json_string(
        d.identifier@,
    ) + ",\"added\":"@ + json_string(d.added@) + ",\"file\":"@ + file_json(d.file) + "}"@
}

/// The wire form of a message: one JSON object whose `type` field names the
/// case, followed by that case's fields in a fixed order.
pub open spec fn message_json(m: PlatoMessage) -> Seq<char> {
    match m {
        PlatoMessage::Notification { message } => "{\"type\":\"notify\",\"message\":"@
            + json_string(message@) + "}"@,
        PlatoMessage::Wifi { enabled } => "{\"type\":\"setWifi\",\"enabled\":"@ + bool_json(
            enabled,
        ) + "}"@,
        PlatoMessage::Search { path, query, sort_by } => "{\"type\":\"search\",\"path\":"@
            + json_string(path@) + ",\"query\":"@ + json_string(query@) + ",\"sortBy\":["@
            + json_string(sort_by.0@) + ","@ + bool_json(sort_by.1) + "]}"@,
        PlatoMessage::AddDocument { info } => "{\"type\":\"addDocument\",\"info\":"@
            + document_json(info) + "}"@,
    }
}

proof fn lemma_field_literals_one_line()
    ensures
        one_line("true"@),
        one_line("false"@),
        one_line("{\"path\":"@),
        one_line(",\"kind\":"@),
        one_line(",\"size\":"@),
        one_line("}"@),
        one_line("{\"title\":"@),
        one_line(",\"author\":"@),
        one_line(",\"year\":"@),
        one_line(",\"identifier\":"@),
        one_line(",\"added\":"@),
        one_line(",\"file\":"@),
{
    reveal_strlit("true");
    reveal_strlit("false");
    reveal_strlit("{\"path\":");
    reveal_strlit(",\"kind\":");
    reveal_strlit(",\"size\":");
    reveal_strlit("}");
    reveal_strlit("{\"title\":");
    reveal_strlit(",\"author\":");
    reveal_strlit(",\"year\":");
    reveal_strlit(",\"identifier\":");
    reveal_strlit(",\"added\":");
    reveal_strlit(",\"file\":");
}

proof fn lemma_message_literals_one_line()
    ensures
        one_line("{\"type\":\"notify\",\"message\":"@),
        one_line("{\"type\":\"setWifi\",\"enabled\":"@),
        one_line("{\"type\":\"search\",\"path\":"@),
        one_line(",\"query\":"@),
        one_line(",\"sortBy\":["@),
        one_line(","@),
        one_line("]}"@),
        one_line("{\"type\":\"addDocument\",\"info\":"@),
{
    reveal_strlit("{\"type\":\"notify\",\"message\":");
    reveal_strlit("{\"type\":\"setWifi\",\"enabled\":");
    reveal_strlit("{\"type\":\"search\",\"path\":");
    reveal_strlit(",\"query\":");
    reveal_strlit(",\"sortBy\":[");
    reveal_strlit(",");
    reveal_strlit("]}");
    reveal_strlit("{\"type\":\"addDocument\",\"info\":");
}

/// The file part of a document announcement holds no line break.
proof fn lemma_file_one_line(f: PlatoFileInfo)
    ensures
        one_line(file_json(f)),
{
    lemma_field_literals_one_line();
    lemma_json_string_one_line(f.path@);
    lemma_json_string_one_line(f.kind@);
    lemma_decimal_one_line(f.size as nat);
    let acc = "{\"path\":"@;
    lemma_one_line_concat(acc, json_string(f.path@));
    let acc = acc + json_string(f.path@);
    lemma_one_line_concat(acc, ",\"kind\":"@);
    let acc = acc + ",\"kind\":"@;
    lemma_one_line_concat(acc, json_string(f.kind@));
    let acc = acc + json_string(f.kind@);
    lemma_one_line_concat(acc, ",\"size\":"@);
    let acc = acc + ",\"size\":"@;
    lemma_one_line_concat(acc, decimal_digits(f.size as nat));
    let acc = acc + decimal_digits(f.size as nat);
    lemma_one_line_concat(acc, "}"@);
    let acc = acc + "}"@;
}

/// A document announcement holds no line break.
proof fn lemma_document_one_line(d: PlatoDocumentInfo)
    ensures
        one_line(document_json(d)),
{
    lemma_field_literals_one_line();
    lemma_file_one_line(d.file);
    lemma_json_string_one_line(d.title@);
    lemma_json_string_one_line(d.author@);
    lemma_json_string_one_line(d.identifier@);
    lemma_json_string_one_line(d.added@);
    lemma_decimal_one_line((-(d.year as int)) as nat);
    lemma_decimal_one_line(d.year as nat);
    lemma_one_line_concat(seq!['-'], decimal_digits((-(d.year as int)) as nat));
    let year = signed_decimal(d.year as int);
    let acc = "{\"title\":"@;
    lemma_one_line_concat(acc, json_string(d.title@));
    let acc = acc + json_string(d.title@);
    lemma_one_line_concat(acc, ",\"author\":"@);
    let acc = acc + ",\"author\":"@;
    lemma_one_line_concat(acc, json_string(d.author@));
    let acc = acc + json_string(d.author@);
    lemma_one_line_concat(acc, ",\"year\":"@);
    let acc = acc + ",\"year\":"@;
    lemma_one_line_concat(acc, year);
    let acc = acc + year;
    lemma_one_line_concat(acc, ",\"identifier\":"@);
    let acc = acc + ",\"identifier\":"@;
    lemma_one_line_concat(acc, json_string(d.identifier@));
    let acc = acc + json_string(d.identifier@);
    lemma_one_line_concat(acc, ",\"added\":"@);
    let acc = acc + ",\"added\":"@;
    lemma_one_line_concat(acc, json_string(d.added@));
    let acc = acc + json_string(d.added@);
    lemma_one_line_concat(acc, ",\"file\":"@);
    let acc = acc + ",\"file\":"@;
    lemma_one_line_concat(acc, file_json(d.file));
    let acc = acc + file_json(d.file);
    lemma_one_line_concat(acc, "}"@);
    let acc = acc + "}"@;
}

/// Every message is encoded on one line: no line feed or carriage return
/// stands in its text, so the line terminator alone ends it.
pub proof fn lemma_message_one_line(m: PlatoMessage)
    ensures
        one_line(message_json(m)),
{
    lemma_field_literals_one_line();
    lemma_message_literals_one_line();
    match m {
        PlatoMessage::Notification { message } => {
            lemma_json_string_one_line(message@);
            let acc = "{\"type\":\"notify\",\"message\":"@;
            lemma_one_line_concat(acc, json_string(message@));
            let acc = acc + json_string(message@);
            lemma_one_line_concat(acc, "}"@);
            let acc = acc + "}"@;
        },
        PlatoMessage::Wifi { enabled } => {
            let acc = "{\"type\":\"setWifi\",\"enabled\":"@;
            lemma_one_line_concat(acc, bool_json(enabled));
            let acc = acc + bool_json(enabled);
            lemma_one_line_concat(acc, "}"@);
            let acc = acc + "}"@;
        },
        PlatoMessage::Search { path, query, sort_by } => {
            lemma_json_string_one_line(path@);
            lemma_json_string_one_line(query@);
            lemma_json_string_one_line(sort_by.0@);
            let acc = "{\"type\":\"search\",\"path\":"@;
            lemma_one_line_concat(acc, json_string(path@));
            let acc = acc + json_string(path@);
            lemma_one_line_concat(acc, ",\"query\":"@);
            let acc = acc + ",\"query\":"@;
            lemma_one_line_concat(acc, json_string(query@));
            let acc = acc + json_string(query@);
            lemma_one_line_concat(acc, ",\"sortBy\":["@);
            let acc = acc + ",\"sortBy\":["@;
            lemma_one_line_concat(acc, json_string(sort_by.0@));
            let acc = acc + json_string(sort_by.0@);
            lemma_one_line_concat(acc, ","@);
            let acc = acc + ","@;
            lemma_one_line_concat(acc, bool_json(sort_by.1));
            let acc = acc + bool_json(sort_by.1);
            lemma_one_line_concat(acc, "]}"@);
            let acc = acc + "]}"@;
        },
        PlatoMessage::AddDocument { info } => {
            lemma_document_one_line(info);
            let acc = "{\"type\":\"addDocument\",\"info\":"@;
            lemma_one_line_concat(acc, document_json(info));
            let acc = acc + document_json(info);
            lemma_one_line_concat(acc, "}"@);
            let acc = acc + "}"@;
        },
    }
}

fn bool_text(b: bool) -> (r: &'static str)
    ensures
        r@ == bool_json(b),
{
    if b {
        "true"
    } else {
        "false"
    }
}

impl PlatoFileInfo {
    fn to_json(&self) -> (r: String)
        ensures
            r@ == file_json(*self),
    {
        let mut s = String::from_str("{\"path\":");
        s.append(quote_json(self.path.as_str()).as_str());
        s.append(",\"kind\":");
        s.append(quote_json(self.kind.as_str()).as_str());
        s.append(",\"size\":");
        s.append(decimal(self.size).as_str());
        s.append("}");
        s
    }
}

impl PlatoDocumentInfo {
    fn to_json(&self) -> (r: String)
        ensures
            r@ == document_json(*self),
    {
        let mut s = String::from_str("{\"title\":");
        s.append(quote_json(self.title.as_str()).as_str());
        s.append(",\"author\":");
        s.append(quote_json(self.author.as_str()).as_str());
        s.append(",\"year\":");
        s.append(decimal_signed(self.year).as_str());
        s.append(",\"identifier\":");
        s.append(quote_json(self.identifier.as_str()).as_str());
        s.append(",\"added\":");
        s.append(quote_json(self.added.as_str()).as_str());
        s.append(",\"file\":");
        s.append(self.file.to_json().as_str());
        s.append("}");
        s
    }
}

/// `m` announces the file at `path`, of `size` bytes, as a document of
/// `item`, added at some local time written `YYYY-MM-DD HH:MM:SS`.
pub open spec fn announces(m: PlatoMessage, path: Seq<char>, item: BibItem, size: u64) -> bool {
    &&& m matches PlatoMessage::AddDocument { info }
    &&& info.title@ == item.title@
    &&& info.author@ == item.author@
    &&& info.year == item.year
    &&& info.identifier@ == item.key@
    &&& info.file.path@ == path
    &&& info.file.kind@ == extension_of(path)
    &&& info.file.size == size
    &&& exists|t: LocalTime| t.wf() && info.added@ == timestamp_of(t)
}

/// `m` is the notification that carries `text`.
pub open spec fn notifies(m: PlatoMessage, text: Seq<char>) -> bool {
    m matches PlatoMessage::Notification { message } && message@ == text
}

impl PlatoMessage {
    /// A notification that the host shows to the reader.
    pub fn notify(msg: &str) -> (r: Self)
        ensures
            notifies(r, msg@),
    {
        PlatoMessage::Notification { message: String::from_str(msg) }
    }

    /// Asks the host to switch its wireless network on.
    pub fn enable_wifi() -> (r: Self)
        ensures
            r == (PlatoMessage::Wifi { enabled: true }),
    {
        PlatoMessage::Wifi { enabled: true }
    }

    /// Asks the host to switch its wireless network off.
    pub fn disable_wifi() -> (r: Self)
        ensures
            r == (PlatoMessage::Wifi { enabled: false }),
    {
        PlatoMessage::Wifi { enabled: false }
    }

    /// Asks the host to search `path` for `query`, sorted by `sorting`, in
    /// descending order where `reverse` holds.
    pub fn serach(path: &str, query: &str, sorting: &str, reverse: bool) -> (r: Self)
        ensures
            r matches PlatoMessage::Search { path: p, query: q, sort_by }
                && p@ == path@ && q@ == query@ && sort_by.0@ == sorting@ && sort_by.1 == reverse,
    {
        PlatoMessage::Search {
            path: String::from_str(path),
            query: String::from_str(query),
            sort_by: (String::from_str(sorting), reverse),
        }
    }

    /// Announces the file at `path`, `size` bytes long, as a document of
    /// `item`, added now. Its kind is the path's extension, and the empty
    /// kind when the path has none: a file without an extension is still
    /// announced rather than refused.
    pub fn add_document(path: &str, item: &BibItem, size: u64) -> (r: Self)
        ensures
            announces(r, path@, *item, size),
    {
        let file = PlatoFileInfo { path: String::from_str(path), kind: extension(path), size };
        PlatoMessage::AddDocument {
            info: PlatoDocumentInfo {
                title: item.title.clone(),
                author: item.author.clone(),
                year: item.year,
                identifier: item.key.clone(),
                added: now_text(),
                file,
            },
        }
    }

    /// The message as one line of JSON, without the line terminator.
    pub fn to_json(&self) -> (r: String)
        ensures
            r@ == message_json(*self),
            one_line(r@),
    {
        proof {
            lemma_message_one_line(*self);
        }
        match self {
            PlatoMessage::Notification { message } => {
                let mut s = String::from_str("{\"type\":\"notify\",\"message\":");
                s.append(quote_json(message.as_str()).as_str());
                s.append("}");
                s
            },
            PlatoMessage::Wifi { enabled } => {
                let mut s = String::from_str("{\"type\":\"setWifi\",\"enabled\":");
                s.append(bool_text(*enabled));
                s.append("}");
                s
            },
            PlatoMessage::Search { path, query, sort_by } => {
                let mut s = String::from_str("{\"type\":\"search\",\"path\":");
                s.append(quote_json(path.as_str()).as_str());
                s.append(",\"query\":");
                s.append(quote_json(query.as_str()).as_str());
                s.append(",\"sortBy\":[");
                s.append(quote_json(sort_by.0.as_str()).as_str());
                s.append(",");
                s.append(bool_text(sort_by.1));
                s.append("]}");
                s
            },
            PlatoMessage::AddDocument { info } => {
                let mut s = String::from_str("{\"type\":\"addDocument\",\"info\":");
                s.append(info.to_json().as_str());
                s.append("}");
                s
            },
        }
    }
}

} // verus!
