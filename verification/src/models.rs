//! The entry model: content types, entries and errors.

use vstd::prelude::*;
use vstd::string::StringExecFns;
use crate::text::{opt_text, str_eq};

verus! {

/// The kind of a captured clip. It decides how the clip is shown and whether
/// its content is searchable.
#[derive(Debug, Clone, Copy, PartialEq, Eq, Structural)]
pub enum ContentType {
    /// Plain text: shown in previews and searchable.
    Text,
    /// A secret: masked wherever it is shown, and found by its label alone.
    Password,
}

impl ContentType {
    /// The canonical lowercase name of the variant.
    pub open spec fn name(self) -> Seq<char> {
        match self {
            ContentType::Text => "text"@,
            ContentType::Password => "password"@,
        }
    }

    /// The variant that a name stands for, if any.
    pub open spec fn parsed(s: Seq<char>) -> Option<ContentType> {
        if s == "text"@ {
            Some(ContentType::Text)
        } else if s == "password"@ {
            Some(ContentType::Password)
        } else {
            None
        }
    }

    /// The message given for a name that stands for no variant.
    pub open spec fn parse_error(s: Seq<char>) -> Seq<char> {
        "Invalid content type: "@ + s + ". Must be 'text' or 'password'."@
    }

    /// Formats the variant as its canonical name.
    pub fn to_string(&self) -> (r: String)
        ensures
            r@ == self.name(),
    {
        match self {
            ContentType::Text => "text".to_owned(),
            ContentType::Password => "password".to_owned(),
        }
    }
}

impl std::str::FromStr for ContentType {
    type Err = String;

    /// Parses `"text"` and `"password"`; anything else is an error, never a
    /// default.
    fn from_str(s: &str) -> (r: Result<ContentType, String>)
        ensures
            match ContentType::parsed(s@) {
                Some(t) => r == Ok::<ContentType, String>(t),
                None => r matches Err(m) && m@ == ContentType::parse_error(s@),
            },
    {
        if str_eq(s, "text") {
            Ok(ContentType::Text)
        } else if str_eq(s, "password") {
            Ok(ContentType::Password)
        } else {
            let mut m = "Invalid content type: ".to_owned();
            m.append(s);
            m.append(". Must be 'text' or 'password'.");
            Err(m)
        }
    }
}

/// Formatting a content type and parsing the result gives the same type back.
pub proof fn lemma_content_type_round_trip(t: ContentType)
    ensures
        ContentType::parsed(t.name()) == Some(t),
{
    reveal_strlit("text");
    reveal_strlit("password");
    assert("text"@.len() == 4 && "password"@.len() == 8);
}

/// Parsing a name and formatting the result gives the same name back.
pub proof fn lemma_content_type_name_round_trip(s: Seq<char>)
    ensures
        ContentType::parsed(s) matches Some(t) ==> t.name() == s,
{
}

/// One captured clipboard snapshot.
#[derive(Debug, Clone)]
pub struct ClipEntry {
    /// Given by the store on insert; later entries have greater ids.
    pub id: i64,
    /// The captured text.
    pub content: String,
    pub content_type: ContentType,
    /// The length of the content in UTF-8 bytes at capture.
    pub byte_size: usize,
    /// The time of capture, as RFC 3339 in UTC.
    pub created_at: String,
    /// A tag given by the user; the only field that changes after capture.
    pub label: Option<String>,
}

/// The mathematical value of a [`ClipEntry`].
pub struct ClipEntryView {
    pub id: int,
    pub content: Seq<char>,
    pub content_type: ContentType,
    pub byte_size: nat,
    pub created_at: Seq<char>,
    pub label: Option<Seq<char>>,
}

impl View for ClipEntry {
    type V = ClipEntryView;

    open spec fn view(&self) -> ClipEntryView {
        ClipEntryView {
            id: self.id as int,
            content: self.content@,
            content_type: self.content_type,
            byte_size: self.byte_size as nat,
            created_at: self.created_at@,
            label: opt_text(self.label),
        }
    }
}

impl ClipEntryView {
    /// An entry as captured: the content is not empty and `byte_size` is its
    /// length in UTF-8 bytes.
    pub open spec fn wf(self) -> bool {
        &&& self.content.len() > 0
        &&& self.byte_size == vstd::utf8::encode_utf8(self.content).len()
    }

    /// The same entry under another id.
    pub open spec fn with_id(self, id: int) -> ClipEntryView {
        ClipEntryView { id, ..self }
    }
}

/// What can go wrong.
#[derive(Debug)]
pub enum ClipmError {
    /// The platform's clipboard failed.
    Clipboard(String),
    /// The store failed, or holds what it should not.
    Database(String),
    /// A file or stream other than the database failed.
    Io(String),
    /// No entry has the id asked for, or the history is empty.
    NotFound(String),
    /// A content type that does not exist, or an empty search query.
    InvalidInput(String),
    /// The clipboard holds no text.
    EmptyClipboard,
}

/// The mathematical value of a [`ClipmError`].
pub enum ClipmErrorView {
    Clipboard(Seq<char>),
    Database(Seq<char>),
    Io(Seq<char>),
    NotFound(Seq<char>),
    InvalidInput(Seq<char>),
    EmptyClipboard,
}

impl View for ClipmError {
    type V = ClipmErrorView;

    open spec fn view(&self) -> ClipmErrorView {
        match self {
            ClipmError::Clipboard(m) => ClipmErrorView::Clipboard(m@),
            ClipmError::Database(m) => ClipmErrorView::Database(m@),
            ClipmError::Io(m) => ClipmErrorView::Io(m@),
            ClipmError::NotFound(m) => ClipmErrorView::NotFound(m@),
            ClipmError::InvalidInput(m) => ClipmErrorView::InvalidInput(m@),
            ClipmError::EmptyClipboard => ClipmErrorView::EmptyClipboard,
        }
    }
}

impl ClipmErrorView {
    /// The one-line message of the error.
    pub open spec fn text(self) -> Seq<char> {
        match self {
            ClipmErrorView::Clipboard(m) => "Clipboard error: "@ + m,
            ClipmErrorView::Database(m) => "Database error: "@ + m,
            ClipmErrorView::Io(m) => "I/O error: "@ + m,
            ClipmErrorView::NotFound(m) => "Not found: "@ + m,
            ClipmErrorView::InvalidInput(m) => "Invalid input: "@ + m,
            ClipmErrorView::EmptyClipboard => "Clipboard is empty"@,
        }
    }
}

impl ClipmError {
    /// Formats the error as its one-line message.
    pub fn to_string(&self) -> (r: String)
        ensures
            r@ == self@.text(),
    {
        match self {
            ClipmError::Clipboard(m) => "Clipboard error: ".to_owned().concat(m.as_str()),
            ClipmError::Database(m) => "Database error: ".to_owned().concat(m.as_str()),
            ClipmError::Io(m) => "I/O error: ".to_owned().concat(m.as_str()),
            ClipmError::NotFound(m) => "Not found: ".to_owned().concat(m.as_str()),
            ClipmError::InvalidInput(m) => "Invalid input: ".to_owned().concat(m.as_str()),
            ClipmError::EmptyClipboard => "Clipboard is empty".to_owned(),
        }
    }
}

} // verus!
