//! The credential store: one API key, kept as a small JSON document in one
//! file of the user's configuration directory. The host reads and writes
//! the file; what is written, and what a file that was read means, is
//! decided here.

use vstd::prelude::*;
use vstd::string::StringExecFns;
use crate::error::{or_parse_error, text_view, ChatError, ChatErrorView};
use crate::json::{json_parse, json_quoted, parse_json, quote_json, Json, JsonTree};

verus! {

/// What the host found when it looked for its configuration directory and
/// made sure that it exists.
#[derive(Debug, Clone, PartialEq, Eq)]
pub enum ConfigDir {
    /// The host has no such directory to offer.
    Unavailable,
    /// The directory was already there.
    Present,
    /// The directory was missing and has been created.
    Created,
    /// The directory was missing and could not be created; the text is the
    /// cause.
    CreateFailed(String),
}

/// A `ConfigDir` with its text as a sequence of characters.
pub enum ConfigDirView {
    Unavailable,
    Present,
    Created,
    CreateFailed(Seq<char>),
}

impl View for ConfigDir {
    type V = ConfigDirView;

    open spec fn view(&self) -> ConfigDirView {
        match self {
            ConfigDir::Unavailable => ConfigDirView::Unavailable,
            ConfigDir::Present => ConfigDirView::Present,
            ConfigDir::Created => ConfigDirView::Created,
            ConfigDir::CreateFailed(cause) => ConfigDirView::CreateFailed(cause@),
        }
    }
}

/// What the host found when it read the credential file.
#[derive(Debug, Clone, PartialEq, Eq)]
pub enum StoredFile {
    /// There is no such file: nothing has been saved yet.
    Absent,
    /// The file is there and could not be read; the text is the cause.
    Unreadable(String),
    /// The whole content of the file.
    Content(String),
}

/// A `StoredFile` with its text as a sequence of characters.
pub enum StoredFileView {
    Absent,
    Unreadable(Seq<char>),
    Content(Seq<char>),
}

impl View for StoredFile {
    type V = StoredFileView;

    open spec fn view(&self) -> StoredFileView {
        match self {
            StoredFile::Absent => StoredFileView::Absent,
            StoredFile::Unreadable(cause) => StoredFileView::Unreadable(cause@),
            StoredFile::Content(text) => StoredFileView::Content(text@),
        }
    }
}

/// The outcome of looking for the credential, over sequences of characters.
pub open spec fn credential_view(outcome: Result<Option<String>, ChatError>) -> Result<
    Option<Seq<char>>,
    ChatErrorView,
> {
    match outcome {
        Ok(Some(key)) => Ok(Some(key@)),
        Ok(None) => Ok(None),
        Err(error) => Err(error@),
    }
}

/// The path of the credential file, relative to the configuration
/// directory.
pub open spec fn config_file() -> Seq<char> {
    "settings.json"@
}

/// The name under which the document holds the key.
pub open spec fn key_field() -> Seq<char> {
    "api_key"@
}

/// Where the credential file is, given what the host found of its
/// directory: a path relative to that directory, once the directory is
/// there.
pub open spec fn config_path(dir: ConfigDirView) -> Result<Seq<char>, ChatErrorView> {
    match dir {
        ConfigDirView::Unavailable => Err(ChatErrorView::PathResolution),
        ConfigDirView::CreateFailed(cause) => Err(ChatErrorView::Io(cause)),
        ConfigDirView::Present => Ok(config_file()),
        ConfigDirView::Created => Ok(config_file()),
    }
}

/// The credential that a document holds. The document is an object; its
/// member `api_key` is a string, the key, or is `null` or missing, and then
/// no key is stored. Other members are not looked at. Anything else is no
/// credential document.
pub open spec fn credential_in(tree: JsonTree) -> Result<Option<Seq<char>>, ChatErrorView> {
    if tree is Object {
        match tree.member(key_field()) {
            None => Ok(None),
            Some(JsonTree::Null) => Ok(None),
            Some(JsonTree::Text(key)) => Ok(Some(key)),
            Some(_) => Err(ChatErrorView::Parse),
        }
    } else {
        Err(ChatErrorView::Parse)
    }
}

/// The credential that the text of a file holds.
pub open spec fn credential_of_text(text: Seq<char>) -> Result<Option<Seq<char>>, ChatErrorView> {
    match json_parse(text) {
        Some(tree) => credential_in(tree),
        None => Err(ChatErrorView::Parse),
    }
}

/// What loading returns for each state of the file: no key while there is
/// no file, the cause where it cannot be read, and else what its text
/// holds.
pub open spec fn loaded(file: StoredFileView) -> Result<Option<Seq<char>>, ChatErrorView> {
    match file {
        StoredFileView::Absent => Ok(None),
        StoredFileView::Unreadable(cause) => Err(ChatErrorView::Io(cause)),
        StoredFileView::Content(text) => credential_of_text(text),
    }
}

/// The document around a key that is already written as a JSON string.
pub open spec fn document_around(literal: Seq<char>) -> Seq<char> {
    "{\n  \"api_key\": "@ + literal + "\n}"@
}

/// The text that saving `key` puts in the file: the document around the
/// quoted key. There is none where the document would not be read back as
/// holding exactly this key.
pub open spec fn saved(key: Seq<char>) -> Option<Seq<char>> {
    confirmed(
        document_around(json_quoted(key)),
        key,
        credential_of_text(document_around(json_quoted(key))),
    )
}

/// A text that is to hold `key`, once it has been read back: the text
/// where it was read as holding exactly `key`, and else none.
pub open spec fn confirmed(
    text: Seq<char>,
    key: Seq<char>,
    held: Result<Option<Seq<char>>, ChatErrorView>,
) -> Option<Seq<char>> {
    if held == Ok::<Option<Seq<char>>, ChatErrorView>(Some(key)) {
        Some(text)
    } else {
        None
    }
}

/// Where the credential file is, given what the host found of its
/// directory.
pub fn get_config_path(dir: ConfigDir) -> (path: Result<String, ChatError>)
    ensures
        text_view(path) == config_path(dir@),
{
    match dir {
        ConfigDir::Unavailable => Err(ChatError::PathResolution),
        ConfigDir::CreateFailed(cause) => Err(ChatError::Io(cause)),
        ConfigDir::Present => Ok(String::from_str("settings.json")),
        ConfigDir::Created => Ok(String::from_str("settings.json")),
    }
}

/// The credential that a document holds.
pub fn credential_of_json(json: &Json) -> (outcome: Result<Option<String>, ChatError>)
    ensures
        credential_view(outcome) == credential_in(json@),
{
    match json {
        Json::Object(_) => match json.member("api_key") {
            None => Ok(None),
            Some(Json::Null) => Ok(None),
            Some(Json::Text(key)) => Ok(Some(key.clone())),
            Some(_) => Err(ChatError::Parse),
        },
        _ => Err(ChatError::Parse),
    }
}

/// The credential that the text of a file holds.
pub fn read_credential(text: &str) -> (outcome: Result<Option<String>, ChatError>)
    ensures
        credential_view(outcome) == credential_of_text(text@),
{
    match parse_json(text) {
        Ok(json) => credential_of_json(&json),
        Err(error) => Err(error),
    }
}

/// Loads the credential from what the host found in its place. A missing
/// file is no error: there is no key yet.
pub fn load_api_key(file: &StoredFile) -> (outcome: Result<Option<String>, ChatError>)
    ensures
        credential_view(outcome) == loaded(file@),
{
    match file {
        StoredFile::Absent => Ok(None),
        StoredFile::Unreadable(cause) => Err(ChatError::Io(cause.clone())),
        StoredFile::Content(text) => read_credential(text.as_str()),
    }
}

/// The document around a key that was already quoted as a JSON string.
pub fn write_document(literal: &str) -> (text: String)
    ensures
        text@ == document_around(literal@),
{
    String::from_str("{\n  \"api_key\": ").concat(literal).concat("\n}")
}

/// Hands out a text that is to hold `key`, given what reading it back
/// gave: the text where that is exactly `key`, and a parse error where it
/// is anything else.
pub fn confirm_saved(text: String, key: &str, held: Result<Option<String>, ChatError>) -> (outcome:
    Result<String, ChatError>)
    ensures
        text_view(outcome) == or_parse_error(confirmed(text@, key@, credential_view(held))),
{
    let wanted = key.to_owned();
    match held {
        Ok(Some(found)) => if found == wanted {
            Ok(text)
        } else {
            Err(ChatError::Parse)
        },
        _ => Err(ChatError::Parse),
    }
}

/// The text to put in the credential file so that it holds `key`, in
/// place of whatever the file held. The text is read back before it is
/// handed out, so that what is written is always loaded again as this key.
pub fn save_api_key(key: &str) -> (outcome: Result<String, ChatError>)
    ensures
        text_view(outcome) == or_parse_error(saved(key@)),
{
    let literal = quote_json(key);
    let text = write_document(literal.as_str());
    let held = read_credential(text.as_str());
    confirm_saved(text, key, held)
}

/// Round trip: once saving `key` has given its text and the file holds
/// that text, loading gives exactly `key`.
pub proof fn lemma_save_then_load(key: Seq<char>)
    requires
        saved(key) is Some,
    ensures
        loaded(StoredFileView::Content(saved(key)->0)) == Ok::<Option<Seq<char>>, ChatErrorView>(
            Some(key),
        ),
{
}

/// Two saves that each replace the file as a whole, in whatever order
/// they land: the file then holds the text of one of them, and loading
/// gives one of the two keys, never a mixture.
pub proof fn lemma_concurrent_saves(first: Seq<char>, second: Seq<char>, file: StoredFileView)
    requires
        saved(first) is Some,
        saved(second) is Some,
        file == StoredFileView::Content(saved(first)->0) || file == StoredFileView::Content(
            saved(second)->0,
        ),
    ensures
        loaded(file) == Ok::<Option<Seq<char>>, ChatErrorView>(Some(first)) || loaded(file) == Ok::<
            Option<Seq<char>>,
            ChatErrorView,
        >(Some(second)),
{
    lemma_save_then_load(first);
    lemma_save_then_load(second);
}

} // verus!
