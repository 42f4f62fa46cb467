//! The ways an operation can fail, and the text shown for each.

use vstd::prelude::*;
use vstd::string::StringExecFns;

verus! {

/// Every failure an operation of this crate can report.
#[derive(Debug, Clone, PartialEq, Eq)]
pub enum ChatError {
    /// The host has no configuration directory to offer.
    PathResolution,
    /// A file or directory operation failed; the text is the cause.
    Io(String),
    /// Text that should have been JSON of the expected shape was not.
    Parse,
    /// No API key has been stored yet.
    MissingCredential,
    /// The request never got an answer; the text is the cause.
    Transport(String),
    /// The service refused the stored API key.
    InvalidCredential,
    /// The service answered with a failure; the text is the answer's body.
    Api(String),
    /// The service answered without a single choice.
    EmptyResponse,
}

/// A `ChatError` with its text as a sequence of characters.
pub enum ChatErrorView {
    PathResolution,
    Io(Seq<char>),
    Parse,
    MissingCredential,
    Transport(Seq<char>),
    InvalidCredential,
    Api(Seq<char>),
    EmptyResponse,
}

impl View for ChatError {
    type V = ChatErrorView;

    open spec fn view(&self) -> ChatErrorView {
        match self {
            ChatError::PathResolution => ChatErrorView::PathResolution,
            ChatError::Io(cause) => ChatErrorView::Io(cause@),
            ChatError::Parse => ChatErrorView::Parse,
            ChatError::MissingCredential => ChatErrorView::MissingCredential,
            ChatError::Transport(cause) => ChatErrorView::Transport(cause@),
            ChatError::InvalidCredential => ChatErrorView::InvalidCredential,
            ChatError::Api(body) => ChatErrorView::Api(body@),
            ChatError::EmptyResponse => ChatErrorView::EmptyResponse,
        }
    }
}

impl ChatErrorView {
    /// The text shown to the user for this error: one fixed sentence per
    /// kind, the cause itself where the error carries one, and the
    /// service's answer behind a fixed prefix.
    pub open spec fn message(self) -> Seq<char> {
        match self {
            ChatErrorView::PathResolution => "failed to get app config dir"@,
            ChatErrorView::Io(cause) => cause,
            ChatErrorView::Parse => "Os dados não estão no formato esperado."@,
            ChatErrorView::MissingCredential =>
                "A chave da API não foi configurada. Por favor, adicione a chave nas configurações."@,
            ChatErrorView::Transport(cause) => cause,
            ChatErrorView::InvalidCredential =>
                "A chave da API é inválida. Por favor, corrija a chave nas configurações."@,
            ChatErrorView::Api(body) => "Erro da API: "@ + body,
            ChatErrorView::EmptyResponse => "Nenhuma resposta da IA."@,
        }
    }
}

impl ChatError {
    /// The text shown to the user for this error.
    pub fn message(&self) -> (text: String)
        ensures
            text@ == self@.message(),
    {
        match self {
            ChatError::PathResolution => String::from_str("failed to get app config dir"),
            ChatError::Io(cause) => cause.clone(),
            ChatError::Parse => String::from_str("Os dados não estão no formato esperado."),
            ChatError::MissingCredential => String::from_str(
                "A chave da API não foi configurada. Por favor, adicione a chave nas configurações.",
            ),
            ChatError::Transport(cause) => cause.clone(),
            ChatError::InvalidCredential => String::from_str(
                "A chave da API é inválida. Por favor, corrija a chave nas configurações.",
            ),
            ChatError::Api(body) => String::from_str("Erro da API: ").concat(body.as_str()),
            ChatError::EmptyResponse => String::from_str("Nenhuma resposta da IA."),
        }
    }
}

/// A text or an error, over sequences of characters.
pub open spec fn text_view(outcome: Result<String, ChatError>) -> Result<Seq<char>, ChatErrorView> {
    match outcome {
        Ok(text) => Ok(text@),
        Err(error) => Err(error@),
    }
}

/// The text where there is one, and a parse error where there is none.
pub open spec fn or_parse_error(text: Option<Seq<char>>) -> Result<Seq<char>, ChatErrorView> {
    match text {
        Some(text) => Ok(text),
        None => Err(ChatErrorView::Parse),
    }
}

} // verus!
