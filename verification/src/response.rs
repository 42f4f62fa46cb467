//! The response side of a completion: what the service's answer holds,
//! and what the caller gets for each way an exchange can end.

use vstd::prelude::*;
use crate::error::{text_view, ChatError, ChatErrorView};
use crate::json::{json_parse, parse_json, trees_of, Json, JsonTree};
use crate::request::{Message, MessageView};
use crate::text::{contains, contains_phrase};

verus! {

/// One candidate reply.
#[derive(Debug, Clone, PartialEq, Eq)]
pub struct Choice {
    pub message: Message,
}

/// A `Choice` over sequences of characters.
pub struct ChoiceView {
    pub message: MessageView,
}

impl View for Choice {
    type V = ChoiceView;

    open spec fn view(&self) -> ChoiceView {
        ChoiceView { message: self.message@ }
    }
}

/// What the service answers on success: its candidate replies, in order.
#[derive(Debug, Clone, PartialEq, Eq)]
pub struct ChatResponse {
    pub choices: Vec<Choice>,
}

/// A `ChatResponse` over sequences.
pub struct ChatResponseView {
    pub choices: Seq<ChoiceView>,
}

impl View for ChatResponse {
    type V = ChatResponseView;

    open spec fn view(&self) -> ChatResponseView {
        ChatResponseView { choices: Seq::new(self.choices@.len(), |i: int| self.choices@[i]@) }
    }
}

/// How the host's attempt to post a request ended.
#[derive(Debug, Clone, PartialEq, Eq)]
pub enum Exchange {
    /// No answer could be had, or its body could not be read; the text is
    /// the cause.
    Failed(String),
    /// The service answered with this status code and this body.
    Answered { status: u16, body: String },
}

/// An `Exchange` over sequences of characters.
pub enum ExchangeView {
    Failed(Seq<char>),
    Answered { status: u16, body: Seq<char> },
}

impl View for Exchange {
    type V = ExchangeView;

    open spec fn view(&self) -> ExchangeView {
        match self {
            Exchange::Failed(cause) => ExchangeView::Failed(cause@),
            Exchange::Answered { status, body } => ExchangeView::Answered {
                status: *status,
                body: body@,
            },
        }
    }
}

/// The message that a document holds: an object whose members `role` and
/// `content` are both strings.
pub open spec fn message_in(tree: JsonTree) -> Option<MessageView> {
    match (tree.member("role"@), tree.member("content"@)) {
        (Some(JsonTree::Text(role)), Some(JsonTree::Text(content))) => Some(
            MessageView { role, content },
        ),
        _ => None,
    }
}

/// The choice that a document holds: an object whose member `message`
/// holds a message.
pub open spec fn choice_in(tree: JsonTree) -> Option<ChoiceView> {
    match tree.member("message"@) {
        Some(inner) => match message_in(inner) {
            Some(message) => Some(ChoiceView { message }),
            None => None,
        },
        None => None,
    }
}

/// The choices that a run of documents holds, where every one of them
/// holds a choice.
pub open spec fn choices_in(items: Seq<JsonTree>) -> Option<Seq<ChoiceView>> {
    if forall|i: int| 0 <= i < items.len() ==> (#[trigger] choice_in(items[i])) is Some {
        Some(Seq::new(items.len(), |i: int| choice_in(items[i])->0))
    } else {
        None
    }
}

/// The response that a document holds: an object whose member `choices`
/// is an array of choices. Members that are not named here are not looked
/// at.
pub open spec fn response_in(tree: JsonTree) -> Option<ChatResponseView> {
    match tree.member("choices"@) {
        Some(JsonTree::Array(items)) => match choices_in(items) {
            Some(choices) => Some(ChatResponseView { choices }),
            None => None,
        },
        _ => None,
    }
}

/// The reply of a response: the content of its first choice. The other
/// choices are not consulted.
pub open spec fn first_reply(response: ChatResponseView) -> Result<Seq<char>, ChatErrorView> {
    if response.choices.len() == 0 {
        Err(ChatErrorView::EmptyResponse)
    } else {
        Ok(response.choices[0].message.content)
    }
}

/// The reply in the body of a successful answer.
pub open spec fn reply_of_body(body: Seq<char>) -> Result<Seq<char>, ChatErrorView> {
    match json_parse(body) {
        Some(tree) => match response_in(tree) {
            Some(response) => first_reply(response),
            None => Err(ChatErrorView::Parse),
        },
        None => Err(ChatErrorView::Parse),
    }
}

/// Whether a status code reports success: the codes from 200 to 299.
pub open spec fn success_status(status: u16) -> bool {
    200 <= status < 300
}

/// The words by which the service says that it does not accept the key.
pub open spec fn invalid_credential_phrase() -> Seq<char> {
    "Incorrect API key"@
}

/// The error for an answer that reports failure: an invalid credential
/// where the body holds the service's words for it, and else the body
/// itself.
pub open spec fn failure_of(body: Seq<char>) -> ChatErrorView {
    if contains(body, invalid_credential_phrase()) {
        ChatErrorView::InvalidCredential
    } else {
        ChatErrorView::Api(body)
    }
}

/// What the caller gets for each way an exchange can end.
pub open spec fn outcome_of(exchange: ExchangeView) -> Result<Seq<char>, ChatErrorView> {
    match exchange {
        ExchangeView::Failed(cause) => Err(ChatErrorView::Transport(cause)),
        ExchangeView::Answered { status, body } => if success_status(status) {
            reply_of_body(body)
        } else {
            Err(failure_of(body))
        },
    }
}

impl Message {
    /// The message that a document holds.
    pub fn from_json(json: &Json) -> (found: Option<Message>)
        ensures
            match found {
                Some(message) => message_in(json@) == Some(message@),
                None => message_in(json@) is None,
            },
    {
        match (json.member("role"), json.member("content")) {
            (Some(Json::Text(role)), Some(Json::Text(content))) => Some(
                Message { role: role.clone(), content: content.clone() },
            ),
            _ => None,
        }
    }
}

impl Choice {
    /// The choice that a document holds.
    pub fn from_json(json: &Json) -> (found: Option<Choice>)
        ensures
            match found {
                Some(choice) => choice_in(json@) == Some(choice@),
                None => choice_in(json@) is None,
            },
    {
        match json.member("message") {
            Some(inner) => match Message::from_json(inner) {
                Some(message) => Some(Choice { message }),
                None => None,
            },
            None => None,
        }
    }
}

impl ChatResponse {
    /// The response that a document holds.
    pub fn from_json(json: &Json) -> (found: Option<ChatResponse>)
        ensures
            match found {
                Some(response) => response_in(json@) == Some(response@),
                None => response_in(json@) is None,
            },
    {
        let items = match json.member("choices") {
            Some(list) => match list.as_array() {
                Some(items) => items,
                None => {
                    return None;
                },
            },
            None => {
                return None;
            },
        };
        let ghost trees = trees_of(items@);
        let mut choices: Vec<Choice> = Vec::new();
        let mut i: usize = 0;
        while i < items.len()
            invariant
                i <= items.len(),
                trees == trees_of(items@),
                json@.member("choices"@) == Some(JsonTree::Array(trees)),
                choices@.len() == i,
                forall|k: int|
                    #![trigger choices@[k]]
                    #![trigger trees[k]]
                    0 <= k < i ==> choice_in(trees[k]) == Some(choices@[k]@),
            decreases items.len() - i,
        {
            match Choice::from_json(&items[i]) {
                Some(choice) => {
                    choices.push(choice);
                },
                None => {
                    assert(choice_in(trees[i as int]) is None);
                    assert(choices_in(trees) is None);
                    return None;
                },
            }
            i += 1;
        }
        let response = ChatResponse { choices };
        assert(choices_in(trees) is Some);
        assert(response@.choices =~= choices_in(trees)->0);
        Some(response)
    }

    /// The reply of this response.
    pub fn first_reply(&self) -> (outcome: Result<String, ChatError>)
        ensures
            text_view(outcome) == first_reply(self@),
    {
        if self.choices.len() == 0 {
            Err(ChatError::EmptyResponse)
        } else {
            Ok(self.choices[0].message.content.clone())
        }
    }
}

/// The reply in the body of a successful answer.
pub fn read_reply(body: &str) -> (outcome: Result<String, ChatError>)
    ensures
        text_view(outcome) == reply_of_body(body@),
{
    match parse_json(body) {
        Ok(json) => match ChatResponse::from_json(&json) {
            Some(response) => response.first_reply(),
            None => Err(ChatError::Parse),
        },
        Err(error) => Err(error),
    }
}

/// Whether a status code reports success.
pub fn is_success(status: u16) -> (success: bool)
    ensures
        success == success_status(status),
{
    200 <= status && status < 300
}

/// The error for an answer that reports failure.
pub fn classify_failure(body: String) -> (error: ChatError)
    ensures
        error@ == failure_of(body@),
{
    if contains_phrase(body.as_str(), "Incorrect API key") {
        ChatError::InvalidCredential
    } else {
        ChatError::Api(body)
    }
}

/// What the caller gets for the way an exchange ended.
pub fn interpret_exchange(exchange: Exchange) -> (outcome: Result<String, ChatError>)
    ensures
        text_view(outcome) == outcome_of(exchange@),
{
    match exchange {
        Exchange::Failed(cause) => Err(ChatError::Transport(cause)),
        Exchange::Answered { status, body } => if is_success(status) {
            read_reply(body.as_str())
        } else {
            Err(classify_failure(body))
        },
    }
}

/// An answer that reports failure and whose body holds the service's
/// words for a key it does not accept is an invalid credential, whatever
/// the status code and whatever else the body holds.
pub proof fn lemma_rejected_key_is_invalid_credential(status: u16, body: Seq<char>)
    requires
        !success_status(status),
        contains(body, invalid_credential_phrase()),
    ensures
        outcome_of(ExchangeView::Answered { status, body }) == Err::<Seq<char>, ChatErrorView>(
            ChatErrorView::InvalidCredential,
        ),
{
}

} // verus!
