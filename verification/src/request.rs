//! The request side of a completion: the chat request for a prompt, its
//! JSON text, and the HTTP request that carries it.

use vstd::prelude::*;
use vstd::string::StringExecFns;
use crate::error::{ChatError, ChatErrorView};
use crate::json::{json_quoted, quote_json};

verus! {

/// One message of a conversation.
#[derive(Debug, Clone, PartialEq, Eq)]
pub struct Message {
    pub role: String,
    pub content: String,
}

/// A `Message` over sequences of characters.
pub struct MessageView {
    pub role: Seq<char>,
    pub content: Seq<char>,
}

impl View for Message {
    type V = MessageView;

    open spec fn view(&self) -> MessageView {
        MessageView { role: self.role@, content: self.content@ }
    }
}

/// What is asked of the service: a model and the conversation so far.
#[derive(Debug, Clone, PartialEq, Eq)]
pub struct ChatRequest {
    pub model: String,
    pub messages: Vec<Message>,
}

/// A `ChatRequest` over sequences.
pub struct ChatRequestView {
    pub model: Seq<char>,
    pub messages: Seq<MessageView>,
}

impl View for ChatRequest {
    type V = ChatRequestView;

    open spec fn view(&self) -> ChatRequestView {
        ChatRequestView {
            model: self.model@,
            messages: Seq::new(self.messages@.len(), |i: int| self.messages@[i]@),
        }
    }
}

/// An HTTP POST, ready to be sent by the host.
#[derive(Debug, Clone, PartialEq, Eq)]
pub struct HttpRequest {
    /// Where to post.
    pub url: String,
    /// The value of the `Authorization` header.
    pub authorization: String,
    /// The value of the `Content-Type` header.
    pub content_type: String,
    /// The body.
    pub body: String,
}

/// An `HttpRequest` over sequences of characters.
pub struct HttpRequestView {
    pub url: Seq<char>,
    pub authorization: Seq<char>,
    pub content_type: Seq<char>,
    pub body: Seq<char>,
}

impl View for HttpRequest {
    type V = HttpRequestView;

    open spec fn view(&self) -> HttpRequestView {
        HttpRequestView {
            url: self.url@,
            authorization: self.authorization@,
            content_type: self.content_type@,
            body: self.body@,
        }
    }
}

/// The chat-completions endpoint.
pub open spec fn endpoint() -> Seq<char> {
    "https://api.openai.com/v1/chat/completions"@
}

/// The model every request asks for.
pub open spec fn model_name() -> Seq<char> {
    "gpt-3.5-turbo"@
}

/// The role under which a prompt is sent.
pub open spec fn user_role() -> Seq<char> {
    "user"@
}

/// The request for one prompt: the fixed model and a single message of
/// the user, whose content is the prompt as it was given.
pub open spec fn request_for(prompt: Seq<char>) -> ChatRequestView {
    ChatRequestView {
        model: model_name(),
        messages: seq![MessageView { role: user_role(), content: prompt }],
    }
}

/// The JSON text of a message whose role and content are already written
/// as JSON strings.
pub open spec fn message_around(role: Seq<char>, content: Seq<char>) -> Seq<char> {
    "{\"role\":"@ + role + ",\"content\":"@ + content + "}"@
}

/// The JSON text of one message.
pub open spec fn message_text(message: MessageView) -> Seq<char> {
    message_around(json_quoted(message.role), json_quoted(message.content))
}

/// The JSON texts of the messages, in order, with a comma between each
/// two.
pub open spec fn messages_text(messages: Seq<MessageView>) -> Seq<char>
    decreases messages.len(),
{
    if messages.len() == 0 {
        Seq::empty()
    } else if messages.len() == 1 {
        message_text(messages.last())
    } else {
        messages_text(messages.drop_last()) + ","@ + message_text(messages.last())
    }
}

/// The JSON text of a request, written without any white space, around a
/// model that is already written as a JSON string and the text of the
/// messages.
pub open spec fn request_around(model: Seq<char>, messages: Seq<char>) -> Seq<char> {
    "{\"model\":"@ + model + ",\"messages\":["@ + messages + "]}"@
}

/// The JSON text of a request.
pub open spec fn request_text(request: ChatRequestView) -> Seq<char> {
    request_around(json_quoted(request.model), messages_text(request.messages))
}

/// The value of the `Authorization` header for a key.
pub open spec fn bearer(key: Seq<char>) -> Seq<char> {
    "Bearer "@ + key
}

/// The HTTP request that carries `prompt` under `key`. There is none for
/// the empty key: a key of no characters is no credential.
pub open spec fn http_request(key: Seq<char>, prompt: Seq<char>) -> Result<
    HttpRequestView,
    ChatErrorView,
> {
    if key.len() == 0 {
        Err(ChatErrorView::MissingCredential)
    } else {
        Ok(
            HttpRequestView {
                url: endpoint(),
                authorization: bearer(key),
                content_type: "application/json"@,
                body: request_text(request_for(prompt)),
            },
        )
    }
}

/// A request result, over sequences of characters.
pub open spec fn request_view(outcome: Result<HttpRequest, ChatError>) -> Result<
    HttpRequestView,
    ChatErrorView,
> {
    match outcome {
        Ok(request) => Ok(request@),
        Err(error) => Err(error@),
    }
}

/// The JSON text of a message, around its role and its content as they
/// were quoted.
pub fn write_message(role: &str, content: &str) -> (text: String)
    ensures
        text@ == message_around(role@, content@),
{
    String::from_str("{\"role\":").concat(role).concat(",\"content\":").concat(content).concat(
        "}",
    )
}

/// The JSON text of a request, around its model as it was quoted and the
/// text of its messages.
pub fn write_request(model: &str, messages: &str) -> (text: String)
    ensures
        text@ == request_around(model@, messages@),
{
    String::from_str("{\"model\":").concat(model).concat(",\"messages\":[").concat(
        messages,
    ).concat("]}")
}

impl Message {
    /// The JSON text of this message.
    pub fn to_json_text(&self) -> (text: String)
        ensures
            text@ == message_text(self@),
    {
        let role = quote_json(self.role.as_str());
        let content = quote_json(self.content.as_str());
        write_message(role.as_str(), content.as_str())
    }
}

impl ChatRequest {
    /// The request for one prompt.
    pub fn for_prompt(prompt: &str) -> (request: ChatRequest)
        ensures
            request@ == request_for(prompt@),
    {
        let message = Message { role: String::from_str("user"), content: String::from_str(prompt) };
        let mut messages: Vec<Message> = Vec::new();
        messages.push(message);
        let request = ChatRequest { model: String::from_str("gpt-3.5-turbo"), messages };
        assert(request@.messages =~= request_for(prompt@).messages);
        request
    }

    /// The JSON text of this request.
    pub fn to_json_text(&self) -> (text: String)
        ensures
            text@ == request_text(self@),
    {
        let model = quote_json(self.model.as_str());
        let mut list = String::new();
        let mut i: usize = 0;
        assert(self@.messages.take(0) =~= Seq::<MessageView>::empty());
        while i < self.messages.len()
            invariant
                i <= self.messages.len(),
                self@.messages.len() == self.messages.len(),
                messages_text(self@.messages.take(i as int)) == list@,
            decreases self.messages.len() - i,
        {
            let ghost before = self@.messages.take(i as int);
            let ghost upto = self@.messages.take(i + 1);
            assert(upto.drop_last() =~= before);
            assert(upto.last() == self.messages@[i as int]@);
            let text = self.messages[i].to_json_text();
            if i > 0 {
                list.append(",");
            }
            list.append(text.as_str());
            assert(list@ =~= messages_text(upto));
            i += 1;
        }
        assert(self@.messages.take(i as int) =~= self@.messages);
        write_request(model.as_str(), list.as_str())
    }
}

/// The HTTP request that carries `prompt` to the service under `key`. The
/// empty key is refused before anything is built.
pub fn build_request(key: &str, prompt: &str) -> (outcome: Result<HttpRequest, ChatError>)
    ensures
        request_view(outcome) == http_request(key@, prompt@),
{
    if key.is_empty() {
        return Err(ChatError::MissingCredential);
    }
    let body = ChatRequest::for_prompt(prompt).to_json_text();
    Ok(
        HttpRequest {
            url: String::from_str("https://api.openai.com/v1/chat/completions"),
            authorization: String::from_str("Bearer ").concat(key),
            content_type: String::from_str("application/json"),
            body,
        },
    )
}

} // verus!
