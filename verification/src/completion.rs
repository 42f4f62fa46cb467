//! The completion client: from the stored credential and a prompt to the
//! request that is sent, and from the way the exchange ended to the reply
//! or the error that the caller gets.

use vstd::prelude::*;
use crate::credential::{load_api_key, loaded, StoredFile, StoredFileView};
use crate::error::{text_view, ChatError, ChatErrorView};
use crate::request::{
    bearer,
    build_request,
    http_request,
    request_view,
    HttpRequest,
    HttpRequestView,
};
use crate::response::{interpret_exchange, outcome_of, Exchange};

verus! {

/// The request that is sent for a prompt, given the state of the
/// credential file. There is none while no key is stored, none where the
/// stored key is empty, and none where the file cannot be loaded: then
/// nothing is sent at all.
pub open spec fn prepared(file: StoredFileView, prompt: Seq<char>) -> Result<
    HttpRequestView,
    ChatErrorView,
> {
    match loaded(file) {
        Err(error) => Err(error),
        Ok(None) => Err(ChatErrorView::MissingCredential),
        Ok(Some(key)) => if key.len() == 0 {
            Err(ChatErrorView::MissingCredential)
        } else {
            http_request(key, prompt)
        },
    }
}

/// Loads the credential and builds the request that carries `prompt`. A
/// stored key of no characters is treated as no key. An error here means
/// that no request exists, so none can be sent.
pub fn prepare_request(file: &StoredFile, prompt: &str) -> (outcome: Result<HttpRequest, ChatError>)
    ensures
        request_view(outcome) == prepared(file@, prompt@),
{
    match load_api_key(file) {
        Err(error) => Err(error),
        Ok(None) => Err(ChatError::MissingCredential),
        Ok(Some(key)) => if key.as_str().is_empty() {
            Err(ChatError::MissingCredential)
        } else {
            build_request(key.as_str(), prompt)
        },
    }
}

/// Sends `prompt` to the service and returns its first reply. `transport`
/// posts the request and reports how that ended; it is called once, with
/// the prepared request, and only where there is one. Whatever it
/// reports is interpreted as `outcome_of` says.
pub fn send_openai_request<T: FnOnce(HttpRequest) -> Exchange>(
    file: &StoredFile,
    prompt: &str,
    transport: T,
) -> (outcome: Result<String, ChatError>)
    requires
        forall|request: HttpRequest|
            prepared(file@, prompt@) == Ok::<HttpRequestView, ChatErrorView>(request@)
                ==> call_requires(transport, (request,)),
    ensures
        match prepared(file@, prompt@) {
            Err(error) => text_view(outcome) == Err::<Seq<char>, ChatErrorView>(error),
            Ok(sent) => exists|request: HttpRequest, exchange: Exchange|
                {
                    &&& request@ == sent
                    &&& call_ensures(transport, (request,), exchange)
                    &&& text_view(outcome) == outcome_of(exchange@)
                },
        },
{
    match prepare_request(file, prompt) {
        Err(error) => Err(error),
        Ok(request) => {
            let ghost sent = request;
            let exchange = transport(request);
            let ghost ended = exchange;
            let outcome = interpret_exchange(exchange);
            assert(sent@ == prepared(file@, prompt@)->Ok_0 && call_ensures(
                transport,
                (sent,),
                ended,
            ) && text_view(outcome) == outcome_of(ended@));
            outcome
        },
    }
}

/// While no key is stored, or the stored key is empty, a prompt leads to
/// the missing-credential error and to no request.
pub proof fn lemma_no_request_without_credential(file: StoredFileView, prompt: Seq<char>)
    requires
        loaded(file) matches Ok(held) && (held matches Some(key) ==> key.len() == 0),
    ensures
        prepared(file, prompt) == Err::<HttpRequestView, ChatErrorView>(
            ChatErrorView::MissingCredential,
        ),
{
}

/// A request is prepared only once a key of at least one character has
/// been loaded, and it carries exactly that key as its bearer token.
pub proof fn lemma_request_carries_credential(file: StoredFileView, prompt: Seq<char>)
    requires
        prepared(file, prompt) is Ok,
    ensures
        loaded(file) matches Ok(Some(key)) && key.len() > 0 && prepared(
            file,
            prompt,
        )->Ok_0.authorization == bearer(key),
{
}

} // verus!
