use vstd::prelude::*;

use crate::conversation::{models, Conversation};
use crate::turn::{Role, Turn, TurnModel};

verus! {

/// The model that every request names.
pub const MODEL: &'static str = "gpt-3.5-turbo";

/// The completions endpoint that every request is posted to.
pub const ENDPOINT: &'static str = "https://api.openai.com/v1/chat/completions";

/// The environment variable that holds the credential.
pub const CREDENTIAL_VAR: &'static str = "OPENAI_API_KEY";

/// Why a session stopped.
#[derive(Debug)]
pub enum ChatError {
    /// No credential was supplied at startup.
    Credential,
    /// The request could not be sent, or no answer came back.
    Transport(String),
    /// The answer was not a well-formed completion.
    Decode(String),
    /// The provider answered with an empty list of choices.
    EmptyResponse,
}

impl ChatError {
    /// The text shown to the user for this error.
    pub open spec fn spec_message(&self) -> Seq<char> {
        match self {
            ChatError::Credential => "OPENAI_API_KEY not set"@,
            ChatError::Transport(m) => m@,
            ChatError::Decode(m) => m@,
            ChatError::EmptyResponse => "No response from AI"@,
        }
    }

    pub fn message(&self) -> (r: String)
        ensures
            r@ == self.spec_message(),
    {
        match self {
            ChatError::Credential => String::from_str("OPENAI_API_KEY not set"),
            ChatError::Transport(m) => m.clone(),
            ChatError::Decode(m) => m.clone(),
            ChatError::EmptyResponse => String::from_str("No response from AI"),
        }
    }
}

/// The body of one request: the model and the whole history, oldest first.
pub struct ChatRequest {
    pub model: String,
    pub messages: Vec<Turn>,
}

/// What the provider answered: the text of each candidate completion, in order.
pub struct ChatResponse {
    pub choices: Vec<String>,
}

/// The texts of a list of choices.
pub open spec fn texts(cs: Seq<String>) -> Seq<Seq<char>> {
    cs.map_values(|c: String| c@)
}

/// The turn of the assistant that carries `content`.
pub open spec fn assistant_turn(content: Seq<char>) -> TurnModel {
    TurnModel { role: Role::Assistant, content: content }
}

/// The history once an answer with the given choices has come back: the last
/// choice is the reply; with no choice the history stays as it was.
pub open spec fn after_response(h: Seq<TurnModel>, choices: Seq<Seq<char>>) -> Seq<TurnModel> {
    if choices.len() == 0 {
        h
    } else {
        h.push(assistant_turn(choices.last()))
    }
}

/// The payload for the next call: the fixed model and every turn so far.
pub fn build_request(conversation: &Conversation) -> (r: ChatRequest)
    ensures
        r.model@ == MODEL@,
        models(r.messages@) == conversation@,
{
    ChatRequest { model: String::from_str(MODEL), messages: conversation.snapshot() }
}

/// Takes the provider's answer: the last choice is the reply, recorded as a
/// turn of the assistant and returned. With no choice nothing is recorded.
pub fn accept_response(conversation: &mut Conversation, response: ChatResponse) -> (r: Result<
    String,
    ChatError,
>)
    ensures
        final(conversation)@ == after_response(old(conversation)@, texts(response.choices@)),
        response.choices@.len() == 0 <==> r is Err,
        r is Err ==> r->Err_0 is EmptyResponse,
        r is Ok ==> r->Ok_0@ == response.choices@.last()@,
{
    let n = response.choices.len();
    if n == 0 {
        return Err(ChatError::EmptyResponse);
    }
    let reply = response.choices[n - 1].clone();
    conversation.append(Turn::new(Role::Assistant, reply.clone()));
    Ok(reply)
}

} // verus!
