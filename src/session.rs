use vstd::prelude::*;

use crate::conversation::{models, Conversation};
use crate::exchange::{
    accept_response, after_response, build_request, texts, ChatError, ChatRequest, ChatResponse,
    MODEL,
};
use crate::turn::{Role, Turn, TurnModel};

verus! {

/// The text of a line once leading and trailing whitespace is gone.
pub uninterp spec fn trimmed(s: Seq<char>) -> Seq<char>;

/// Relies on `str::trim`: the line without its leading and trailing whitespace,
/// which depends on the characters alone.
#[verifier::external_body]
fn trim_line(s: &str) -> (r: &str)
    ensures
        r@ == trimmed(s@),
{
    s.trim()
}

/// The ASCII lower-case form of a character's code; other characters keep theirs.
pub open spec fn ascii_lower(c: char) -> u32 {
    if 65 <= c as u32 && c as u32 <= 90 {
        (c as u32 + 32) as u32
    } else {
        c as u32
    }
}

/// Two texts are equal once ASCII upper-case letters are taken as lower-case.
pub open spec fn eq_ignoring_ascii_case(a: Seq<char>, b: Seq<char>) -> bool {
    &&& a.len() == b.len()
    &&& forall|i: int| 0 <= i < a.len() ==> ascii_lower(#[trigger] a[i]) == ascii_lower(b[i])
}

/// The text asks to end the session: it is the word "exit" in any ASCII case.
pub open spec fn is_exit(text: Seq<char>) -> bool {
    eq_ignoring_ascii_case(text, "exit"@)
}

fn lower_code(c: char) -> (r: u32)
    ensures
        r == ascii_lower(c),
{
    let k = c as u32;
    if 65 <= k && k <= 90 {
        k + 32
    } else {
        k
    }
}

/// Whether `text` is the exit word in any ASCII letter case.
pub fn is_exit_command(text: &str) -> (r: bool)
    ensures
        r == is_exit(text@),
{
    let word = "exit";
    proof {
        reveal_strlit("exit");
    }
    let n = text.unicode_len();
    if n != word.unicode_len() {
        return false;
    }
    let mut i: usize = 0;
    while i < n
        invariant
            n == text@.len(),
            word@ == "exit"@,
            n == word@.len(),
            i <= n,
            forall|j: int| 0 <= j < i ==> ascii_lower(#[trigger] text@[j]) == ascii_lower(word@[j]),
        decreases n - i,
    {
        if lower_code(text.get_char(i)) != lower_code(word.get_char(i)) {
            return false;
        }
        i = i + 1;
    }
    true
}

/// The turn of the user that carries `content`.
pub open spec fn user_turn(content: Seq<char>) -> TurnModel {
    TurnModel { role: Role::User, content: content }
}

/// The history once the user has entered `text` (already trimmed): the exit
/// word leaves it as it was, any other text is added as a turn of the user.
pub open spec fn after_input(h: Seq<TurnModel>, text: Seq<char>) -> Seq<TurnModel> {
    if is_exit(text) {
        h
    } else {
        h.push(user_turn(text))
    }
}

/// The value of the authorization header for a credential.
pub open spec fn bearer(key: Seq<char>) -> Seq<char> {
    "Bearer "@ + key
}

/// The settings a session is started with.
pub struct Config {
    api_key: String,
}

impl Config {
    pub closed spec fn key(&self) -> Seq<char> {
        self.api_key@
    }

    /// Settings from a credential; without one the session cannot start.
    pub fn from_credential(credential: Option<String>) -> (r: Result<Config, ChatError>)
        ensures
            credential is None <==> r is Err,
            r is Err ==> r->Err_0 is Credential,
            r is Ok ==> r->Ok_0.key() == credential->Some_0@,
    {
        match credential {
            Some(k) => Ok(Config { api_key: k }),
            None => Err(ChatError::Credential),
        }
    }

    pub fn api_key(&self) -> (r: &str)
        ensures
            r@ == self.key(),
    {
        self.api_key.as_str()
    }

    /// The value of the authorization header that every request carries.
    pub fn authorization(&self) -> (r: String)
        ensures
            r@ == bearer(self.key()),
    {
        String::from_str("Bearer ").concat(self.api_key.as_str())
    }
}

/// What the caller is to do after a line of input.
pub enum Action {
    /// End the session; nothing is sent.
    Exit,
    /// Post `request` with `authorization` as the bearer credential.
    Send { request: ChatRequest, authorization: String },
}

/// One interactive session: its settings and the conversation so far.
pub struct Session {
    config: Config,
    conversation: Conversation,
}

impl Session {
    pub closed spec fn history(&self) -> Seq<TurnModel> {
        self.conversation@
    }

    pub closed spec fn key(&self) -> Seq<char> {
        self.config.key()
    }

    /// Starts a session with an empty history. Without a credential no session
    /// exists, so no request can be made.
    pub fn start(credential: Option<String>) -> (r: Result<Session, ChatError>)
        ensures
            credential is None <==> r is Err,
            r is Err ==> r->Err_0 is Credential,
            r is Ok ==> r->Ok_0.history() == Seq::<TurnModel>::empty() && r->Ok_0.key()
                == credential->Some_0@,
    {
        match Config::from_credential(credential) {
            Ok(config) => Ok(Session { config, conversation: Conversation::new() }),
            Err(e) => Err(e),
        }
    }

    pub fn config(&self) -> (r: &Config)
        ensures
            r.key() == self.key(),
    {
        &self.config
    }

    pub fn conversation(&self) -> (r: &Conversation)
        ensures
            r@ == self.history(),
    {
        &self.conversation
    }

    /// Takes a line that has already been trimmed. The exit word ends the
    /// session and changes nothing; any other text becomes a turn of the user,
    /// and the whole history is to be sent.
    pub fn on_text(&mut self, text: &str) -> (r: Action)
        ensures
            final(self).key() == old(self).key(),
            final(self).history() == after_input(old(self).history(), text@),
            is_exit(text@) <==> r is Exit,
            r matches Action::Send { request, authorization } ==> {
                &&& request.model@ == MODEL@
                &&& models(request.messages@) == final(self).history()
                &&& authorization@ == bearer(old(self).key())
            },
    {
        if is_exit_command(text) {
            return Action::Exit;
        }
        self.conversation.append(Turn::new(Role::User, String::from_str(text)));
        Action::Send {
            request: build_request(&self.conversation),
            authorization: self.config.authorization(),
        }
    }

    /// Takes a raw line as read from the terminal: its trimmed text is handled
    /// as by `on_text`.
    pub fn on_line(&mut self, line: &str) -> (r: Action)
        ensures
            final(self).key() == old(self).key(),
            final(self).history() == after_input(old(self).history(), trimmed(line@)),
            is_exit(trimmed(line@)) <==> r is Exit,
            r matches Action::Send { request, authorization } ==> {
                &&& request.model@ == MODEL@
                &&& models(request.messages@) == final(self).history()
                &&& authorization@ == bearer(old(self).key())
            },
    {
        let text = trim_line(line);
        self.on_text(text)
    }

    /// Takes the provider's answer to the last request: see `accept_response`.
    pub fn on_response(&mut self, response: ChatResponse) -> (r: Result<String, ChatError>)
        ensures
            final(self).key() == old(self).key(),
            final(self).history() == after_response(
                old(self).history(),
                texts(response.choices@),
            ),
            response.choices@.len() == 0 <==> r is Err,
            r is Err ==> r->Err_0 is EmptyResponse,
            r is Ok ==> r->Ok_0@ == response.choices@.last()@,
    {
        accept_response(&mut self.conversation, response)
    }
}

} // verus!
