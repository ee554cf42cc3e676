use vstd::prelude::*;

verus! {

/// Who wrote a turn of the conversation.
#[derive(Clone, Copy, Debug, PartialEq, Eq, Structural)]
pub enum Role {
    User,
    Assistant,
}

impl Role {
    /// The name of the role on the wire.
    pub open spec fn spec_name(self) -> Seq<char> {
        match self {
            Role::User => "user"@,
            Role::Assistant => "assistant"@,
        }
    }

    pub fn name(&self) -> (r: &'static str)
        ensures
            r@ == self.spec_name(),
    {
        match self {
            Role::User => "user",
            Role::Assistant => "assistant",
        }
    }
}

/// The mathematical value of a turn: its author and its text.
pub struct TurnModel {
    pub role: Role,
    pub content: Seq<char>,
}

/// One message of the conversation. A turn is never edited once made.
pub struct Turn {
    role: Role,
    content: String,
}

impl View for Turn {
    type V = TurnModel;

    closed spec fn view(&self) -> TurnModel {
        TurnModel { role: self.role, content: self.content@ }
    }
}

impl Turn {
    pub fn new(role: Role, content: String) -> (r: Turn)
        ensures
            r@ == (TurnModel { role: role, content: content@ }),
    {
        Turn { role, content }
    }

    pub fn role(&self) -> (r: Role)
        ensures
            r == self@.role,
    {
        self.role
    }

    pub fn content(&self) -> (r: &str)
        ensures
            r@ == self@.content,
    {
        self.content.as_str()
    }

    /// A turn with the same author and text.
    pub fn duplicate(&self) -> (r: Turn)
        ensures
            r@ == self@,
    {
        Turn { role: self.role, content: self.content.clone() }
    }
}

} // verus!
