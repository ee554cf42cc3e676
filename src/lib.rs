//! The state of an interactive chat session with a completion provider: the
//! conversation history, the payload of each request, the choice of the reply
//! in each answer, and the decisions taken on each line the user enters.
//! Reading the terminal and talking to the network are left to the caller.
use vstd::prelude::*;

pub mod conversation;
pub mod exchange;
pub mod laws;
pub mod session;
pub mod turn;

verus! {

} // verus!
