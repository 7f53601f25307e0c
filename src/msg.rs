use vstd::prelude::*;

use crate::state::Message;

verus! {

/// The message that creates a store; it carries nothing.
#[derive(Clone, Copy, Debug, PartialEq, Eq, Structural)]
pub struct InstantiateMsg {}

/// The one mutating request.
#[derive(Clone, Debug, PartialEq)]
pub enum ExecuteMsg {
    AddMessage { topic: String, message: String },
}

/// The read-only requests.
#[derive(Clone, Debug, PartialEq)]
pub enum QueryMsg {
    GetCurrentId {},
    GetAllMessage {},
    GetMessagesByAddr { address: String },
    GetMessagesByTopic { topic: String },
    GetMessagesById { id: u128 },
}

/// A list of messages in ascending identifier order.
#[derive(Clone, Debug, PartialEq)]
pub struct MessagesResponse {
    pub messages: Vec<Message>,
}

/// The answer to a `QueryMsg`.
#[derive(Clone, Debug, PartialEq)]
pub enum QueryResponse {
    CurrentId(u128),
    Messages(MessagesResponse),
}

} // verus!
