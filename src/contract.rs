use vstd::prelude::*;

use crate::error::ContractError;
use crate::msg::{ExecuteMsg, InstantiateMsg, MessagesResponse};
use crate::state::{lemma_select_all, select, selected, Message, Selector};

verus! {

/// What advancing the counter `current_id` hands out: its value, unless the
/// store is uninitialized or the value is the largest a `u128` holds.
pub open spec fn allocated_id(current_id: Option<u128>) -> Result<u128, ContractError> {
    match current_id {
        None => Err(ContractError::StoreUnavailable),
        Some(v) => if v == u128::MAX {
            Err(ContractError::CounterOverflow)
        } else {
            Ok(v)
        },
    }
}

/// The counter after an allocation that returned `r` from `current_id`:
/// one past the identifier handed out, or unchanged on failure.
pub open spec fn counter_after(current_id: Option<u128>, r: Result<u128, ContractError>) -> Option<
    u128,
> {
    match r {
        Ok(v) => Some((v + 1) as u128),
        Err(_) => current_id,
    }
}

/// The answer owed to a listing of the messages that `sel` picks.
pub open spec fn listing_answer(
    current_id: Option<u128>,
    messages: Seq<Message>,
    sel: Selector,
    r: Result<MessagesResponse, ContractError>,
) -> bool {
    match r {
        Ok(resp) => current_id is Some && resp.messages@ == selected(messages, sel),
        Err(e) => current_id is None && e == ContractError::StoreUnavailable,
    }
}

/// The value the counter starts at.
pub fn instantiate(_msg: &InstantiateMsg) -> (r: u128)
    ensures
        r == 0,
{
    0
}

/// Reads the counter, moves it one step on and returns the value read.
pub fn next_and_advance(current_id: &mut Option<u128>) -> (r: Result<u128, ContractError>)
    ensures
        r == allocated_id(*old(current_id)),
        *final(current_id) == counter_after(*old(current_id), r),
{
    match *current_id {
        None => Err(ContractError::StoreUnavailable),
        Some(v) => {
            if v == u128::MAX {
                Err(ContractError::CounterOverflow)
            } else {
                *current_id = Some(v + 1);
                Ok(v)
            }
        },
    }
}

/// Allocates the next identifier and builds the record to store under it.
/// On failure the counter is left as it was.
pub fn add_message(current_id: &mut Option<u128>, sender: String, topic: String, message: String) -> (r:
    Result<Message, ContractError>)
    ensures
        *final(current_id) == counter_after(*old(current_id), allocated_id(*old(current_id))),
        match allocated_id(*old(current_id)) {
            Ok(id) => r == Ok::<Message, ContractError>(
                (Message { id, owner: sender, topic, message }),
            ),
            Err(e) => r == Err::<Message, ContractError>(e),
        },
{
    let id = next_and_advance(current_id)?;
    Ok(Message { id, owner: sender, topic, message })
}

/// Carries out `msg` on behalf of `sender`.
pub fn execute(current_id: &mut Option<u128>, sender: String, msg: ExecuteMsg) -> (r: Result<
    Message,
    ContractError,
>)
    ensures
        *final(current_id) == counter_after(*old(current_id), allocated_id(*old(current_id))),
        match (msg, allocated_id(*old(current_id))) {
            (ExecuteMsg::AddMessage { topic, message }, Ok(id)) => r == Ok::<
                Message,
                ContractError,
            >((Message { id, owner: sender, topic, message })),
            (_, Err(e)) => r == Err::<Message, ContractError>(e),
        },
{
    match msg {
        ExecuteMsg::AddMessage { topic, message } => add_message(current_id, sender, topic, message),
    }
}

/// The counter's value: the number of messages appended so far.
pub fn query_current_id(current_id: Option<u128>) -> (r: Result<u128, ContractError>)
    ensures
        r == match current_id {
            Some(v) => Ok::<u128, ContractError>(v),
            None => Err(ContractError::StoreUnavailable),
        },
{
    match current_id {
        Some(v) => Ok(v),
        None => Err(ContractError::StoreUnavailable),
    }
}

fn list(current_id: Option<u128>, messages: &Vec<Message>, sel: Selector) -> (r: Result<
    MessagesResponse,
    ContractError,
>)
    ensures
        listing_answer(current_id, messages@, sel, r),
{
    match current_id {
        None => Err(ContractError::StoreUnavailable),
        Some(_) => Ok(MessagesResponse { messages: select(messages, &sel) }),
    }
}

/// Every stored message, in the order of `messages`.
pub fn query_all_messages(current_id: Option<u128>, messages: &Vec<Message>) -> (r: Result<
    MessagesResponse,
    ContractError,
>)
    ensures
        match r {
            Ok(resp) => current_id is Some && resp.messages@ == messages@,
            Err(e) => current_id is None && e == ContractError::StoreUnavailable,
        },
{
    proof {
        lemma_select_all(messages@);
    }
    list(current_id, messages, Selector::All)
}

/// The stored messages whose owner is exactly `address`.
pub fn query_messages_by_addr(
    current_id: Option<u128>,
    messages: &Vec<Message>,
    address: String,
) -> (r: Result<MessagesResponse, ContractError>)
    ensures
        listing_answer(current_id, messages@, Selector::Owner(address), r),
{
    list(current_id, messages, Selector::Owner(address))
}

/// The stored messages whose topic is exactly `topic`.
pub fn query_messages_by_topic(
    current_id: Option<u128>,
    messages: &Vec<Message>,
    topic: String,
) -> (r: Result<MessagesResponse, ContractError>)
    ensures
        listing_answer(current_id, messages@, Selector::Topic(topic), r),
{
    list(current_id, messages, Selector::Topic(topic))
}

/// The stored messages whose identifier is `id`.
pub fn query_messages_by_id(current_id: Option<u128>, messages: &Vec<Message>, id: u128) -> (r:
    Result<MessagesResponse, ContractError>)
    ensures
        listing_answer(current_id, messages@, Selector::Id(id), r),
{
    list(current_id, messages, Selector::Id(id))
}

} // verus!
