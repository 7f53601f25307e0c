use vstd::prelude::*;

use crate::contract::{self, allocated_id};
use crate::error::ContractError;
use crate::msg::{ExecuteMsg, InstantiateMsg, MessagesResponse, QueryMsg, QueryResponse};
use crate::state::{select, selected, Message, Selector};

verus! {

/// A message store held in memory: the counter and the records in
/// identifier order.
pub struct Ledger {
    current_id: Option<u128>,
    messages: Vec<Message>,
}

/// Which listing a query asks for; `None` for the counter query.
pub open spec fn query_selector(q: QueryMsg) -> Option<Selector> {
    match q {
        QueryMsg::GetCurrentId {  } => None,
        QueryMsg::GetAllMessage {  } => Some(Selector::All),
        QueryMsg::GetMessagesByAddr { address } => Some(Selector::Owner(address)),
        QueryMsg::GetMessagesByTopic { topic } => Some(Selector::Topic(topic)),
        QueryMsg::GetMessagesById { id } => Some(Selector::Id(id)),
    }
}

/// `after` is `before` with one record appended under identifier `id`.
pub open spec fn appended(before: Ledger, after: Ledger, id: u128) -> bool {
    &&& before.counter() == Some(id)
    &&& id < u128::MAX
    &&& after.counter() == Some((id + 1) as u128)
    &&& after.records().len() == before.records().len() + 1
    &&& after.records().drop_last() == before.records()
    &&& after.records().last().id == id
}

impl Ledger {
    /// The counter; `None` before the store is initialized.
    pub closed spec fn counter(&self) -> Option<u128> {
        self.current_id
    }

    /// The stored records, in ascending identifier order.
    pub closed spec fn records(&self) -> Seq<Message> {
        self.messages@
    }

    /// An uninitialized store holds nothing; an initialized one holds the
    /// records numbered `0 .. counter`, each at its own position.
    pub open spec fn wf(&self) -> bool {
        match self.counter() {
            None => self.records().len() == 0,
            Some(n) => {
                &&& n == self.records().len()
                &&& forall|i: int| 0 <= i < self.records().len() ==> #[trigger] self.records()[i].id == i
            },
        }
    }

    /// Whether `r` is the result owed to a listing of what `sel` picks.
    pub open spec fn listed(&self, sel: Selector, r: Result<Vec<Message>, ContractError>) -> bool {
        match r {
            Ok(v) => self.counter() is Some && v@ == selected(self.records(), sel),
            Err(e) => self.counter() is None && e == ContractError::StoreUnavailable,
        }
    }

    /// Whether `r` is the result owed to the query `q`.
    pub open spec fn answers(&self, q: QueryMsg, r: Result<QueryResponse, ContractError>) -> bool {
        match r {
            Err(e) => self.counter() is None && e == ContractError::StoreUnavailable,
            Ok(QueryResponse::CurrentId(v)) => query_selector(q) is None && self.counter() == Some(v),
            Ok(QueryResponse::Messages(resp)) => match query_selector(q) {
                Some(sel) => self.counter() is Some && resp.messages@ == selected(self.records(), sel),
                None => false,
            },
        }
    }

    /// A store that has not been initialized yet.
    pub fn new() -> (r: Ledger)
        ensures
            r.wf(),
            r.counter() is None,
            r.records() == Seq::<Message>::empty(),
    {
        Ledger { current_id: None, messages: Vec::new() }
    }

    /// Sets the counter to zero; done once, before anything else.
    pub fn instantiate(&mut self, msg: InstantiateMsg)
        requires
            old(self).wf(),
            old(self).counter() is None,
        ensures
            final(self).wf(),
            final(self).counter() == Some(0u128),
            final(self).records() == Seq::<Message>::empty(),
    {
        self.current_id = Some(contract::instantiate(&msg));
    }

    /// Appends a message from `sender` and returns its identifier. On
    /// failure the store is left as it was.
    pub fn add_message(&mut self, sender: String, topic: String, message: String) -> (r: Result<
        u128,
        ContractError,
    >)
        requires
            old(self).wf(),
        ensures
            final(self).wf(),
            r == allocated_id(old(self).counter()),
            match r {
                Ok(id) => {
                    &&& appended(*old(self), *final(self), id)
                    &&& final(self).records() == old(self).records().push(
                        (Message { id, owner: sender, topic, message }),
                    )
                },
                Err(_) => *final(self) == *old(self),
            },
    {
        match contract::add_message(&mut self.current_id, sender, topic, message) {
            Ok(m) => {
                let id = m.id;
                self.messages.push(m);
                proof {
                    assert(self.messages@.drop_last() =~= old(self).messages@);
                }
                Ok(id)
            },
            Err(e) => Err(e),
        }
    }

    /// Carries out `msg` on behalf of `sender`.
    pub fn execute(&mut self, sender: String, msg: ExecuteMsg) -> (r: Result<u128, ContractError>)
        requires
            old(self).wf(),
        ensures
            final(self).wf(),
            r == allocated_id(old(self).counter()),
            match (msg, r) {
                (ExecuteMsg::AddMessage { topic, message }, Ok(id)) => {
                    &&& appended(*old(self), *final(self), id)
                    &&& final(self).records() == old(self).records().push(
                        (Message { id, owner: sender, topic, message }),
                    )
                },
                (_, Err(_)) => *final(self) == *old(self),
            },
    {
        match msg {
            ExecuteMsg::AddMessage { topic, message } => self.add_message(sender, topic, message),
        }
    }

    /// The counter: the number of messages appended so far.
    pub fn get_current_id(&self) -> (r: Result<u128, ContractError>)
        ensures
            r == match self.counter() {
                Some(v) => Ok::<u128, ContractError>(v),
                None => Err(ContractError::StoreUnavailable),
            },
    {
        contract::query_current_id(self.current_id)
    }

    fn list(&self, sel: Selector) -> (r: Result<Vec<Message>, ContractError>)
        ensures
            self.listed(sel, r),
    {
        match self.current_id {
            None => Err(ContractError::StoreUnavailable),
            Some(_) => Ok(select(&self.messages, &sel)),
        }
    }

    /// Every record, in ascending identifier order.
    pub fn list_all(&self) -> (r: Result<Vec<Message>, ContractError>)
        ensures
            self.listed(Selector::All, r),
    {
        self.list(Selector::All)
    }

    /// The records whose owner is exactly `owner`, in ascending identifier order.
    pub fn list_by_owner(&self, owner: String) -> (r: Result<Vec<Message>, ContractError>)
        ensures
            self.listed(Selector::Owner(owner), r),
    {
        self.list(Selector::Owner(owner))
    }

    /// The records whose topic is exactly `topic`, in ascending identifier order.
    pub fn list_by_topic(&self, topic: String) -> (r: Result<Vec<Message>, ContractError>)
        ensures
            self.listed(Selector::Topic(topic), r),
    {
        self.list(Selector::Topic(topic))
    }

    /// The record with identifier `id`, as a sequence of zero or one.
    pub fn list_by_id(&self, id: u128) -> (r: Result<Vec<Message>, ContractError>)
        ensures
            self.listed(Selector::Id(id), r),
    {
        self.list(Selector::Id(id))
    }

    /// Answers `msg`.
    pub fn query(&self, msg: QueryMsg) -> (r: Result<QueryResponse, ContractError>)
        ensures
            self.answers(msg, r),
    {
        match msg {
            QueryMsg::GetCurrentId {  } => match self.get_current_id() {
                Ok(v) => Ok(QueryResponse::CurrentId(v)),
                Err(e) => Err(e),
            },
            QueryMsg::GetAllMessage {  } => self.respond(Selector::All),
            QueryMsg::GetMessagesByAddr { address } => self.respond(Selector::Owner(address)),
            QueryMsg::GetMessagesByTopic { topic } => self.respond(Selector::Topic(topic)),
            QueryMsg::GetMessagesById { id } => self.respond(Selector::Id(id)),
        }
    }

    fn respond(&self, sel: Selector) -> (r: Result<QueryResponse, ContractError>)
        ensures
            match r {
                Ok(QueryResponse::Messages(resp)) => self.counter() is Some && resp.messages@
                    == selected(self.records(), sel),
                Ok(QueryResponse::CurrentId(_)) => false,
                Err(e) => self.counter() is None && e == ContractError::StoreUnavailable,
            },
    {
        match self.list(sel) {
            Ok(messages) => Ok(QueryResponse::Messages(MessagesResponse { messages })),
            Err(e) => Err(e),
        }
    }
}

} // verus!
