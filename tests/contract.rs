use messages::attributes::add_message_attributes;
use messages::error::ContractError;
use messages::ledger::Ledger;
use messages::msg::{ExecuteMsg, InstantiateMsg, MessagesResponse, QueryMsg, QueryResponse};

const SENDER: &str = "sender_address";
const ANOTHER_SENDER: &str = "another_address";

fn setup_contract() -> Ledger {
    let mut ledger = Ledger::new();
    ledger.instantiate(InstantiateMsg {});
    ledger
}

fn add(ledger: &mut Ledger, sender: &str, topic: &str, message: &str) -> u128 {
    let msg = ExecuteMsg::AddMessage {
        topic: topic.to_string(),
        message: message.to_string(),
    };
    ledger.execute(sender.to_string(), msg).unwrap()
}

fn attrs(id: u128) -> Vec<(String, String)> {
    add_message_attributes(id)
        .into_iter()
        .map(|a| (a.key, a.value))
        .collect()
}

fn attr(key: &str, value: &str) -> (String, String) {
    (key.to_string(), value.to_string())
}

fn current_id(ledger: &Ledger) -> u128 {
    match ledger.query(QueryMsg::GetCurrentId {}).unwrap() {
        QueryResponse::CurrentId(v) => v,
        other => panic!("unexpected answer {:?}", other),
    }
}

fn messages_of(ledger: &Ledger, msg: QueryMsg) -> MessagesResponse {
    match ledger.query(msg).unwrap() {
        QueryResponse::Messages(resp) => resp,
        other => panic!("unexpected answer {:?}", other),
    }
}

#[test]
fn proper_initialization() {
    let ledger = setup_contract();
    assert_eq!(0, current_id(&ledger));
}

#[test]
fn _add_message() {
    let mut ledger = setup_contract();
    let msg = ExecuteMsg::AddMessage {
        topic: "Science".to_string(),
        message: "Science is beautiful".to_string(),
    };

    // The first message is message_id 0
    let id = ledger.execute(SENDER.to_string(), msg.clone()).unwrap();
    assert_eq!(
        attrs(id),
        vec![attr("action", "add_message"), attr("message_id", "0")]
    );

    // The second message is message_id 1
    let id = ledger.execute(SENDER.to_string(), msg).unwrap();
    assert_eq!(
        attrs(id),
        vec![attr("action", "add_message"), attr("message_id", "1")]
    );

    // The counter for the next message is 2
    assert_eq!(2, current_id(&ledger));
}

#[test]
fn _query_all_messages() {
    let mut ledger = setup_contract();
    add(&mut ledger, SENDER, "Science", "Science is beautiful");
    add(&mut ledger, SENDER, "Science", "Do not ever forget science");
    add(&mut ledger, SENDER, "Math", "1 + 1 = 2");
    add(&mut ledger, SENDER, "Math", "1 + 2 = 3");
    add(&mut ledger, SENDER, "Math", "1 + 3 = 4");

    let response = messages_of(&ledger, QueryMsg::GetAllMessage {});
    assert_eq!(response.messages.len(), 5);

    assert_eq!(5, current_id(&ledger));
}

#[test]
fn _query_messages_by_owner() {
    let mut ledger = setup_contract();
    add(&mut ledger, SENDER, "Science", "Science is beautiful");
    add(&mut ledger, ANOTHER_SENDER, "Math", "1");

    let response = messages_of(
        &ledger,
        QueryMsg::GetMessagesByAddr {
            address: SENDER.to_string(),
        },
    );
    assert_eq!(response.messages.len(), 1);

    let response = messages_of(
        &ledger,
        QueryMsg::GetMessagesByAddr {
            address: ANOTHER_SENDER.to_string(),
        },
    );
    assert_eq!(response.messages.len(), 1);
}

#[test]
fn _query_messages_by_id() {
    let mut ledger = setup_contract();
    add(&mut ledger, SENDER, "Science", "Science is beautiful");
    add(&mut ledger, ANOTHER_SENDER, "Math", "1");

    let response = messages_of(&ledger, QueryMsg::GetMessagesById { id: 1 });
    assert_eq!(response.messages.len(), 1);
}

#[test]
fn _query_messages_by_topic() {
    let mut ledger = setup_contract();
    add(&mut ledger, SENDER, "Science", "Science is beautiful");
    add(&mut ledger, SENDER, "Science", "Do not ever forget science");
    add(&mut ledger, SENDER, "Math", "1 + 1 = 2");
    add(&mut ledger, SENDER, "Math", "1 + 2 = 3");
    add(&mut ledger, SENDER, "Math", "1 + 3 = 4");

    let response = messages_of(
        &ledger,
        QueryMsg::GetMessagesByTopic {
            topic: "Math".to_string(),
        },
    );
    assert_eq!(response.messages.len(), 3);

    let response = messages_of(
        &ledger,
        QueryMsg::GetMessagesByTopic {
            topic: "Science".to_string(),
        },
    );
    assert_eq!(response.messages.len(), 2);
}

#[test]
fn uninitialized_store_is_unavailable() {
    let mut ledger = Ledger::new();
    assert_eq!(ledger.get_current_id(), Err(ContractError::StoreUnavailable));
    assert_eq!(
        ledger.query(QueryMsg::GetAllMessage {}),
        Err(ContractError::StoreUnavailable)
    );
    assert_eq!(ledger.list_all().unwrap_err(), ContractError::StoreUnavailable);
    let r = ledger.add_message("alice".to_string(), "t".to_string(), "b".to_string());
    assert_eq!(r, Err(ContractError::StoreUnavailable));
    // The failed append left nothing behind.
    ledger.instantiate(InstantiateMsg {});
    assert_eq!(ledger.get_current_id(), Ok(0));
    assert!(ledger.list_all().unwrap().is_empty());
}

#[test]
fn attributes_write_identifier_in_decimal() {
    assert_eq!(attrs(10)[1], attr("message_id", "10"));
    assert_eq!(attrs(907)[1], attr("message_id", "907"));
    assert_eq!(
        attrs(u128::MAX)[1],
        attr("message_id", "340282366920938463463374607431768211455")
    );
}
