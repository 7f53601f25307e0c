//! The key-value attributes that report a successful append to the host.
use vstd::prelude::*;

verus! {

/// One reported attribute.
#[derive(Clone, Debug, PartialEq)]
pub struct Attribute {
    pub key: String,
    pub value: String,
}

/// The character of decimal digit `d`.
pub open spec fn digit_char(d: nat) -> char {
    seq!['0', '1', '2', '3', '4', '5', '6', '7', '8', '9'][d as int]
}

/// `n` written in decimal, most significant digit first, without leading zeros.
pub open spec fn decimal(n: nat) -> Seq<char>
    decreases n,
{
    if n < 10 {
        seq![digit_char(n)]
    } else {
        decimal(n / 10).push(digit_char(n % 10))
    }
}

/// Relies on `Display` of `cosmwasm_std::Uint128`, which formats the inner
/// `u128`, written by std in plain decimal.
#[verifier::external_body]
fn decimal_string(n: u128) -> (r: String)
    ensures
        r@ == decimal(n as nat),
{
    cosmwasm_std::Uint128::from(n).to_string()
}

/// The attributes reporting that a message was stored under `id`: the
/// action's name, then the identifier in decimal.
pub fn add_message_attributes(id: u128) -> (r: Vec<Attribute>)
    ensures
        r@.len() == 2,
        r@[0].key@ == "action"@,
        r@[0].value@ == "add_message"@,
        r@[1].key@ == "message_id"@,
        r@[1].value@ == decimal(id as nat),
{
    let mut r: Vec<Attribute> = Vec::new();
    r.push(Attribute { key: "action".to_owned(), value: "add_message".to_owned() });
    r.push(Attribute { key: "message_id".to_owned(), value: decimal_string(id) });
    r
}

} // verus!
