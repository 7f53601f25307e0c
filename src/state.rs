use vstd::prelude::*;

verus! {

/// One stored message: who wrote it, under which topic, and what it says.
#[derive(Clone, Debug, PartialEq)]
pub struct Message {
    pub id: u128,
    pub owner: String,
    pub topic: String,
    pub message: String,
}

/// Which stored messages a listing returns.
pub enum Selector {
    All,
    Owner(String),
    Topic(String),
    Id(u128),
}

/// Whether `sel` picks `m`: exact equality on the chosen field.
pub open spec fn selects(sel: Selector, m: Message) -> bool {
    match sel {
        Selector::All => true,
        Selector::Owner(o) => m.owner@ == o@,
        Selector::Topic(t) => m.topic@ == t@,
        Selector::Id(id) => m.id == id,
    }
}

/// The messages of `s` that `sel` picks, in their order in `s`.
pub open spec fn selected(s: Seq<Message>, sel: Selector) -> Seq<Message> {
    s.filter(picks(sel))
}

/// `selects` as a predicate on messages.
pub open spec fn picks(sel: Selector) -> spec_fn(Message) -> bool {
    |m: Message| selects(sel, m)
}

/// Selecting everything keeps the sequence as it is.
pub proof fn lemma_select_all(s: Seq<Message>)
    ensures
        selected(s, Selector::All) == s,
    decreases s.len(),
{
    reveal(Seq::filter);
    if s.len() > 0 {
        lemma_select_all(s.drop_last());
        assert(s.drop_last().push(s.last()) =~= s);
    }
}

/// An independent copy of `m`.
fn copy_message(m: &Message) -> (r: Message)
    ensures
        r == *m,
{
    Message {
        id: m.id,
        owner: m.owner.clone(),
        topic: m.topic.clone(),
        message: m.message.clone(),
    }
}

fn is_selected(sel: &Selector, m: &Message) -> (r: bool)
    ensures
        r == selects(*sel, *m),
{
    match sel {
        Selector::All => true,
        Selector::Owner(o) => m.owner == *o,
        Selector::Topic(t) => m.topic == *t,
        Selector::Id(id) => m.id == *id,
    }
}

/// Copies, in order, the messages of `messages` that `sel` picks.
pub fn select(messages: &Vec<Message>, sel: &Selector) -> (r: Vec<Message>)
    ensures
        r@ == selected(messages@, *sel),
{
    let mut out: Vec<Message> = Vec::new();
    let mut i: usize = 0;
    while i < messages.len()
        invariant
            i <= messages@.len(),
            out@ == messages@.subrange(0, i as int).filter(picks(*sel)),
        decreases messages@.len() - i,
    {
        let m = &messages[i];
        let ghost prefix = messages@.subrange(0, i + 1);
        proof {
            assert(prefix.drop_last() =~= messages@.subrange(0, i as int));
            assert(prefix.last() == messages@[i as int]);
        }
        if is_selected(sel, m) {
            out.push(copy_message(m));
        }
        proof {
            reveal(Seq::filter);
            assert(out@ == prefix.filter(picks(*sel)));
        }
        i = i + 1;
    }
    proof {
        assert(messages@.subrange(0, messages@.len() as int) =~= messages@);
    }
    out
}

} // verus!
