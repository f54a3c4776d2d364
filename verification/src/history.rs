//! A conversation history and the rule it obeys: at most one `System`
//! message, and that one first.

use crate::message::{message_views, text_message, ChatRole, Message, MessageView};
use vstd::prelude::*;

verus! {

/// Whether `m` is spoken by the system.
pub open spec fn is_system(m: MessageView) -> bool {
    m.role == ChatRole::System
}

/// The number of `System` messages in `h`.
pub open spec fn system_count(h: Seq<MessageView>) -> nat
    decreases h.len(),
{
    if h.len() == 0 {
        0
    } else {
        system_count(h.drop_last()) + if is_system(h.last()) {
            1nat
        } else {
            0nat
        }
    }
}

/// The rule of a history: no `System` message after the first position.
pub open spec fn well_formed(h: Seq<MessageView>) -> bool {
    forall|i: int| 0 < i < h.len() ==> !is_system(#[trigger] h[i])
}

/// `h` with the system prompt in front, unless a `System` message already
/// stands there.
pub open spec fn with_system(h: Seq<MessageView>, prompt: Seq<char>) -> Seq<MessageView> {
    if h.len() > 0 && is_system(h[0]) {
        h
    } else {
        seq![text_message(ChatRole::System, prompt)] + h
    }
}

/// A history that obeys the rule holds at most one `System` message.
pub proof fn lemma_well_formed_counts_one(h: Seq<MessageView>)
    requires
        well_formed(h),
    ensures
        system_count(h) <= 1,
        system_count(h) == 1 <==> h.len() > 0 && is_system(h[0]),
    decreases h.len(),
{
    if h.len() > 0 {
        lemma_well_formed_counts_one(h.drop_last());
    }
}

/// Putting the system prompt in front is idempotent, and what it returns
/// starts with a `System` message.
pub proof fn lemma_with_system_idempotent(h: Seq<MessageView>, prompt: Seq<char>)
    ensures
        with_system(h, prompt).len() > 0,
        is_system(with_system(h, prompt)[0]),
        with_system(with_system(h, prompt), prompt) == with_system(h, prompt),
{
}

/// In a history that obeys the rule, putting the system prompt in front
/// keeps the rule and leaves exactly one `System` message.
pub proof fn lemma_with_system_well_formed(h: Seq<MessageView>, prompt: Seq<char>)
    requires
        well_formed(h),
    ensures
        well_formed(with_system(h, prompt)),
        system_count(with_system(h, prompt)) == 1,
{
    lemma_well_formed_counts_one(with_system(h, prompt));
}

/// Appending a message that the system does not speak keeps the rule and
/// the number of `System` messages.
pub proof fn lemma_push_keeps_well_formed(h: Seq<MessageView>, m: MessageView)
    requires
        !is_system(m),
    ensures
        well_formed(h) ==> well_formed(h.push(m)),
        system_count(h.push(m)) == system_count(h),
{
    assert(h.push(m).drop_last() == h);
}

/// Whether `history` obeys the rule.
pub fn is_well_formed(history: &Vec<Message>) -> (r: bool)
    ensures
        r == well_formed(message_views(history@)),
{
    let ghost h = message_views(history@);
    let mut i: usize = 1;
    while i < history.len()
        invariant
            1 <= i,
            h == message_views(history@),
            forall|j: int| 0 < j < i && j < h.len() ==> !is_system(#[trigger] h[j]),
        decreases history@.len() - i,
    {
        if history[i].role == ChatRole::System {
            assert(is_system(h[i as int]));
            return false;
        }
        i = i + 1;
    }
    true
}

/// Whether `history` starts with a `System` message.
pub fn has_system(history: &Vec<Message>) -> (r: bool)
    ensures
        r == (history@.len() > 0 && is_system(message_views(history@)[0])),
{
    history.len() > 0 && history[0].role == ChatRole::System
}

/// Puts the system prompt in front of `history` unless a `System` message
/// already stands there.
pub fn ensure_system(history: &mut Vec<Message>, prompt: &str)
    ensures
        message_views(final(history)@) == with_system(message_views(old(history)@), prompt@),
{
    if !has_system(history) {
        let message = Message::text(ChatRole::System, prompt);
        history.insert(0, message);
    }
}

/// Appends `message` to `history`.
pub fn append(history: &mut Vec<Message>, message: Message)
    ensures
        message_views(final(history)@) == message_views(old(history)@).push(message@),
{
    history.push(message);
}

} // verus!
