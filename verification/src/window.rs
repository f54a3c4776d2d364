//! The window of a history that is sent to the completion endpoint: the
//! system message, then the newest messages as far as the budgets reach.
//!
//! Two budgets bound the window, one on the number of messages and one on
//! the estimated number of tokens; zero stands for "no limit". Walking
//! from the newest message to the oldest, a message is kept while either
//! budget still has room. Only when the message count has passed its budget
//! and the token count has passed its own does the walk stop, and that
//! message and everything older is left out. A window can therefore be
//! larger than either budget alone would allow.

use crate::history::{is_system, well_formed};
use crate::message::{
    copy_messages, message_views, part_views, ChatRole, ContentView, Message, MessageContent,
    MessageView, PartView,
};
use crate::text::{estimate_tokens, token_estimate};
use vstd::prelude::*;

verus! {

/// The estimated tokens of one part: those of its text, if it has any.
pub open spec fn part_tokens(p: PartView) -> nat {
    match p.text {
        Some(t) => token_estimate(t),
        None => 0,
    }
}

/// The estimated tokens of a list of parts.
pub open spec fn parts_tokens(parts: Seq<PartView>) -> nat
    decreases parts.len(),
{
    if parts.len() == 0 {
        0
    } else {
        parts_tokens(parts.drop_last()) + part_tokens(parts.last())
    }
}

/// The estimated tokens of a message: those of its text. Images count for
/// nothing.
pub open spec fn message_tokens(m: MessageView) -> nat {
    match m.content {
        ContentView::Text(t) => token_estimate(t),
        ContentView::Multi(parts) => parts_tokens(parts),
    }
}

/// What is left of `room` tokens once `message` has taken its share, or
/// `None` where the message needs more than `room`.
pub fn charge(message: &Message, room: usize) -> (r: Option<usize>)
    ensures
        r == if message_tokens(message@) <= room {
            Some((room - message_tokens(message@)) as usize)
        } else {
            None
        },
{
    match &message.content {
        MessageContent::Text(t) => {
            let cost: usize = estimate_tokens(t.as_str());
            if cost <= room {
                Some(room - cost)
            } else {
                None
            }
        },
        MessageContent::Multi(parts) => {
            let ghost views = part_views(parts@);
            let mut left: usize = room;
            let mut i: usize = 0;
            while i < parts.len()
                invariant
                    i <= parts@.len(),
                    views == part_views(parts@),
                    message_tokens(message@) == parts_tokens(views),
                    parts_tokens(views.take(i as int)) + left == room,
                decreases parts@.len() - i,
            {
                let ghost next = views.take(i + 1);
                assert(next.drop_last() =~= views.take(i as int));
                let cost: usize = match &parts[i].text {
                    Some(t) => estimate_tokens(t.as_str()),
                    None => 0,
                };
                if cost > left {
                    proof {
                        lemma_parts_tokens_grow(views, i + 1);
                    }
                    return None;
                }
                left = left - cost;
                i = i + 1;
            }
            assert(views.take(parts@.len() as int) =~= views);
            Some(left)
        },
    }
}

/// The tokens of the first `k` parts are at most those of all the parts.
pub proof fn lemma_parts_tokens_grow(parts: Seq<PartView>, k: int)
    requires
        0 <= k <= parts.len(),
    ensures
        parts_tokens(parts.take(k)) <= parts_tokens(parts),
    decreases parts.len(),
{
    if k == parts.len() {
        assert(parts.take(k) =~= parts);
    } else {
        lemma_parts_tokens_grow(parts.drop_last(), k);
        assert(parts.drop_last().take(k) =~= parts.take(k));
    }
}

/// The estimated tokens of the newest `k` messages of `s`.
pub open spec fn newest_tokens(s: Seq<MessageView>, k: nat) -> nat
    decreases k,
{
    if k == 0 || k > s.len() {
        0
    } else {
        newest_tokens(s, (k - 1) as nat) + message_tokens(s[s.len() - k])
    }
}

/// Whether the walk stops at the `k`-th newest message of `s`: both budgets
/// are bounded, and with that message both are exceeded.
pub open spec fn over_budget(
    s: Seq<MessageView>,
    k: nat,
    max_messages: nat,
    max_tokens: nat,
) -> bool {
    &&& max_messages != 0
    &&& max_tokens != 0
    &&& k > max_messages
    &&& newest_tokens(s, k) > max_tokens
}

/// The number of messages that the walk keeps, once it has kept the newest
/// `kept`.
pub open spec fn retained_from(
    s: Seq<MessageView>,
    kept: nat,
    max_messages: nat,
    max_tokens: nat,
) -> nat
    decreases s.len() - kept,
{
    if kept >= s.len() {
        s.len()
    } else if over_budget(s, kept + 1, max_messages, max_tokens) {
        kept
    } else {
        retained_from(s, kept + 1, max_messages, max_tokens)
    }
}

/// The number of newest messages of `s` that the window keeps.
pub open spec fn retained(s: Seq<MessageView>, max_messages: nat, max_tokens: nat) -> nat {
    retained_from(s, 0, max_messages, max_tokens)
}

/// The window of `h`: its leading `System` message, if it has one, then the
/// newest of the other messages that the budgets keep, oldest first.
pub open spec fn windowed(h: Seq<MessageView>, max_messages: nat, max_tokens: nat) -> Seq<
    MessageView,
> {
    if h.len() > 0 && is_system(h[0]) {
        let rest = h.skip(1);
        seq![h[0]] + rest.skip(rest.len() - retained(rest, max_messages, max_tokens))
    } else {
        h.skip(h.len() - retained(h, max_messages, max_tokens))
    }
}

/// What the walk keeps, told without the walk: every one of the newest
/// `retained` messages is within budget, and the next older one, if there
/// is one, is not.
pub proof fn lemma_retained_bounds(
    s: Seq<MessageView>,
    kept: nat,
    max_messages: nat,
    max_tokens: nat,
)
    requires
        kept <= s.len(),
    ensures
        kept <= retained_from(s, kept, max_messages, max_tokens) <= s.len(),
        forall|k: nat|
            kept < k <= retained_from(s, kept, max_messages, max_tokens) ==> !over_budget(
                s,
                k,
                max_messages,
                max_tokens,
            ),
        retained_from(s, kept, max_messages, max_tokens) < s.len() ==> over_budget(
            s,
            retained_from(s, kept, max_messages, max_tokens) + 1,
            max_messages,
            max_tokens,
        ),
    decreases s.len() - kept,
{
    if kept < s.len() && !over_budget(s, kept + 1, max_messages, max_tokens) {
        lemma_retained_bounds(s, kept + 1, max_messages, max_tokens);
    }
}

/// Where either budget is unbounded, the walk keeps every message.
pub proof fn lemma_retained_unbounded(
    s: Seq<MessageView>,
    kept: nat,
    max_messages: nat,
    max_tokens: nat,
)
    requires
        max_messages == 0 || max_tokens == 0,
    ensures
        retained_from(s, kept, max_messages, max_tokens) == s.len(),
    decreases s.len() - kept,
{
    if kept < s.len() {
        lemma_retained_unbounded(s, kept + 1, max_messages, max_tokens);
    }
}

/// With both budgets unbounded the window is the whole history, unchanged
/// and in its order. (One unbounded budget is enough.)
pub proof fn lemma_window_unbounded(h: Seq<MessageView>, max_messages: nat, max_tokens: nat)
    requires
        max_messages == 0 || max_tokens == 0,
    ensures
        windowed(h, max_messages, max_tokens) == h,
{
    if h.len() > 0 && is_system(h[0]) {
        let rest = h.skip(1);
        lemma_retained_unbounded(rest, 0, max_messages, max_tokens);
    } else {
        lemma_retained_unbounded(h, 0, max_messages, max_tokens);
    }
}

/// A `System` message in a history that obeys the rule is in every window
/// of it, and first there, whatever the budgets drop.
pub proof fn lemma_window_keeps_system(
    h: Seq<MessageView>,
    i: int,
    max_messages: nat,
    max_tokens: nat,
)
    requires
        well_formed(h),
        0 <= i < h.len(),
        is_system(h[i]),
    ensures
        windowed(h, max_messages, max_tokens).len() > 0,
        windowed(h, max_messages, max_tokens)[0] == h[i],
{
}

/// The window of a history that obeys the rule obeys it too, and holds
/// no message that the history does not hold.
pub proof fn lemma_window_well_formed(h: Seq<MessageView>, max_messages: nat, max_tokens: nat)
    requires
        well_formed(h),
    ensures
        well_formed(windowed(h, max_messages, max_tokens)),
        windowed(h, max_messages, max_tokens).len() <= h.len(),
        forall|j: int|
            0 <= j < windowed(h, max_messages, max_tokens).len() ==> h.contains(
                #[trigger] windowed(h, max_messages, max_tokens)[j],
            ),
{
    if h.len() > 0 && is_system(h[0]) {
        lemma_retained_bounds(h.skip(1), 0, max_messages, max_tokens);
    } else {
        lemma_retained_bounds(h, 0, max_messages, max_tokens);
    }
}

/// The window of `history` under the two budgets, where zero stands for
/// "no limit".
pub fn window(history: &Vec<Message>, max_messages: usize, max_tokens: usize) -> (r: Vec<Message>)
    ensures
        message_views(r@) == windowed(
            message_views(history@),
            max_messages as nat,
            max_tokens as nat,
        ),
        max_messages == 0 || max_tokens == 0 ==> message_views(r@) == message_views(history@),
        history@.len() > 0 && is_system(message_views(history@)[0]) ==> r@.len() > 0
            && message_views(r@)[0] == message_views(history@)[0],
{
    let n: usize = history.len();
    let ghost h = message_views(history@);
    let start: usize = if n > 0 && history[0].role == ChatRole::System {
        1
    } else {
        0
    };
    let ghost rest = h.skip(start as int);
    let mut kept: usize = 0;
    let mut room: usize = max_tokens;
    let mut tokens_over: bool = false;
    let mut stopped: bool = false;
    while !stopped && kept < n - start
        invariant
            start <= n == history@.len(),
            h == message_views(history@),
            rest == h.skip(start as int),
            kept <= n - start,
            tokens_over == (newest_tokens(rest, kept as nat) > max_tokens),
            !tokens_over ==> room + newest_tokens(rest, kept as nat) == max_tokens,
            !stopped ==> retained(rest, max_messages as nat, max_tokens as nat) == retained_from(
                rest,
                kept as nat,
                max_messages as nat,
                max_tokens as nat,
            ),
            stopped ==> retained(rest, max_messages as nat, max_tokens as nat) == kept,
        decreases n - start - kept + if stopped { 0int } else { 1int },
    {
        let message = &history[n - 1 - kept];
        let mut next_over: bool = tokens_over;
        let mut next_room: usize = room;
        if !tokens_over {
            match charge(message, room) {
                Some(left) => {
                    next_room = left;
                },
                None => {
                    next_over = true;
                },
            }
        }
        if max_messages != 0 && max_tokens != 0 && kept + 1 > max_messages && next_over {
            stopped = true;
        } else {
            kept = kept + 1;
            room = next_room;
            tokens_over = next_over;
        }
    }
    let from: usize = n - kept;
    let mut out: Vec<Message> = if start == 1 {
        copy_messages(history, 0, 1)
    } else {
        Vec::new()
    };
    let mut tail = copy_messages(history, from, n);
    let ghost head_views = message_views(out@);
    let ghost tail_views = message_views(tail@);
    out.append(&mut tail);
    proof {
        assert(message_views(out@) =~= head_views + tail_views);
        if start == 0 {
            assert(rest =~= h);
        }
        if max_messages == 0 || max_tokens == 0 {
            lemma_window_unbounded(h, max_messages as nat, max_tokens as nat);
        }
    }
    out
}

} // verus!
