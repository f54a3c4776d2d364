use chat::history::{ensure_system, has_system, is_well_formed};
use chat::message::{ChatRole, ContentPart, Message, MessageContent};
use chat::window::{charge, window};

fn user(text: &str) -> Message {
    Message::text(ChatRole::User, text)
}

fn long_history() -> Vec<Message> {
    vec![
        Message::text(ChatRole::System, "be kind"),
        user("aaaa"),
        Message::text(ChatRole::Assistant, "bbbbbbbb"),
        user("cccccccccccc"),
        Message::text(ChatRole::Assistant, "dddd"),
    ]
}

#[test]
fn unbounded_budgets_keep_everything() {
    let history = long_history();
    assert_eq!(window(&history, 0, 0), history);
    let bare = vec![user("one"), user("two")];
    assert_eq!(window(&bare, 0, 0), bare);
    let empty: Vec<Message> = Vec::new();
    assert_eq!(window(&empty, 0, 0), empty);
}

#[test]
fn one_unbounded_budget_keeps_everything() {
    let history = long_history();
    assert_eq!(window(&history, 1, 0), history);
    assert_eq!(window(&history, 0, 1), history);
}

#[test]
fn system_message_survives_every_budget() {
    let history = long_history();
    let kept = window(&history, 1, 1);
    assert_eq!(kept[0], history[0]);
    let tiny = vec![Message::text(ChatRole::System, "a very long system prompt indeed")];
    assert_eq!(window(&tiny, 1, 1), tiny);
}

#[test]
fn everything_else_can_be_dropped() {
    let history = vec![
        Message::text(ChatRole::System, "be kind"),
        user("aaaaaaaa"),
        user("bbbbbbbb"),
    ];
    let kept = window(&history, 1, 1);
    assert_eq!(kept, vec![Message::text(ChatRole::System, "be kind"), user("bbbbbbbb")]);
}

#[test]
fn both_budgets_must_be_exceeded_to_stop() {
    // Newest first the messages cost 1, 3, 2 and 1 tokens.
    let history = long_history();
    // Count budget 1, token budget 4: the second newest brings 2 messages
    // and 4 tokens, which is within the token budget; the third brings 3
    // messages and 6 tokens and is dropped with what is older.
    let kept = window(&history, 1, 4);
    assert_eq!(kept, vec![history[0].clone(), history[3].clone(), history[4].clone()]);
    // Token budget 1, count budget 3: three messages are within the count
    // budget though they cost 6 tokens; the fourth is dropped.
    let kept = window(&history, 3, 1);
    assert_eq!(
        kept,
        vec![history[0].clone(), history[2].clone(), history[3].clone(), history[4].clone()]
    );
    // Both budgets tight.
    let kept = window(&history, 2, 3);
    assert_eq!(kept, vec![history[0].clone(), history[3].clone(), history[4].clone()]);
}

#[test]
fn generous_budgets_keep_everything() {
    let history = long_history();
    assert_eq!(window(&history, 10, 1), history);
    assert_eq!(window(&history, 1, 100), history);
    assert_eq!(window(&history, 4, 7), history);
}

#[test]
fn a_message_is_kept_at_the_limit_and_dropped_beyond() {
    let history = vec![user("aaaa"), user("bbbb"), user("cccc")];
    assert_eq!(window(&history, 1, 2), vec![user("bbbb"), user("cccc")]);
    assert_eq!(window(&history, 1, 1), vec![user("cccc")]);
    assert_eq!(window(&history, 2, 1), vec![user("bbbb"), user("cccc")]);
}

#[test]
fn window_keeps_the_order() {
    let history = vec![user("1"), user("2"), user("3"), user("4")];
    let kept = window(&history, 2, 1);
    assert_eq!(kept, vec![user("3"), user("4")]);
}

#[test]
fn a_system_message_out_of_place_is_a_message_like_any_other() {
    let history = vec![user("aaaa"), Message::text(ChatRole::System, "late"), user("bbbb")];
    assert_eq!(window(&history, 1, 1), vec![user("bbbb")]);
}

#[test]
fn images_cost_nothing() {
    let picture = Message {
        role: ChatRole::User,
        content: MessageContent::Multi(vec![
            ContentPart::text("abcde"),
            ContentPart::image("https://example.org/a-very-long-address.png"),
            ContentPart::text("abc"),
        ]),
        tool_name: None,
    };
    assert_eq!(charge(&picture, 3), Some(0));
    assert_eq!(charge(&picture, 10), Some(7));
    assert_eq!(charge(&picture, 2), None);
    assert_eq!(charge(&user("abcde"), 2), Some(0));
    assert_eq!(charge(&user("abcde"), 1), None);
    assert_eq!(charge(&user(""), 0), Some(0));
}

#[test]
fn system_prompt_is_inserted_once() {
    let mut history = vec![user("hello")];
    assert!(!has_system(&history));
    ensure_system(&mut history, "be kind");
    assert_eq!(history, vec![Message::text(ChatRole::System, "be kind"), user("hello")]);
    ensure_system(&mut history, "be kind");
    ensure_system(&mut history, "another prompt");
    assert_eq!(history, vec![Message::text(ChatRole::System, "be kind"), user("hello")]);
    assert!(has_system(&history));
    let mut empty: Vec<Message> = Vec::new();
    ensure_system(&mut empty, "p");
    assert_eq!(empty, vec![Message::text(ChatRole::System, "p")]);
}

#[test]
fn well_formed_histories_are_told_apart() {
    assert!(is_well_formed(&Vec::new()));
    assert!(is_well_formed(&long_history()));
    assert!(is_well_formed(&vec![user("a"), user("b")]));
    assert!(!is_well_formed(&vec![user("a"), Message::text(ChatRole::System, "s")]));
    assert!(!is_well_formed(&vec![
        Message::text(ChatRole::System, "s"),
        Message::text(ChatRole::System, "s"),
    ]));
}
