//! One turn, from an incoming event to the history that is saved.
//!
//! The caller holds the user's lock for the whole turn and does what only
//! it can do: load, send, deliver, save. The decisions are made here, each
//! from what the last step left and what came back:
//!
//! * `Turn::accept` and `Turn::poke` tell whether an event starts a turn;
//! * `Turn::loaded` takes the loaded history, tries the commands and, if
//!   none answers, opens the exchange with the model;
//! * `Exchange::answered` takes each answer of the endpoint;
//! * a `Settlement` tells what to deliver and holds the user to save, and
//!   `conclude` tells how the turn ended once that was tried.

use crate::commands::{addressed, builtin_effect, CommandKind, CommandOutcome, CommandRegistry};
use crate::history::{
    append, is_system, lemma_push_keeps_well_formed, lemma_well_formed_counts_one,
    lemma_with_system_well_formed, system_count, well_formed, with_system,
};
use crate::json::recordable;
use crate::mcp_loader::tool_names;
use crate::message::{
    message_views, part_views, tool_message, ChatRole, ContentPart, ContentView, Message,
    MessageContent, MessageView, PartView, User, UserView,
};
use crate::openai_api::{
    after_tool, answer_view, answered, assistant_message, classify, delivered, first_choice,
    request_for, AnswerKind, ChatError, ChatRequest, ChatResponse, ChatState, ChatStep,
    EndpointFailure, ErrorView, OpenaiClient, Progress,
};
use crate::reply::{content_reply, texts, Reply};
use crate::text::same_text;
use vstd::prelude::*;

verus! {

/// An incoming message, as far as a turn needs it.
#[derive(Debug, PartialEq, Eq)]
pub struct Inbound {
    pub user_id: i64,
    /// The text of the message, where it has any.
    pub text: Option<String>,
    /// The addresses of the images that came with it.
    pub images: Vec<String>,
    /// Whether it was sent in a group.
    pub group: bool,
    /// Whether it mentions the bot.
    pub addressed: bool,
}

/// A notice of the host, as far as a turn needs it.
#[derive(Debug, PartialEq, Eq)]
pub struct Notice {
    pub group_id: Option<i64>,
    pub user_id: i64,
    pub sub_type: String,
    pub target_id: i64,
}

/// A turn that has begun: who speaks, and what they said.
#[derive(Debug, PartialEq, Eq)]
pub struct Turn {
    pub user_id: i64,
    pub text: String,
    pub images: Vec<String>,
    /// Whether the reply quotes the message it answers.
    pub quote: bool,
    /// Whether the commands are tried before the model is asked.
    pub commands: bool,
    /// Whether only a reply in plain text can be delivered.
    pub text_only: bool,
}

/// What a `Turn` holds.
pub struct TurnView {
    pub user_id: i64,
    pub text: Seq<char>,
    pub images: Seq<Seq<char>>,
    pub quote: bool,
    pub commands: bool,
    pub text_only: bool,
}

impl View for Turn {
    type V = TurnView;

    open spec fn view(&self) -> TurnView {
        TurnView {
            user_id: self.user_id,
            text: self.text@,
            images: texts(self.images@),
            quote: self.quote,
            commands: self.commands,
            text_only: self.text_only,
        }
    }
}

/// What a poke is answered as if the user had said it.
pub open spec fn poke_text() -> Seq<char> {
    "(戳一戳)"@
}

/// The parts that show the images at `urls`, in order.
pub open spec fn image_parts(urls: Seq<Seq<char>>) -> Seq<PartView> {
    urls.map_values(
        |u: Seq<char>| PartView { kind: "image_url"@, text: None, image_url: Some(u) },
    )
}

/// The message that records what the user sent: plain text where no image
/// came with it, else the text followed by the images.
pub open spec fn user_message(text: Seq<char>, images: Seq<Seq<char>>) -> MessageView {
    MessageView {
        role: ChatRole::User,
        content: if images.len() == 0 {
            ContentView::Text(text)
        } else {
            ContentView::Multi(
                seq![PartView { kind: "text"@, text: Some(text), image_url: None }] + image_parts(
                    images,
                ),
            )
        },
        tool_name: None,
    }
}

/// The message that records what the user sent.
pub fn make_user_message(text: &str, images: &Vec<String>) -> (r: Message)
    ensures
        r@ == user_message(text@, texts(images@)),
{
    if images.len() == 0 {
        Message {
            role: ChatRole::User,
            content: MessageContent::Text(text.to_string()),
            tool_name: None,
        }
    } else {
        let mut multi: Vec<ContentPart> = Vec::new();
        multi.push(ContentPart::text(text));
        let ghost head = seq![PartView { kind: "text"@, text: Some(text@), image_url: None }];
        let ghost want = image_parts(texts(images@));
        let mut i: usize = 0;
        while i < images.len()
            invariant
                i <= images@.len(),
                want == image_parts(texts(images@)),
                part_views(multi@) == head + want.take(i as int),
            decreases images@.len() - i,
        {
            let ghost before = multi@;
            let part = ContentPart::image(images[i].as_str());
            multi.push(part);
            assert(part_views(multi@) =~= part_views(before).push(part@));
            i = i + 1;
        }
        assert(want.take(images@.len() as int) =~= want);
        Message { role: ChatRole::User, content: MessageContent::Multi(multi), tool_name: None }
    }
}

/// What is left to do once the turn's answer is settled: deliver, then
/// save the user.
#[derive(Debug, PartialEq, Eq)]
pub struct Settlement {
    /// The user to save, with the history as the turn left it.
    pub user: User,
    /// What a command asks for, where a command answered.
    pub outcome: Option<CommandOutcome>,
    /// The model's reply, where it gave one that can be delivered.
    pub reply: Option<Reply>,
    /// Why the model gives no reply, where it was asked and gives none.
    pub error: Option<ChatError>,
}

/// A turn that waits for an answer of the endpoint.
#[derive(Debug, PartialEq, Eq)]
pub struct Exchange {
    pub state: ChatState,
    pub user: User,
    pub quote: bool,
    pub text_only: bool,
    /// The request to send.
    pub request: ChatRequest,
}

/// Where a turn stands once the history has come.
#[derive(Debug, PartialEq, Eq)]
pub enum Loaded {
    /// The history could not be loaded. Nothing is sent and nothing saved.
    Aborted(ChatError),
    /// The answer is settled without the model, or the model is not asked.
    Settled(Settlement),
    /// The model is asked.
    Asking(Exchange),
}

/// Where a turn stands once an answer of the endpoint has come.
#[derive(Debug, PartialEq, Eq)]
pub enum Answered {
    /// The model is asked again.
    Asking(Exchange),
    /// The turn is over.
    Settled(Settlement),
}

/// Whether a message that reads as `reply` can be delivered in a turn.
pub open spec fn deliverable(text_only: bool, reply: ContentView) -> bool {
    !text_only || reply is Text
}

impl Turn {
    /// The turn that `inbound` starts, if it starts one: a message in a
    /// group must mention the bot, and a message must hold text or an
    /// image.
    pub fn accept(inbound: Inbound) -> (r: Option<Turn>)
        ensures
            r is Some <==> (!inbound.group || inbound.addressed) && (inbound.text is Some
                || inbound.images@.len() > 0),
            r matches Some(turn) ==> turn@ == (TurnView {
                user_id: inbound.user_id,
                text: match inbound.text {
                    Some(t) => t@,
                    None => Seq::empty(),
                },
                images: texts(inbound.images@),
                quote: inbound.group,
                commands: true,
                text_only: false,
            }),
    {
        if inbound.group && !inbound.addressed {
            return None;
        }
        let text = match inbound.text {
            Some(t) => t,
            None => {
                if inbound.images.len() == 0 {
                    return None;
                }
                String::new()
            },
        };
        Some(
            Turn {
                user_id: inbound.user_id,
                text,
                images: inbound.images,
                quote: inbound.group,
                commands: true,
                text_only: false,
            },
        )
    }

    /// The turn that `notice` starts for the bot `self_id`, if it starts
    /// one: the notice must be a poke, and the bot the one poked.
    pub fn poke(notice: &Notice, self_id: i64) -> (r: Option<Turn>)
        ensures
            r is Some <==> notice.sub_type@ == "poke"@ && notice.target_id == self_id,
            r matches Some(turn) ==> turn@ == (TurnView {
                user_id: notice.user_id,
                text: poke_text(),
                images: Seq::empty(),
                quote: false,
                commands: false,
                text_only: true,
            }),
    {
        if !same_text(notice.sub_type.as_str(), "poke") || notice.target_id != self_id {
            return None;
        }
        let images: Vec<String> = Vec::new();
        assert(texts(images@) =~= Seq::empty());
        Some(
            Turn {
                user_id: notice.user_id,
                text: "(戳一戳)".to_string(),
                images,
                quote: false,
                commands: false,
                text_only: true,
            },
        )
    }

    /// Takes the history that was loaded for the turn's user, or `None`
    /// where loading failed.
    ///
    /// A failed load aborts the turn. Else the commands are tried, where
    /// the turn tries them: a command that answers settles the turn, and
    /// the model is not asked. Else the user's message is appended, the
    /// system prompt is made sure of, and the model is asked.
    pub fn loaded(
        self,
        history: Option<Vec<Message>>,
        commands: &CommandRegistry,
        client: &OpenaiClient,
    ) -> (r: Loaded)
        ensures
            match history {
                None => r matches Loaded::Aborted(error) && error@ == ErrorView::StoreError,
                Some(h) => match addressed(commands.commands(), self.text@) {
                    Some(i) if self.commands => {
                        &&& r matches Loaded::Settled(settlement)
                        &&& settlement.outcome is Some
                        &&& settlement.reply is None
                        &&& settlement.error is None
                        &&& commands.commands()[i].kind matches CommandKind::Builtin(builtin) ==> (
                            settlement.user@,
                            settlement.outcome->0@,
                        ) == builtin_effect(
                            builtin,
                            self.text@,
                            texts(self.images@),
                            UserView { id: self.user_id, history: message_views(h@) },
                            commands.listing(),
                        )
                    },
                    _ => {
                        let grown = with_system(
                            message_views(h@).push(user_message(self.text@, texts(self.images@))),
                            client@.system_promote,
                        );
                        if client@.max_iterations == 0 {
                            &&& r matches Loaded::Settled(settlement)
                            &&& settlement.user@ == (UserView { id: self.user_id, history: grown })
                            &&& settlement.outcome is None
                            &&& settlement.reply is None
                            &&& settlement.error matches Some(error)
                            &&& error@ == ErrorView::ToolLoopExhausted
                        } else {
                            &&& r matches Loaded::Asking(exchange)
                            &&& exchange.state == (ChatState { asked: 1 })
                            &&& exchange.user@ == (UserView { id: self.user_id, history: grown })
                            &&& exchange.quote == self.quote
                            &&& exchange.text_only == self.text_only
                            &&& exchange.request@ == request_for(client@, grown)
                        }
                    },
                },
            },
    {
        let history = match history {
            Some(h) => h,
            None => {
                return Loaded::Aborted(ChatError::StoreError);
            },
        };
        let mut user = User { id: self.user_id, history };
        if self.commands {
            match commands.handle(self.text.as_str(), &self.images, &mut user) {
                Some(outcome) => {
                    return Loaded::Settled(
                        Settlement { user, outcome: Some(outcome), reply: None, error: None },
                    );
                },
                None => {},
            }
        }
        append(&mut user.history, make_user_message(self.text.as_str(), &self.images));
        match client.chat(&mut user.history) {
            ChatStep::Ask(state, request) => Loaded::Asking(
                Exchange { state, user, quote: self.quote, text_only: self.text_only, request },
            ),
            ChatStep::Done(content) => Loaded::Settled(
                Settlement {
                    user,
                    outcome: None,
                    reply: Some(Reply::from_content(&content, self.quote)),
                    error: None,
                },
            ),
            ChatStep::Failed(error) => Loaded::Settled(
                Settlement { user, outcome: None, reply: None, error: Some(error) },
            ),
        }
    }
}

impl Exchange {
    /// Takes the endpoint's answer to the request of this exchange.
    ///
    /// The model is asked again after a tool has run, while requests are
    /// left. Else the turn is settled: with the model's reply, or with the
    /// error that ended the exchange. A reply that the turn cannot deliver
    /// is recorded in the history like any other, and settles the turn
    /// with `MalformedResponse`.
    pub fn answered(
        self,
        answer: Result<ChatResponse, EndpointFailure>,
        client: &OpenaiClient,
    ) -> (r: Answered)
        ensures
            match answered(
                client@.max_iterations as nat,
                self.state.asked as nat,
                classify(answer_view(answer), tool_names(client@.tools)),
                first_choice(answer_view(answer)).tool_call->0.name,
            ) {
                Progress::Asking(asked) => {
                    &&& r matches Answered::Asking(exchange)
                    &&& exchange.state.asked == asked
                    &&& exchange.user.id == self.user.id
                    &&& exchange.quote == self.quote
                    &&& exchange.text_only == self.text_only
                    &&& exchange.request@ == request_for(client@, exchange.user@.history)
                },
                Progress::Finished => {
                    let reply = delivered(first_choice(answer_view(answer)).message.content);
                    &&& r matches Answered::Settled(settlement)
                    &&& settlement.user@ == (UserView {
                        id: self.user.id,
                        history: self.user@.history.push(assistant_message(reply)),
                    })
                    &&& settlement.outcome is None
                    &&& if deliverable(self.text_only, reply) {
                        &&& settlement.reply matches Some(sent)
                        &&& sent@ == content_reply(reply, self.quote)
                        &&& settlement.error is None
                    } else {
                        &&& settlement.reply is None
                        &&& settlement.error matches Some(error)
                        &&& error@ == ErrorView::MalformedResponse
                    }
                },
                Progress::Failed(failure) => {
                    &&& r matches Answered::Settled(settlement)
                    &&& settlement.user.id == self.user.id
                    &&& settlement.outcome is None
                    &&& settlement.reply is None
                    &&& settlement.error matches Some(error)
                    &&& error@ == failure
                },
            },
            match classify(answer_view(answer), tool_names(client@.tools)) {
                AnswerKind::Final => true,
                AnswerKind::KnownTool => exists|payload: Seq<char>|
                    recordable(payload) && history_after(r) == after_tool(
                        self.user@.history,
                        #[trigger] tool_message(
                            first_choice(answer_view(answer)).tool_call->0.name,
                            payload,
                        ),
                        client@.system_promote,
                        self.state.asked < client@.max_iterations,
                    ),
                _ => history_after(r) == self.user@.history,
            },
            well_formed(self.user@.history) ==> well_formed(history_after(r)),
    {
        let mut user = self.user;
        match client.advance(self.state, &mut user.history, answer) {
            ChatStep::Ask(state, request) => Answered::Asking(
                Exchange { state, user, quote: self.quote, text_only: self.text_only, request },
            ),
            ChatStep::Done(content) => {
                let plain = match &content {
                    MessageContent::Text(_) => true,
                    MessageContent::Multi(_) => false,
                };
                if self.text_only && !plain {
                    Answered::Settled(
                        Settlement {
                            user,
                            outcome: None,
                            reply: None,
                            error: Some(ChatError::MalformedResponse),
                        },
                    )
                } else {
                    Answered::Settled(
                        Settlement {
                            user,
                            outcome: None,
                            reply: Some(Reply::from_content(&content, self.quote)),
                            error: None,
                        },
                    )
                }
            },
            ChatStep::Failed(error) => Answered::Settled(
                Settlement { user, outcome: None, reply: None, error: Some(error) },
            ),
        }
    }
}

/// The history that `step` leaves to go on with or to save.
pub open spec fn history_after(step: Answered) -> Seq<MessageView> {
    match step {
        Answered::Asking(exchange) => exchange.user@.history,
        Answered::Settled(settlement) => settlement.user@.history,
    }
}

/// How a turn ended: with the error that left the model without a reply,
/// else with `StoreError` where the user could not be saved, else well. A
/// reply that was delivered stays delivered either way.
pub fn conclude(error: Option<ChatError>, saved: bool) -> (r: Result<(), ChatError>)
    ensures
        match error {
            Some(e) => r == Err::<(), ChatError>(e),
            None => if saved {
                r is Ok
            } else {
                r matches Err(e) && e@ == ErrorView::StoreError
            },
        },
{
    match error {
        Some(e) => Err(e),
        None => if saved {
            Ok(())
        } else {
            Err(ChatError::StoreError)
        },
    }
}

/// No message of `messages` is spoken by the system.
pub open spec fn none_system(messages: Seq<MessageView>) -> bool {
    forall|i: int| 0 <= i < messages.len() ==> !is_system(#[trigger] messages[i])
}

/// The history that a turn leaves which found `h`, recorded `said` for the
/// user and then appended `added`: the tools' results and the model's
/// reply, as far as it came.
pub open spec fn turn_history(
    h: Seq<MessageView>,
    prompt: Seq<char>,
    said: MessageView,
    added: Seq<MessageView>,
) -> Seq<MessageView> {
    with_system(h.push(said), prompt) + added
}

/// A turn leaves a history that obeys the rule with exactly one `System`
/// message, and that message first.
pub proof fn lemma_turn_one_system(
    h: Seq<MessageView>,
    prompt: Seq<char>,
    said: MessageView,
    added: Seq<MessageView>,
)
    requires
        well_formed(h),
        !is_system(said),
        none_system(added),
    ensures
        well_formed(turn_history(h, prompt, said, added)),
        system_count(turn_history(h, prompt, said, added)) == 1,
        is_system(turn_history(h, prompt, said, added)[0]),
{
    lemma_push_keeps_well_formed(h, said);
    lemma_with_system_well_formed(h.push(said), prompt);
    lemma_well_formed_counts_one(turn_history(h, prompt, said, added));
}

/// Two turns in a row for one user leave one `System` message: the second
/// turn finds the prompt in place and only appends.
pub proof fn lemma_two_turns_one_system(
    h: Seq<MessageView>,
    prompt: Seq<char>,
    said: MessageView,
    added: Seq<MessageView>,
    said_next: MessageView,
    added_next: Seq<MessageView>,
)
    requires
        well_formed(h),
        !is_system(said),
        none_system(added),
        !is_system(said_next),
        none_system(added_next),
    ensures
        system_count(
            turn_history(turn_history(h, prompt, said, added), prompt, said_next, added_next),
        ) == 1,
        turn_history(turn_history(h, prompt, said, added), prompt, said_next, added_next)
            == turn_history(h, prompt, said, added).push(said_next) + added_next,
{
    let first = turn_history(h, prompt, said, added);
    lemma_turn_one_system(h, prompt, said, added);
    lemma_turn_one_system(first, prompt, said_next, added_next);
}

/// The history after the results `results` of tools were recorded one by
/// one, the model being asked again after each.
pub open spec fn after_tools(
    h: Seq<MessageView>,
    results: Seq<MessageView>,
    prompt: Seq<char>,
) -> Seq<MessageView>
    decreases results.len(),
{
    if results.len() == 0 {
        h
    } else {
        after_tool(after_tools(h, results.drop_last(), prompt), results.last(), prompt, true)
    }
}

/// What a turn that ends with a reply leaves to be saved: what it found,
/// the system prompt made sure of, then the user's message, the results
/// of the tools and the reply, in the order in which they came, and
/// nothing else.
pub proof fn lemma_turn_appends(
    h: Seq<MessageView>,
    prompt: Seq<char>,
    said: MessageView,
    results: Seq<MessageView>,
    reply: MessageView,
)
    ensures
        after_tools(with_system(h.push(said), prompt), results, prompt) == with_system(
            h.push(said),
            prompt,
        ) + results,
        after_tools(with_system(h.push(said), prompt), results, prompt).push(reply)
            == turn_history(h, prompt, said, results.push(reply)),
    decreases results.len(),
{
    let begun = with_system(h.push(said), prompt);
    if results.len() > 0 {
        let front = results.drop_last();
        lemma_turn_appends(h, prompt, said, front, reply);
        assert((begun + front)[0] == begun[0]);
        assert((begun + front).push(results.last()) =~= begun + results);
    } else {
        assert(begun + results =~= begun);
    }
    assert((begun + results).push(reply) =~= begun + results.push(reply));
}

/// What a user store holds, as far as a turn relies on it: for every user
/// that was ever saved, the history that was saved last.
pub open spec fn after_save(
    store: Map<i64, Seq<MessageView>>,
    user: UserView,
) -> Map<i64, Seq<MessageView>> {
    store.insert(user.id, user.history)
}

/// What such a store gives for the user `id`: the history saved last, or
/// an empty one for a user never saved.
pub open spec fn load_from(store: Map<i64, Seq<MessageView>>, id: i64) -> Seq<MessageView> {
    if store.dom().contains(id) {
        store[id]
    } else {
        Seq::empty()
    }
}

/// With a store that gives back what was last saved, loading after a turn
/// that ended with a reply gives what the turn found, then exactly the
/// user's message, the results of the tools and the reply, in that order;
/// the system prompt comes first, put there by this turn if it was not
/// there. The histories of other users are as they were.
pub proof fn lemma_saved_turn_is_loaded(
    store: Map<i64, Seq<MessageView>>,
    id: i64,
    prompt: Seq<char>,
    said: MessageView,
    results: Seq<MessageView>,
    reply: MessageView,
    other: i64,
)
    requires
        other != id,
    ensures
        ({
            let found = load_from(store, id);
            let left = after_tools(with_system(found.push(said), prompt), results, prompt).push(
                reply,
            );
            let kept = after_save(store, UserView { id, history: left });
            &&& load_from(kept, id) == with_system(found.push(said), prompt) + results.push(reply)
            &&& found.len() > 0 && is_system(found[0]) ==> load_from(kept, id) == found + seq![
                said,
            ] + results + seq![reply]
            &&& load_from(kept, other) == load_from(store, other)
        }),
{
    let found = load_from(store, id);
    lemma_turn_appends(found, prompt, said, results, reply);
    if found.len() > 0 && is_system(found[0]) {
        assert(found.push(said)[0] == found[0]);
        assert(found.push(said) + results.push(reply) =~= found + seq![said] + results + seq![
            reply,
        ]);
    }
}

} // verus!
