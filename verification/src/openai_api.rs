//! The exchange with the completion endpoint, one step at a time.
//!
//! A turn asks the model, and asks again after every tool that the model
//! has called, up to a fixed number of requests. The library decides what
//! is sent and what an answer means; sending is left to the caller, who
//! hands each answer back:
//!
//! * `chat` opens the exchange and gives the first request;
//! * `advance` takes the endpoint's answer and gives the next request, the
//!   final reply, or the error that ends the turn.
//!
//! Every step works on the history in memory and stores nothing: what was
//! appended before an error is still there for the caller to save.

use crate::config::{limit, limit_of, Config};
use crate::history::{
    append, ensure_system, is_system, lemma_push_keeps_well_formed, lemma_with_system_well_formed,
    well_formed, with_system,
};
use crate::json::recordable;
use crate::lookup::{index_of, lemma_index_of_absent};
use crate::message::{
    message_views, tool_message, ChatRole, ContentView, Message, MessageContent, MessageView,
};
use crate::text::{normalize_newlines, unescaped};
use crate::mcp_loader::{function_views, tool_names, FunctionDef, MCPRegistry, ToolInfo};
use crate::window::{window, windowed};
use vstd::prelude::*;
use vstd::string::StringExecFns;

verus! {

/// Why a turn ended without an answer.
#[derive(Debug, PartialEq, Eq)]
pub enum ChatError {
    /// The endpoint could not be reached, or answered with a failure.
    TransportError,
    /// The endpoint's answer was not of the expected shape.
    MalformedResponse,
    /// The endpoint answered without a single candidate.
    EmptyChoices,
    /// The model called a tool that is not registered.
    UnknownTool(String),
    /// The model was asked as often as is allowed and still called a tool.
    ToolLoopExhausted,
    /// The user's history could not be loaded or saved.
    StoreError,
}

/// What a `ChatError` holds.
pub enum ErrorView {
    TransportError,
    MalformedResponse,
    EmptyChoices,
    UnknownTool(Seq<char>),
    ToolLoopExhausted,
    StoreError,
}

impl View for ChatError {
    type V = ErrorView;

    open spec fn view(&self) -> ErrorView {
        match self {
            ChatError::TransportError => ErrorView::TransportError,
            ChatError::MalformedResponse => ErrorView::MalformedResponse,
            ChatError::EmptyChoices => ErrorView::EmptyChoices,
            ChatError::UnknownTool(name) => ErrorView::UnknownTool(name@),
            ChatError::ToolLoopExhausted => ErrorView::ToolLoopExhausted,
            ChatError::StoreError => ErrorView::StoreError,
        }
    }
}

/// What `error` is reported as.
pub open spec fn error_text(error: ErrorView) -> Seq<char> {
    match error {
        ErrorView::TransportError => "OpenAI request failed"@,
        ErrorView::MalformedResponse => "OpenAI returned a response of unexpected shape"@,
        ErrorView::EmptyChoices => "No choice returned from OpenAI"@,
        ErrorView::UnknownTool(name) => "OpenAI called an unknown tool: "@ + name,
        ErrorView::ToolLoopExhausted => "Too many tool calls in one turn"@,
        ErrorView::StoreError => "The user store failed"@,
    }
}

impl ChatError {
    /// What the error is reported as.
    pub fn message(&self) -> (r: String)
        ensures
            r@ == error_text(self@),
    {
        match self {
            ChatError::TransportError => "OpenAI request failed".to_string(),
            ChatError::MalformedResponse => "OpenAI returned a response of unexpected shape"
                .to_string(),
            ChatError::EmptyChoices => "No choice returned from OpenAI".to_string(),
            ChatError::UnknownTool(name) => {
                let mut text = "OpenAI called an unknown tool: ".to_string();
                text.append(name.as_str());
                text
            },
            ChatError::ToolLoopExhausted => "Too many tool calls in one turn".to_string(),
            ChatError::StoreError => "The user store failed".to_string(),
        }
    }
}

/// How a request to the endpoint failed, as the transport tells it.
#[derive(Clone, Copy, Debug, PartialEq, Eq, Structural)]
pub enum EndpointFailure {
    /// No answer, or an answer with a failure status.
    Transport,
    /// An answer whose body could not be read as a response.
    Malformed,
}

/// The model's request to run a tool.
#[derive(Debug, PartialEq, Eq)]
pub struct ToolCall {
    pub name: String,
    /// The arguments, as the JSON text that the model wrote.
    pub arguments: String,
}

/// What a `ToolCall` holds.
pub struct ToolCallView {
    pub name: Seq<char>,
    pub arguments: Seq<char>,
}

impl View for ToolCall {
    type V = ToolCallView;

    open spec fn view(&self) -> ToolCallView {
        ToolCallView { name: self.name@, arguments: self.arguments@ }
    }
}

/// One candidate answer of the model: a message, or a call of a tool.
#[derive(Debug, PartialEq, Eq)]
pub struct ChatChoice {
    pub message: Message,
    /// The tool that the model wants run, where it asks for one.
    pub tool_call: Option<ToolCall>,
}

/// What a `ChatChoice` holds.
pub struct ChoiceView {
    pub message: MessageView,
    pub tool_call: Option<ToolCallView>,
}

impl View for ChatChoice {
    type V = ChoiceView;

    open spec fn view(&self) -> ChoiceView {
        ChoiceView {
            message: self.message@,
            tool_call: match self.tool_call {
                Some(call) => Some(call@),
                None => None,
            },
        }
    }
}

/// What the endpoint answered.
#[derive(Debug, PartialEq, Eq)]
pub struct ChatResponse {
    pub choices: Vec<ChatChoice>,
}

impl View for ChatResponse {
    type V = Seq<ChoiceView>;

    open spec fn view(&self) -> Seq<ChoiceView> {
        self.choices@.map_values(|c: ChatChoice| c@)
    }
}

/// What is sent to the endpoint. The transport may add what the library
/// has no part in, such as a sampling temperature.
#[derive(Debug, PartialEq, Eq)]
pub struct ChatRequest {
    pub model: String,
    pub messages: Vec<Message>,
    /// The tools that the model may call.
    pub functions: Vec<FunctionDef>,
    pub max_output_tokens: Option<u32>,
}

/// What a `ChatRequest` holds.
pub struct RequestView {
    pub model: Seq<char>,
    pub messages: Seq<MessageView>,
    pub functions: Seq<ToolInfo>,
    pub max_output_tokens: Option<u32>,
}

impl View for ChatRequest {
    type V = RequestView;

    open spec fn view(&self) -> RequestView {
        RequestView {
            model: self.model@,
            messages: message_views(self.messages@),
            functions: function_views(self.functions@),
            max_output_tokens: self.max_output_tokens,
        }
    }
}

/// How far the exchange of one turn has come.
#[derive(Clone, Copy, Debug, PartialEq, Eq, Structural)]
pub struct ChatState {
    /// The number of requests handed out so far.
    pub asked: usize,
}

/// What the caller does next.
#[derive(Debug, PartialEq, Eq)]
pub enum ChatStep {
    /// Send this request, and hand the answer to `advance` with this state.
    Ask(ChatState, ChatRequest),
    /// The turn is over; this is the model's reply.
    Done(MessageContent),
    /// The turn is over without a reply.
    Failed(ChatError),
}

/// What a `ChatStep` holds.
pub enum StepView {
    Ask(ChatState, RequestView),
    Done(ContentView),
    Failed(ErrorView),
}

impl View for ChatStep {
    type V = StepView;

    open spec fn view(&self) -> StepView {
        match self {
            ChatStep::Ask(state, request) => StepView::Ask(*state, request@),
            ChatStep::Done(content) => StepView::Done(content@),
            ChatStep::Failed(error) => StepView::Failed(error@),
        }
    }
}

/// What an answer of the endpoint amounts to.
pub enum AnswerKind {
    /// The request failed in transport.
    Transport,
    /// The answer could not be read.
    Malformed,
    /// The answer holds no candidate.
    Empty,
    /// The first candidate is the model's reply.
    Final,
    /// The first candidate calls a tool that is not registered.
    UnknownTool,
    /// The first candidate calls a registered tool.
    KnownTool,
}

/// The endpoint's answer as contracts see it.
pub open spec fn answer_view(answer: Result<ChatResponse, EndpointFailure>) -> Result<
    Seq<ChoiceView>,
    EndpointFailure,
> {
    match answer {
        Ok(response) => Ok(response@),
        Err(failure) => Err(failure),
    }
}

/// What `answer` amounts to where the tools called `names` are registered.
/// Only the first candidate counts.
pub open spec fn classify(
    answer: Result<Seq<ChoiceView>, EndpointFailure>,
    names: Seq<Seq<char>>,
) -> AnswerKind {
    match answer {
        Err(EndpointFailure::Transport) => AnswerKind::Transport,
        Err(EndpointFailure::Malformed) => AnswerKind::Malformed,
        Ok(choices) => if choices.len() == 0 {
            AnswerKind::Empty
        } else {
            match choices[0].tool_call {
                None => AnswerKind::Final,
                Some(call) => if index_of(names, call.name) is Some {
                    AnswerKind::KnownTool
                } else {
                    AnswerKind::UnknownTool
                },
            }
        },
    }
}

/// The first candidate of an answer that has one.
pub open spec fn first_choice(answer: Result<Seq<ChoiceView>, EndpointFailure>) -> ChoiceView {
    answer->Ok_0[0]
}

/// A reply as it is delivered: in plain text, every literal backslash-`n`
/// pair has become a line break.
pub open spec fn delivered(content: ContentView) -> ContentView {
    match content {
        ContentView::Text(t) => ContentView::Text(unescaped(t)),
        ContentView::Multi(parts) => ContentView::Multi(parts),
    }
}

/// The message that records the model's reply `content`.
pub open spec fn assistant_message(content: ContentView) -> MessageView {
    MessageView { role: ChatRole::Assistant, content, tool_name: None }
}

/// Where a turn stands: the number of requests handed out while it is
/// still asking, or how it ended.
pub enum Progress {
    Asking(nat),
    Finished,
    Failed(ErrorView),
}

/// Where a turn stands after `step`.
pub open spec fn progress_of(step: StepView) -> Progress {
    match step {
        StepView::Ask(state, _) => Progress::Asking(state.asked as nat),
        StepView::Done(_) => Progress::Finished,
        StepView::Failed(error) => Progress::Failed(error),
    }
}

/// Where a turn stands once it is opened, with at most `max` requests
/// allowed.
pub open spec fn opened(max: nat) -> Progress {
    if max == 0 {
        Progress::Failed(ErrorView::ToolLoopExhausted)
    } else {
        Progress::Asking(1)
    }
}

/// Where a turn stands after an answer of kind `kind` to its `asked`-th
/// request, with at most `max` requests allowed. `tool` is the name of the
/// tool called, where one is.
pub open spec fn answered(max: nat, asked: nat, kind: AnswerKind, tool: Seq<char>) -> Progress {
    match kind {
        AnswerKind::Transport => Progress::Failed(ErrorView::TransportError),
        AnswerKind::Malformed => Progress::Failed(ErrorView::MalformedResponse),
        AnswerKind::Empty => Progress::Failed(ErrorView::EmptyChoices),
        AnswerKind::Final => Progress::Finished,
        AnswerKind::UnknownTool => Progress::Failed(ErrorView::UnknownTool(tool)),
        AnswerKind::KnownTool => if asked >= max {
            Progress::Failed(ErrorView::ToolLoopExhausted)
        } else {
            Progress::Asking(asked + 1)
        },
    }
}

/// The history after `result`, the message that holds what a tool
/// returned, was recorded. Where the model is asked again, the system
/// prompt is made sure of first.
pub open spec fn after_tool(
    h: Seq<MessageView>,
    result: MessageView,
    prompt: Seq<char>,
    again: bool,
) -> Seq<MessageView> {
    if again {
        with_system(h.push(result), prompt)
    } else {
        h.push(result)
    }
}

/// The settings that an exchange goes by.
pub struct ClientView {
    pub api_url: Seq<char>,
    pub bearer_token: Seq<char>,
    pub model: Seq<char>,
    pub system_promote: Seq<char>,
    pub max_output_tokens: Option<u32>,
    /// The most requests within one turn.
    pub max_iterations: usize,
    /// The most messages in a request; zero for no limit.
    pub max_messages: usize,
    /// The most estimated tokens in a request; zero for no limit.
    pub max_tokens: usize,
    /// The registered tools.
    pub tools: Seq<ToolInfo>,
}

/// The request that `client` sends for the history `h`: the window of the
/// history and the schema of every registered tool.
pub open spec fn request_for(client: ClientView, h: Seq<MessageView>) -> RequestView {
    RequestView {
        model: client.model,
        messages: windowed(h, client.max_messages as nat, client.max_tokens as nat),
        functions: client.tools,
        max_output_tokens: client.max_output_tokens,
    }
}

/// The client of the completion endpoint: the settings of the exchange and
/// the tools on offer.
pub struct OpenaiClient {
    api_url: String,
    bearer_token: String,
    model: String,
    system_promote: String,
    max_output_tokens: Option<u32>,
    max_iterations: usize,
    max_messages: usize,
    max_tokens: usize,
    mcp_loader: Option<MCPRegistry>,
}

/// The tools of an optional registry.
pub open spec fn tools_of(mcp_loader: Option<MCPRegistry>) -> Seq<ToolInfo> {
    match mcp_loader {
        Some(registry) => registry.tools(),
        None => Seq::empty(),
    }
}

impl View for OpenaiClient {
    type V = ClientView;

    closed spec fn view(&self) -> ClientView {
        ClientView {
            api_url: self.api_url@,
            bearer_token: self.bearer_token@,
            model: self.model@,
            system_promote: self.system_promote@,
            max_output_tokens: self.max_output_tokens,
            max_iterations: self.max_iterations,
            max_messages: self.max_messages,
            max_tokens: self.max_tokens,
            tools: tools_of(self.mcp_loader),
        }
    }
}

/// The reply `content` as it is delivered.
pub fn deliver(content: &MessageContent) -> (r: MessageContent)
    ensures
        r@ == delivered(content@),
{
    match content {
        MessageContent::Text(t) => MessageContent::Text(normalize_newlines(t.as_str())),
        MessageContent::Multi(_) => content.clone(),
    }
}

impl OpenaiClient {
    /// The client that goes by `config` and offers the tools of
    /// `mcp_loader`.
    pub fn build(config: Config, mcp_loader: Option<MCPRegistry>) -> (r: Self)
        ensures
            r@ == (ClientView {
                api_url: config.api_url@,
                bearer_token: config.bearer_token@,
                model: config.model@,
                system_promote: config.system_promote@,
                max_output_tokens: config.max_output_tokens,
                max_iterations: config.max_tool_iterations,
                max_messages: limit_of(config.max_messages),
                max_tokens: limit_of(config.max_tokens),
                tools: tools_of(mcp_loader),
            }),
    {
        OpenaiClient {
            api_url: config.api_url,
            bearer_token: config.bearer_token,
            model: config.model,
            system_promote: config.system_promote,
            max_output_tokens: config.max_output_tokens,
            max_iterations: config.max_tool_iterations,
            max_messages: limit(config.max_messages),
            max_tokens: limit(config.max_tokens),
            mcp_loader,
        }
    }

    /// The address of the endpoint.
    pub fn api_url(&self) -> (r: &str)
        ensures
            r@ == self@.api_url,
    {
        self.api_url.as_str()
    }

    /// The credential that the endpoint asks for.
    pub fn bearer_token(&self) -> (r: &str)
        ensures
            r@ == self@.bearer_token,
    {
        self.bearer_token.as_str()
    }

    /// The request for the history `messages`.
    pub fn request(&self, messages: &Vec<Message>) -> (r: ChatRequest)
        ensures
            r@ == request_for(self@, message_views(messages@)),
    {
        let functions = match &self.mcp_loader {
            Some(registry) => registry.functions(),
            None => {
                let none: Vec<FunctionDef> = Vec::new();
                assert(function_views(none@) =~= Seq::empty());
                none
            },
        };
        ChatRequest {
            model: self.model.clone(),
            messages: window(messages, self.max_messages, self.max_tokens),
            functions,
            max_output_tokens: self.max_output_tokens,
        }
    }

    /// Opens the exchange of a turn whose user message is already in
    /// `messages`: makes sure of the system prompt and gives the first
    /// request, unless no request at all is allowed.
    pub fn chat(&self, messages: &mut Vec<Message>) -> (r: ChatStep)
        ensures
            message_views(final(messages)@) == with_system(
                message_views(old(messages)@),
                self@.system_promote,
            ),
            r@ == if self@.max_iterations == 0 {
                StepView::Failed(ErrorView::ToolLoopExhausted)
            } else {
                StepView::Ask(
                    ChatState { asked: 1 },
                    request_for(self@, message_views(final(messages)@)),
                )
            },
            progress_of(r@) == opened(self@.max_iterations as nat),
            well_formed(message_views(old(messages)@)) ==> well_formed(
                message_views(final(messages)@),
            ),
    {
        proof {
            if well_formed(message_views(messages@)) {
                lemma_with_system_well_formed(message_views(messages@), self@.system_promote);
            }
        }
        ensure_system(messages, self.system_promote.as_str());
        if self.max_iterations == 0 {
            ChatStep::Failed(ChatError::ToolLoopExhausted)
        } else {
            ChatStep::Ask(ChatState { asked: 1 }, self.request(messages))
        }
    }

    /// Takes the endpoint's answer to the request that `state` stands for.
    ///
    /// A failed request, an answer without a candidate and a call of a
    /// tool that is not registered end the turn with their error and
    /// leave `messages` as it was. A reply ends the turn: it is appended
    /// as an `Assistant` message, line breaks normalised, and returned. A
    /// call of a registered tool runs the tool and appends its result as a
    /// `Tool` message, written as JSON; then the model is asked again,
    /// unless it has been asked as often as is allowed, which ends the turn
    /// with `ToolLoopExhausted`. A tool that failed has said so in its
    /// result: the turn goes on, and the model reads of the failure.
    pub fn advance(
        &self,
        state: ChatState,
        messages: &mut Vec<Message>,
        answer: Result<ChatResponse, EndpointFailure>,
    ) -> (r: ChatStep)
        ensures
            progress_of(r@) == answered(
                self@.max_iterations as nat,
                state.asked as nat,
                classify(answer_view(answer), tool_names(self@.tools)),
                first_choice(answer_view(answer)).tool_call->0.name,
            ),
            match classify(answer_view(answer), tool_names(self@.tools)) {
                AnswerKind::Final => {
                    &&& r@ == StepView::Done(
                        delivered(first_choice(answer_view(answer)).message.content),
                    )
                    &&& message_views(final(messages)@) == message_views(old(messages)@).push(
                        assistant_message(
                            delivered(first_choice(answer_view(answer)).message.content),
                        ),
                    )
                },
                AnswerKind::KnownTool => exists|payload: Seq<char>|
                    recordable(payload) && message_views(final(messages)@) == after_tool(
                        message_views(old(messages)@),
                        #[trigger] tool_message(
                            first_choice(answer_view(answer)).tool_call->0.name,
                            payload,
                        ),
                        self@.system_promote,
                        state.asked < self@.max_iterations,
                    ),
                _ => message_views(final(messages)@) == message_views(old(messages)@),
            },
            r@ matches StepView::Ask(_, request) ==> request == request_for(
                self@,
                message_views(final(messages)@),
            ),
            well_formed(message_views(old(messages)@)) ==> well_formed(
                message_views(final(messages)@),
            ),
    {
        let response = match answer {
            Err(EndpointFailure::Transport) => {
                return ChatStep::Failed(ChatError::TransportError);
            },
            Err(EndpointFailure::Malformed) => {
                return ChatStep::Failed(ChatError::MalformedResponse);
            },
            Ok(response) => response,
        };
        if response.choices.len() == 0 {
            return ChatStep::Failed(ChatError::EmptyChoices);
        }
        let choice = &response.choices[0];
        match &choice.tool_call {
            None => {
                let content = deliver(&choice.message.content);
                let reply = content.clone();
                proof {
                    lemma_push_keeps_well_formed(
                        message_views(messages@),
                        assistant_message(content@),
                    );
                }
                append(messages, Message { role: ChatRole::Assistant, content, tool_name: None });
                ChatStep::Done(reply)
            },
            Some(call) => {
                let result = match &self.mcp_loader {
                    Some(registry) => registry.call(call.name.as_str(), call.arguments.as_str()),
                    None => {
                        proof {
                            lemma_index_of_absent(
                                tool_names(Seq::<ToolInfo>::empty()),
                                call.name@,
                            );
                        }
                        None
                    },
                };
                match result {
                    None => ChatStep::Failed(ChatError::UnknownTool(call.name.clone())),
                    Some(payload) => {
                        proof {
                            let recorded = message_views(messages@).push(
                                tool_message(call.name@, payload@),
                            );
                            lemma_push_keeps_well_formed(
                                message_views(messages@),
                                tool_message(call.name@, payload@),
                            );
                            if well_formed(recorded) {
                                lemma_with_system_well_formed(recorded, self@.system_promote);
                            }
                        }
                        append(messages, Message::tool(call.name.as_str(), payload.as_str()));
                        if state.asked >= self.max_iterations {
                            ChatStep::Failed(ChatError::ToolLoopExhausted)
                        } else {
                            ensure_system(messages, self.system_promote.as_str());
                            ChatStep::Ask(
                                ChatState { asked: state.asked + 1 },
                                self.request(messages),
                            )
                        }
                    },
                }
            },
        }
    }
}

/// Where a turn stands after the answers of kinds `kinds`, in order, each
/// of which calls the tool `tool` where it calls one. Once the turn has
/// ended, further answers change nothing: nobody is asked any more.
pub open spec fn run(max: nat, kinds: Seq<AnswerKind>, tool: Seq<char>) -> Progress
    decreases kinds.len(),
{
    if kinds.len() == 0 {
        opened(max)
    } else {
        match run(max, kinds.drop_last(), tool) {
            Progress::Asking(asked) => answered(max, asked, kinds.last(), tool),
            ended => ended,
        }
    }
}

/// However the endpoint answers, a turn never hands out more requests than
/// are allowed: while it is asking, it has asked once more than it has had
/// answers, and at most `max` times.
pub proof fn lemma_requests_bounded(max: nat, kinds: Seq<AnswerKind>, tool: Seq<char>)
    ensures
        run(max, kinds, tool) matches Progress::Asking(asked) ==> asked == kinds.len() + 1 && asked
            <= max,
    decreases kinds.len(),
{
    if kinds.len() > 0 {
        lemma_requests_bounded(max, kinds.drop_last(), tool);
    }
}

/// An endpoint that answers every request with a call of the same
/// registered tool is asked exactly `max` times: the turn is still asking
/// after fewer answers than that, and has failed with `ToolLoopExhausted`
/// after `max` of them.
pub proof fn lemma_tool_loop_exhausts(max: nat, kinds: Seq<AnswerKind>, tool: Seq<char>)
    requires
        forall|i: int| 0 <= i < kinds.len() ==> kinds[i] is KnownTool,
    ensures
        run(max, kinds, tool) == if kinds.len() < max {
            Progress::Asking(kinds.len() + 1)
        } else {
            Progress::Failed(ErrorView::ToolLoopExhausted)
        },
    decreases kinds.len(),
{
    if kinds.len() > 0 {
        lemma_tool_loop_exhausts(max, kinds.drop_last(), tool);
    }
}

/// In a history that starts with a `System` message, recording a tool's
/// result appends it and changes nothing else, whether or not the model is
/// asked again.
pub proof fn lemma_after_tool_appends(
    h: Seq<MessageView>,
    result: MessageView,
    prompt: Seq<char>,
    again: bool,
)
    requires
        h.len() > 0,
        is_system(h[0]),
    ensures
        after_tool(h, result, prompt, again) == h.push(result),
{
}

} // verus!
