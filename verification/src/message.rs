//! The vocabulary shared by every component: roles, message contents and
//! the per-user record, each with the mathematical value contracts speak of.

use vstd::prelude::*;

verus! {

/// Who speaks in a message.
#[derive(Copy, Debug, PartialEq, Eq, Structural)]
pub enum ChatRole {
    System,
    User,
    Assistant,
    Tool,
}

impl Clone for ChatRole {
    fn clone(&self) -> (r: Self)
        ensures
            r == *self,
    {
        *self
    }
}

/// One part of a composite message: a piece of text or an image reference.
#[derive(Debug, PartialEq, Eq)]
pub struct ContentPart {
    pub kind: String,
    pub text: Option<String>,
    pub image_url: Option<String>,
}

/// What a `ContentPart` holds.
pub struct PartView {
    pub kind: Seq<char>,
    pub text: Option<Seq<char>>,
    pub image_url: Option<Seq<char>>,
}

/// The characters of an optional string.
pub open spec fn text_of(s: Option<String>) -> Option<Seq<char>> {
    match s {
        Some(t) => Some(t@),
        None => None,
    }
}

impl View for ContentPart {
    type V = PartView;

    open spec fn view(&self) -> PartView {
        PartView { kind: self.kind@, text: text_of(self.text), image_url: text_of(self.image_url) }
    }
}

/// A copy of an optional string.
pub fn copy_text(s: &Option<String>) -> (r: Option<String>)
    ensures
        text_of(r) == text_of(*s),
{
    match s {
        Some(t) => Some(t.clone()),
        None => None,
    }
}

impl Clone for ContentPart {
    fn clone(&self) -> (r: Self)
        ensures
            r@ == self@,
    {
        ContentPart {
            kind: self.kind.clone(),
            text: copy_text(&self.text),
            image_url: copy_text(&self.image_url),
        }
    }
}

impl ContentPart {
    /// A part of kind `text` that holds `text`.
    pub fn text(text: &str) -> (r: Self)
        ensures
            r@ == (PartView { kind: "text"@, text: Some(text@), image_url: None }),
    {
        ContentPart { kind: "text".to_string(), text: Some(text.to_string()), image_url: None }
    }

    /// A part of kind `image_url` that refers to the image at `url`.
    pub fn image(url: &str) -> (r: Self)
        ensures
            r@ == (PartView { kind: "image_url"@, text: None, image_url: Some(url@) }),
    {
        ContentPart {
            kind: "image_url".to_string(),
            text: None,
            image_url: Some(url.to_string()),
        }
    }
}

/// What each part of `parts` holds, in order.
pub open spec fn part_views(parts: Seq<ContentPart>) -> Seq<PartView> {
    parts.map_values(|p: ContentPart| p@)
}

/// A copy of a list of parts.
pub fn copy_parts(parts: &Vec<ContentPart>) -> (r: Vec<ContentPart>)
    ensures
        part_views(r@) == part_views(parts@),
{
    let mut out: Vec<ContentPart> = Vec::new();
    let mut i: usize = 0;
    while i < parts.len()
        invariant
            i <= parts@.len(),
            part_views(out@) == part_views(parts@).take(i as int),
        decreases parts@.len() - i,
    {
        let ghost before = out@;
        let part = parts[i].clone();
        out.push(part);
        assert(part_views(out@) =~= part_views(before).push(part@));
        i = i + 1;
    }
    out
}

/// The body of a message: plain text, or an ordered list of parts.
#[derive(Debug, PartialEq, Eq)]
pub enum MessageContent {
    Text(String),
    Multi(Vec<ContentPart>),
}

/// What a `MessageContent` holds.
pub enum ContentView {
    Text(Seq<char>),
    Multi(Seq<PartView>),
}

impl View for MessageContent {
    type V = ContentView;

    open spec fn view(&self) -> ContentView {
        match self {
            MessageContent::Text(t) => ContentView::Text(t@),
            MessageContent::Multi(parts) => ContentView::Multi(part_views(parts@)),
        }
    }
}

impl Clone for MessageContent {
    fn clone(&self) -> (r: Self)
        ensures
            r@ == self@,
    {
        match self {
            MessageContent::Text(t) => MessageContent::Text(t.clone()),
            MessageContent::Multi(parts) => MessageContent::Multi(copy_parts(parts)),
        }
    }
}

/// One entry of a conversation.
#[derive(Debug, PartialEq, Eq)]
pub struct Message {
    pub role: ChatRole,
    pub content: MessageContent,
    /// For a `Tool` message, the tool whose result it carries.
    pub tool_name: Option<String>,
}

/// What a `Message` holds.
pub struct MessageView {
    pub role: ChatRole,
    pub content: ContentView,
    pub tool_name: Option<Seq<char>>,
}

impl View for Message {
    type V = MessageView;

    open spec fn view(&self) -> MessageView {
        MessageView { role: self.role, content: self.content@, tool_name: text_of(self.tool_name) }
    }
}

impl Clone for Message {
    fn clone(&self) -> (r: Self)
        ensures
            r@ == self@,
    {
        Message {
            role: self.role,
            content: self.content.clone(),
            tool_name: copy_text(&self.tool_name),
        }
    }
}

/// A message of plain text that names no tool.
pub open spec fn text_message(role: ChatRole, text: Seq<char>) -> MessageView {
    MessageView { role, content: ContentView::Text(text), tool_name: None }
}

/// The `Tool` message that carries `payload` as the result of `tool`.
pub open spec fn tool_message(tool: Seq<char>, payload: Seq<char>) -> MessageView {
    MessageView { role: ChatRole::Tool, content: ContentView::Text(payload), tool_name: Some(tool) }
}

impl Message {
    /// A message of plain text spoken by `role`.
    pub fn text(role: ChatRole, text: &str) -> (r: Self)
        ensures
            r@ == text_message(role, text@),
    {
        Message { role, content: MessageContent::Text(text.to_string()), tool_name: None }
    }

    /// The message that records what the tool `tool` returned.
    pub fn tool(tool: &str, payload: &str) -> (r: Self)
        ensures
            r@ == tool_message(tool@, payload@),
    {
        Message {
            role: ChatRole::Tool,
            content: MessageContent::Text(payload.to_string()),
            tool_name: Some(tool.to_string()),
        }
    }
}

/// What each message of `messages` holds, in order.
pub open spec fn message_views(messages: Seq<Message>) -> Seq<MessageView> {
    messages.map_values(|m: Message| m@)
}

/// A copy of `messages[from..to]`.
pub fn copy_messages(messages: &Vec<Message>, from: usize, to: usize) -> (r: Vec<Message>)
    requires
        from <= to <= messages@.len(),
    ensures
        message_views(r@) == message_views(messages@).subrange(from as int, to as int),
{
    let mut out: Vec<Message> = Vec::new();
    let mut i: usize = from;
    while i < to
        invariant
            from <= i <= to <= messages@.len(),
            message_views(out@) == message_views(messages@).subrange(from as int, i as int),
        decreases to - i,
    {
        let ghost before = out@;
        let message = messages[i].clone();
        out.push(message);
        assert(message_views(out@) =~= message_views(before).push(message@));
        i = i + 1;
    }
    out
}

/// One user of the bot and the conversation held with them.
#[derive(Debug, PartialEq, Eq)]
pub struct User {
    pub id: i64,
    pub history: Vec<Message>,
}

/// What a `User` holds.
pub struct UserView {
    pub id: i64,
    pub history: Seq<MessageView>,
}

impl View for User {
    type V = UserView;

    open spec fn view(&self) -> UserView {
        UserView { id: self.id, history: message_views(self.history@) }
    }
}

impl Clone for User {
    fn clone(&self) -> (r: Self)
        ensures
            r@ == self@,
    {
        let history = copy_messages(&self.history, 0, self.history.len());
        assert(message_views(self.history@).subrange(0, self.history@.len() as int)
            == message_views(self.history@));
        User { id: self.id, history }
    }
}

impl User {
    /// A user met for the first time: no history yet.
    pub fn new(id: i64) -> (r: Self)
        ensures
            r@ == (UserView { id, history: Seq::empty() }),
    {
        let history: Vec<Message> = Vec::new();
        assert(message_views(history@) =~= Seq::empty());
        User { id, history }
    }
}

} // verus!
