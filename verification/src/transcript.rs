//! What a conversation with an agent consists of: the messages of a running
//! turn and the turns that are over.

use vstd::prelude::*;

use crate::phrases::{Phrase, PhraseView};
use crate::text::opt_view;

verus! {

/// How much a notice matters.
#[derive(Clone, Copy, Debug, PartialEq, Eq, Structural)]
pub enum NoticeKind {
    Success,
    Info,
    Warning,
    Error,
}

/// What a tool call does.
#[derive(Clone, Copy, Debug, PartialEq, Eq, Structural)]
pub enum ToolCallKind {
    Read,
    Edit,
    Delete,
    Move,
    Search,
    Execute,
    Think,
    Fetch,
    Other,
}

/// How far a step of a plan has got.
#[derive(Clone, Copy, Debug, PartialEq, Eq, Structural)]
pub enum PlanEntryStatus {
    Pending,
    InProgress,
    Completed,
}

/// One step of a plan.
pub struct PlanEntry {
    pub content: String,
    pub status: PlanEntryStatus,
}

/// Text a tool produced; `truncated` where its beginning is already missing.
pub struct ToolCallOutput {
    pub text: String,
    pub truncated: bool,
}

impl Clone for ToolCallOutput {
    fn clone(&self) -> (r: Self)
        ensures
            r == *self,
    {
        ToolCallOutput { text: self.text.clone(), truncated: self.truncated }
    }
}

/// A piece of a tool call's content.
pub enum ToolCallContent {
    Text(ToolCallOutput),
    Diff { path: String, old_text: Option<ToolCallOutput>, new_text: ToolCallOutput },
    Terminal { id: String, output: Option<ToolCallOutput>, exit_code: Option<i32> },
    Attachment { label: String, uri: Option<String> },
}

/// A place in a file that a tool call touches.
pub struct ToolCallLocation {
    pub path: String,
    pub line: Option<u32>,
}

/// A copy of an optional output.
pub fn copy_output(o: &Option<ToolCallOutput>) -> (r: Option<ToolCallOutput>)
    ensures
        r == *o,
{
    match o {
        Some(o) => Some(o.clone()),
        None => None,
    }
}

/// A copy of an optional string.
pub fn copy_text(s: &Option<String>) -> (r: Option<String>)
    ensures
        r == *s,
{
    match s {
        Some(s) => Some(s.clone()),
        None => None,
    }
}

impl Clone for ToolCallContent {
    fn clone(&self) -> (r: Self)
        ensures
            r == *self,
    {
        match self {
            ToolCallContent::Text(o) => ToolCallContent::Text(o.clone()),
            ToolCallContent::Diff { path, old_text, new_text } => ToolCallContent::Diff {
                path: path.clone(),
                old_text: copy_output(old_text),
                new_text: new_text.clone(),
            },
            ToolCallContent::Terminal { id, output, exit_code } => ToolCallContent::Terminal {
                id: id.clone(),
                output: copy_output(output),
                exit_code: *exit_code,
            },
            ToolCallContent::Attachment { label, uri } => ToolCallContent::Attachment {
                label: label.clone(),
                uri: copy_text(uri),
            },
        }
    }
}

impl Clone for ToolCallLocation {
    fn clone(&self) -> (r: Self)
        ensures
            r == *self,
    {
        ToolCallLocation { path: self.path.clone(), line: self.line }
    }
}

/// A tool call as the conversation shows it.
pub struct ToolCard {
    pub id: String,
    pub title: String,
    pub status: String,
    pub kind: ToolCallKind,
    /// What the call touches: a path, or the command it runs.
    pub location: Option<String>,
    pub location_is_command: bool,
    pub cwd: Option<String>,
    pub output: Option<ToolCallOutput>,
    pub exit_code: Option<i32>,
    pub content: Vec<ToolCallContent>,
    pub locations: Vec<ToolCallLocation>,
}

/// A tool call, mathematically.
#[verifier::ext_equal]
pub struct ToolCardView {
    pub id: Seq<char>,
    pub title: Seq<char>,
    pub status: Seq<char>,
    pub kind: ToolCallKind,
    pub location: Option<Seq<char>>,
    pub location_is_command: bool,
    pub cwd: Option<Seq<char>>,
    pub output: Option<ToolCallOutput>,
    pub exit_code: Option<i32>,
    pub content: Seq<ToolCallContent>,
    pub locations: Seq<ToolCallLocation>,
}

impl View for ToolCard {
    type V = ToolCardView;

    open spec fn view(&self) -> ToolCardView {
        ToolCardView {
            id: self.id@,
            title: self.title@,
            status: self.status@,
            kind: self.kind,
            location: opt_view(self.location),
            location_is_command: self.location_is_command,
            cwd: opt_view(self.cwd),
            output: self.output,
            exit_code: self.exit_code,
            content: self.content@,
            locations: self.locations@,
        }
    }
}

/// One message of a conversation.
pub enum ChatMessage {
    User(String),
    Agent(String),
    System(Phrase),
    Notice { kind: NoticeKind, text: Phrase },
    ToolCall(ToolCard),
    Plan(Vec<PlanEntry>),
    Error(String),
    AgentEvent(String),
    Disclaimer,
}

/// One message, mathematically.
#[verifier::ext_equal]
pub enum ChatMessageView {
    User(Seq<char>),
    Agent(Seq<char>),
    System(PhraseView),
    Notice { kind: NoticeKind, text: PhraseView },
    ToolCall(ToolCardView),
    Plan(Seq<PlanEntry>),
    Error(Seq<char>),
    AgentEvent(Seq<char>),
    Disclaimer,
}

impl View for ChatMessage {
    type V = ChatMessageView;

    open spec fn view(&self) -> ChatMessageView {
        match self {
            ChatMessage::User(s) => ChatMessageView::User(s@),
            ChatMessage::Agent(s) => ChatMessageView::Agent(s@),
            ChatMessage::System(s) => ChatMessageView::System(s@),
            ChatMessage::Notice { kind, text } => ChatMessageView::Notice { kind: *kind, text: text@ },
            ChatMessage::ToolCall(card) => ChatMessageView::ToolCall(card@),
            ChatMessage::Plan(entries) => ChatMessageView::Plan(entries@),
            ChatMessage::Error(s) => ChatMessageView::Error(s@),
            ChatMessage::AgentEvent(s) => ChatMessageView::AgentEvent(s@),
            ChatMessage::Disclaimer => ChatMessageView::Disclaimer,
        }
    }
}

/// The messages of a vector, mathematically.
pub open spec fn messages_view(v: Seq<ChatMessage>) -> Seq<ChatMessageView> {
    v.map_values(|m: ChatMessage| m@)
}

impl ChatMessage {
    /// A notice that something succeeded.
    pub fn success(text: Phrase) -> (r: ChatMessage)
        ensures
            r == (ChatMessage::Notice { kind: NoticeKind::Success, text }),
    {
        ChatMessage::Notice { kind: NoticeKind::Success, text }
    }

    /// A notice for information.
    pub fn info(text: Phrase) -> (r: ChatMessage)
        ensures
            r == (ChatMessage::Notice { kind: NoticeKind::Info, text }),
    {
        ChatMessage::Notice { kind: NoticeKind::Info, text }
    }

    /// A notice that warns.
    pub fn warning(text: Phrase) -> (r: ChatMessage)
        ensures
            r == (ChatMessage::Notice { kind: NoticeKind::Warning, text }),
    {
        ChatMessage::Notice { kind: NoticeKind::Warning, text }
    }

    /// A notice that something failed.
    pub fn error(text: Phrase) -> (r: ChatMessage)
        ensures
            r == (ChatMessage::Notice { kind: NoticeKind::Error, text }),
    {
        ChatMessage::Notice { kind: NoticeKind::Error, text }
    }
}

/// A turn of the conversation that is over.
pub struct CompletedTurn {
    pub prompt: String,
    pub details: Vec<ChatMessage>,
    pub expanded: bool,
    pub trailing_marker: Option<String>,
}

/// A turn that is over, mathematically.
#[verifier::ext_equal]
pub struct CompletedTurnView {
    pub prompt: Seq<char>,
    pub details: Seq<ChatMessageView>,
    pub expanded: bool,
    pub trailing_marker: Option<Seq<char>>,
}

impl View for CompletedTurn {
    type V = CompletedTurnView;

    open spec fn view(&self) -> CompletedTurnView {
        CompletedTurnView {
            prompt: self.prompt@,
            details: messages_view(self.details@),
            expanded: self.expanded,
            trailing_marker: opt_view(self.trailing_marker),
        }
    }
}

/// The turns of a vector, mathematically.
pub open spec fn turns_view(v: Seq<CompletedTurn>) -> Seq<CompletedTurnView> {
    v.map_values(|t: CompletedTurn| t@)
}

} // verus!
