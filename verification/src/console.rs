//! Console messages of a script, and the request that a script answers.

use vstd::prelude::*;

verus! {

/// The kind of a console message.
#[derive(Debug, Clone, Copy, PartialEq, Eq, Structural)]
pub enum MessageType {
    Debug,
    Error,
    Info,
    Log,
    Warn,
    Trace,
    Stdout,
    Stderr,
}

/// One fragment of a console message.
#[derive(Debug, Clone)]
pub enum MsgFrag {
    /// A top-level string argument
    Log(String),
    ClassName(String),
    ObjectStart,
    ErrorTrace(String),
    ObjectEnd,
    ArrayStart,
    ArrayEnd,
    ObjectMapsTo,
    ListSep,
    Truncated,
    Undefined,
    Null,
    Bool(bool),
    /// A number, as the bits of its 64-bit IEEE 754 form.
    Number(u64),
    String(String),
    Symbol(String),
    KeyString(String),
    KeySymbol(String),
    Circular,
    Function(String),
    Unknown,
    ArgSep,
}

/// What a `MsgFrag` holds.
pub enum MsgFragView {
    Log(Seq<char>),
    ClassName(Seq<char>),
    ObjectStart,
    ErrorTrace(Seq<char>),
    ObjectEnd,
    ArrayStart,
    ArrayEnd,
    ObjectMapsTo,
    ListSep,
    Truncated,
    Undefined,
    Null,
    Bool(bool),
    Number(u64),
    String(Seq<char>),
    Symbol(Seq<char>),
    KeyString(Seq<char>),
    KeySymbol(Seq<char>),
    Circular,
    Function(Seq<char>),
    Unknown,
    ArgSep,
}

impl View for MsgFrag {
    type V = MsgFragView;

    open spec fn view(&self) -> MsgFragView {
        match self {
            MsgFrag::Log(s) => MsgFragView::Log(s@),
            MsgFrag::ClassName(s) => MsgFragView::ClassName(s@),
            MsgFrag::ObjectStart => MsgFragView::ObjectStart,
            MsgFrag::ErrorTrace(s) => MsgFragView::ErrorTrace(s@),
            MsgFrag::ObjectEnd => MsgFragView::ObjectEnd,
            MsgFrag::ArrayStart => MsgFragView::ArrayStart,
            MsgFrag::ArrayEnd => MsgFragView::ArrayEnd,
            MsgFrag::ObjectMapsTo => MsgFragView::ObjectMapsTo,
            MsgFrag::ListSep => MsgFragView::ListSep,
            MsgFrag::Truncated => MsgFragView::Truncated,
            MsgFrag::Undefined => MsgFragView::Undefined,
            MsgFrag::Null => MsgFragView::Null,
            MsgFrag::Bool(b) => MsgFragView::Bool(*b),
            MsgFrag::Number(n) => MsgFragView::Number(*n),
            MsgFrag::String(s) => MsgFragView::String(s@),
            MsgFrag::Symbol(s) => MsgFragView::Symbol(s@),
            MsgFrag::KeyString(s) => MsgFragView::KeyString(s@),
            MsgFrag::KeySymbol(s) => MsgFragView::KeySymbol(s@),
            MsgFrag::Circular => MsgFragView::Circular,
            MsgFrag::Function(s) => MsgFragView::Function(s@),
            MsgFrag::Unknown => MsgFragView::Unknown,
            MsgFrag::ArgSep => MsgFragView::ArgSep,
        }
    }
}

/// A message that a script wrote to its console, or that the host wrote on
/// its behalf.
#[derive(Debug, Clone)]
pub struct ConsoleMessage {
    pub msg_type: MessageType,
    pub message: Vec<MsgFrag>,
}

/// What a `ConsoleMessage` holds.
pub struct ConsoleMessageView {
    pub msg_type: MessageType,
    pub message: Seq<MsgFragView>,
}

impl View for ConsoleMessage {
    type V = ConsoleMessageView;

    open spec fn view(&self) -> ConsoleMessageView {
        ConsoleMessageView {
            msg_type: self.msg_type,
            message: Seq::new(self.message@.len(), |i: int| self.message@[i]@),
        }
    }
}

impl ConsoleMessage {
    /// A message of one fragment, which holds `text` as a top-level string.
    pub fn text(msg_type: MessageType, text: String) -> (msg: ConsoleMessage)
        ensures
            msg@ == text_message(msg_type, text@),
    {
        let mut message = Vec::new();
        message.push(MsgFrag::Log(text));
        let msg = ConsoleMessage { msg_type, message };
        assert(msg@.message =~= seq![MsgFragView::Log(text@)]);
        msg
    }
}

/// The message of one fragment that holds `text` as a top-level string.
pub open spec fn text_message(msg_type: MessageType, text: Seq<char>) -> ConsoleMessageView {
    ConsoleMessageView { msg_type, message: seq![MsgFragView::Log(text)] }
}

/// What a script is asked for: a source, or one item of a source.
#[derive(Debug, Clone)]
pub enum AofRequest {
    Source { path: String },
    SourceItem { path: String },
}

/// What an `AofRequest` holds.
pub enum AofRequestView {
    Source { path: Seq<char> },
    SourceItem { path: Seq<char> },
}

impl View for AofRequest {
    type V = AofRequestView;

    open spec fn view(&self) -> AofRequestView {
        match self {
            AofRequest::Source { path } => AofRequestView::Source { path: path@ },
            AofRequest::SourceItem { path } => AofRequestView::SourceItem { path: path@ },
        }
    }
}

impl AofRequest {
    /// The value of the field `type` by which a script tells the two kinds of
    /// request apart.
    pub fn kind_name(&self) -> (name: &'static str)
        ensures
            name@ == match self {
                AofRequest::Source { .. } => "source"@,
                AofRequest::SourceItem { .. } => "source-item"@,
            },
    {
        match self {
            AofRequest::Source { .. } => "source",
            AofRequest::SourceItem { .. } => "source-item",
        }
    }
}

/// This execution context does not impose any restrictions on script execution.
pub struct UnrestrictedContext;

impl UnrestrictedContext {
    /// The request that a script run without restrictions sees: the source at
    /// the empty path.
    pub fn get_aof_request(&self) -> (req: AofRequest)
        ensures
            req@ == (AofRequestView::Source { path: Seq::<char>::empty() }),
    {
        AofRequest::Source { path: String::new() }
    }
}

} // verus!
