//! The one shape in which every call ends: text on success, a classified
//! error on failure.

use vstd::prelude::*;

verus! {

/// The JSON-RPC code of a request that could not be parsed.
pub const PARSE_ERROR: i32 = -32700;

/// The JSON-RPC code of a request whose parameters are not in order.
pub const INVALID_PARAMS: i32 = -32602;

/// The JSON-RPC code of a failure while the request was served.
pub const INTERNAL_ERROR: i32 = -32603;

/// Why a call failed.
#[derive(Clone, Copy, Debug, PartialEq, Eq, Structural)]
pub enum ErrorKind {
    /// The arguments could not be decoded; no handler ran.
    DecodeError,
    /// The endpoint cannot be used.
    ConfigError,
    /// An address, a name or a slot could not be made out.
    ResolutionError,
    /// The provider was asked and failed.
    ProviderError,
    /// No tool has the name that was called.
    UnknownTool,
}

/// A failure: its kind, a machine-readable code, a message for people and,
/// where there is one, what the collaborator said.
#[derive(Clone, Debug, PartialEq, Eq)]
pub struct ToolError {
    pub kind: ErrorKind,
    pub code: i32,
    pub message: String,
    pub data: Option<String>,
}

/// What a `ToolError` denotes.
pub ghost struct ToolErrorView {
    pub kind: ErrorKind,
    pub code: i32,
    pub message: Seq<char>,
    pub data: Option<Seq<char>>,
}

impl View for ToolError {
    type V = ToolErrorView;

    open spec fn view(&self) -> ToolErrorView {
        ToolErrorView {
            kind: self.kind,
            code: self.code,
            message: self.message@,
            data: match self.data {
                Some(d) => Some(d@),
                None => None,
            },
        }
    }
}

/// The result of one call.
#[derive(Clone, Debug, PartialEq, Eq)]
pub enum ResultEnvelope {
    Success(Vec<String>),
    Failure(ToolError),
}

/// What a `ResultEnvelope` denotes.
pub ghost enum EnvelopeView {
    Success(Seq<Seq<char>>),
    Failure(ToolErrorView),
}

impl View for ResultEnvelope {
    type V = EnvelopeView;

    open spec fn view(&self) -> EnvelopeView {
        match self {
            ResultEnvelope::Success(texts) => EnvelopeView::Success(texts.deep_view()),
            ResultEnvelope::Failure(error) => EnvelopeView::Failure(error@),
        }
    }
}

/// The failure of the given kind and code, with `message` and no more.
pub open spec fn failure_of(kind: ErrorKind, code: i32, message: Seq<char>) -> EnvelopeView {
    EnvelopeView::Failure(ToolErrorView { kind, code, message, data: None })
}

/// The failure of the given kind and code, with `message` and what the
/// collaborator said.
pub open spec fn failure_with(
    kind: ErrorKind,
    code: i32,
    message: Seq<char>,
    data: Seq<char>,
) -> EnvelopeView {
    EnvelopeView::Failure(ToolErrorView { kind, code, message, data: Some(data) })
}

/// The success that carries the one text `text`.
pub open spec fn success_of(text: Seq<char>) -> EnvelopeView {
    EnvelopeView::Success(seq![text])
}

impl ResultEnvelope {
    /// The success that carries one text.
    pub fn text(text: String) -> (r: ResultEnvelope)
        ensures
            r@ == success_of(text@),
    {
        let mut texts: Vec<String> = Vec::new();
        texts.push(text);
        assert(texts.deep_view() =~= seq![text@]);
        ResultEnvelope::Success(texts)
    }

    /// A failure without collaborator data.
    pub fn failure(kind: ErrorKind, code: i32, message: &str) -> (r: ResultEnvelope)
        ensures
            r@ == failure_of(kind, code, message@),
    {
        ResultEnvelope::Failure(
            ToolError { kind, code, message: message.to_owned(), data: None },
        )
    }

    /// A failure that carries what the collaborator said.
    pub fn failure_with(kind: ErrorKind, code: i32, message: &str, data: String) -> (r:
        ResultEnvelope)
        ensures
            r@ == failure_with(kind, code, message@, data@),
    {
        ResultEnvelope::Failure(
            ToolError { kind, code, message: message.to_owned(), data: Some(data) },
        )
    }

    /// Whether the call succeeded.
    pub fn is_success(&self) -> (r: bool)
        ensures
            r == (self@ is Success),
    {
        match self {
            ResultEnvelope::Success(_) => true,
            ResultEnvelope::Failure(_) => false,
        }
    }
}

} // verus!
