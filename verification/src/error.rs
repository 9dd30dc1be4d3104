use vstd::prelude::*;

verus! {

/// Everything that can end a tool call or a conversation loop early.
///
/// Errors raised by collaborators (JSON, transport, I/O, ...) are carried as
/// their message text.
#[derive(Debug, PartialEq, Eq)]
pub enum AgentyError {
    /// A requested call's arguments did not parse: the schema, then the raw arguments.
    IncorrectToolCall(String, String),
    /// A requested tool name is not registered.
    NoSuchTool(String),
    /// The model produced output that the running loop does not accept.
    Unexpected(String),
    /// The response matched none of the recognised signals.
    UnexpectedResponseShape,
    STDJSON(String),
    Prompt(String),
    Reqwest(String),
    IO(String),
    WebDriver(String),
    Glob(String),
    SMTPARSE(String),
    Z3EXPR(String),
    Other(String),
}

/// The mathematical value of an [`AgentyError`].
pub enum ErrorView {
    IncorrectToolCall(Seq<char>, Seq<char>),
    NoSuchTool(Seq<char>),
    Unexpected(Seq<char>),
    UnexpectedResponseShape,
    STDJSON(Seq<char>),
    Prompt(Seq<char>),
    Reqwest(Seq<char>),
    IO(Seq<char>),
    WebDriver(Seq<char>),
    Glob(Seq<char>),
    SMTPARSE(Seq<char>),
    Z3EXPR(Seq<char>),
    Other(Seq<char>),
}

impl ErrorView {
    /// The errors a conversation can recover from by asking the model again.
    pub open spec fn recoverable(self) -> bool {
        self is NoSuchTool || self is IncorrectToolCall
    }

    /// The text that describes the error.
    pub open spec fn message(self) -> Seq<char> {
        match self {
            ErrorView::IncorrectToolCall(schema, args) => "incorrect tool call, schema: "@ + schema
                + ", args: "@ + args,
            ErrorView::NoSuchTool(_) => "No such tool"@,
            ErrorView::Unexpected(text) => "unexpected llm response: "@ + text,
            ErrorView::UnexpectedResponseShape => "unexpected llm response shape"@,
            ErrorView::STDJSON(text) => "json error: "@ + text,
            ErrorView::Prompt(text) => "prompt: "@ + text,
            ErrorView::Reqwest(text) => "reqwest: "@ + text,
            ErrorView::IO(text) => "io error: "@ + text,
            ErrorView::WebDriver(text) => "driver: "@ + text,
            ErrorView::Glob(text) => "glob: "@ + text,
            ErrorView::SMTPARSE(text) => "smtlib parse error: "@ + text,
            ErrorView::Z3EXPR(text) => "z3 expression error: "@ + text,
            ErrorView::Other(text) => text,
        }
    }

    /// What the model is told after an error it can recover from.
    pub open spec fn retry_prompt(self) -> Seq<char> {
        match self {
            ErrorView::NoSuchTool(name) => "No such tool: "@ + name + ", will try again"@,
            _ => "Error "@ + self.message() + " during tool call, retry..."@,
        }
    }
}

impl View for AgentyError {
    type V = ErrorView;

    open spec fn view(&self) -> ErrorView {
        match *self {
            AgentyError::IncorrectToolCall(schema, args) => ErrorView::IncorrectToolCall(
                schema@,
                args@,
            ),
            AgentyError::NoSuchTool(name) => ErrorView::NoSuchTool(name@),
            AgentyError::Unexpected(text) => ErrorView::Unexpected(text@),
            AgentyError::UnexpectedResponseShape => ErrorView::UnexpectedResponseShape,
            AgentyError::STDJSON(text) => ErrorView::STDJSON(text@),
            AgentyError::Prompt(text) => ErrorView::Prompt(text@),
            AgentyError::Reqwest(text) => ErrorView::Reqwest(text@),
            AgentyError::IO(text) => ErrorView::IO(text@),
            AgentyError::WebDriver(text) => ErrorView::WebDriver(text@),
            AgentyError::Glob(text) => ErrorView::Glob(text@),
            AgentyError::SMTPARSE(text) => ErrorView::SMTPARSE(text@),
            AgentyError::Z3EXPR(text) => ErrorView::Z3EXPR(text@),
            AgentyError::Other(text) => ErrorView::Other(text@),
        }
    }
}

/// `prefix` followed by `text`.
fn prefixed(prefix: &str, text: &String) -> (r: String)
    ensures
        r@ == prefix@ + text@,
{
    let mut out = String::from_str(prefix);
    out.append(text.as_str());
    out
}

impl AgentyError {
    /// The text that describes the error.
    pub fn message(&self) -> (r: String)
        ensures
            r@ == self@.message(),
    {
        match self {
            AgentyError::IncorrectToolCall(schema, args) => {
                let mut out = prefixed("incorrect tool call, schema: ", schema);
                out.append(", args: ");
                out.append(args.as_str());
                out
            },
            AgentyError::NoSuchTool(_) => String::from_str("No such tool"),
            AgentyError::Unexpected(text) => prefixed("unexpected llm response: ", text),
            AgentyError::UnexpectedResponseShape => String::from_str(
                "unexpected llm response shape",
            ),
            AgentyError::STDJSON(text) => prefixed("json error: ", text),
            AgentyError::Prompt(text) => prefixed("prompt: ", text),
            AgentyError::Reqwest(text) => prefixed("reqwest: ", text),
            AgentyError::IO(text) => prefixed("io error: ", text),
            AgentyError::WebDriver(text) => prefixed("driver: ", text),
            AgentyError::Glob(text) => prefixed("glob: ", text),
            AgentyError::SMTPARSE(text) => prefixed("smtlib parse error: ", text),
            AgentyError::Z3EXPR(text) => prefixed("z3 expression error: ", text),
            AgentyError::Other(text) => text.clone(),
        }
    }

    /// What the model is told after an error it can recover from.
    pub fn retry_prompt(&self) -> (r: String)
        ensures
            r@ == self@.retry_prompt(),
    {
        match self {
            AgentyError::NoSuchTool(name) => {
                let mut out = prefixed("No such tool: ", name);
                out.append(", will try again");
                out
            },
            _ => {
                let mut out = prefixed("Error ", &self.message());
                out.append(" during tool call, retry...");
                out
            },
        }
    }

    /// Whether a loop driver swallows this error and lets the model retry.
    pub fn is_recoverable(&self) -> (r: bool)
        ensures
            r == self@.recoverable(),
    {
        match self {
            AgentyError::NoSuchTool(_) => true,
            AgentyError::IncorrectToolCall(_, _) => true,
            _ => false,
        }
    }
}

/// The value of a tool's outcome: its text, or the error it failed with.
pub open spec fn outcome_view(r: Result<String, AgentyError>) -> Result<Seq<char>, ErrorView> {
    match r {
        Ok(text) => Ok(text@),
        Err(e) => Err(e@),
    }
}

} // verus!
