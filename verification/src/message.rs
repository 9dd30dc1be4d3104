use vstd::prelude::*;

verus! {

/// A tool invocation requested by the model.
#[derive(Debug, PartialEq, Eq)]
pub struct ToolCall {
    pub id: String,
    pub name: String,
    /// The arguments as untyped JSON text.
    pub arguments: String,
}

pub struct ToolCallView {
    pub id: Seq<char>,
    pub name: Seq<char>,
    pub arguments: Seq<char>,
}

impl View for ToolCall {
    type V = ToolCallView;

    open spec fn view(&self) -> ToolCallView {
        ToolCallView { id: self.id@, name: self.name@, arguments: self.arguments@ }
    }
}

impl Clone for ToolCall {
    fn clone(&self) -> (r: Self)
        ensures
            r@ == self@,
    {
        ToolCall {
            id: self.id.clone(),
            name: self.name.clone(),
            arguments: self.arguments.clone(),
        }
    }
}

/// The values of a batch of tool calls, in order.
pub open spec fn calls_view(calls: Seq<ToolCall>) -> Seq<ToolCallView> {
    Seq::new(calls.len(), |i: int| calls[i]@)
}

/// Copies a batch of tool calls.
pub fn clone_calls(calls: &Vec<ToolCall>) -> (r: Vec<ToolCall>)
    ensures
        calls_view(r@) == calls_view(calls@),
{
    let mut out: Vec<ToolCall> = Vec::new();
    let mut i: usize = 0;
    while i < calls.len()
        invariant
            i <= calls@.len(),
            out@.len() == i,
            forall|k: int| 0 <= k < i ==> out@[k]@ == calls@[k]@,
        decreases calls@.len() - i,
    {
        out.push(calls[i].clone());
        i += 1;
    }
    assert(calls_view(out@) =~= calls_view(calls@));
    out
}

/// What an assistant message carries.
#[derive(Debug, PartialEq, Eq)]
pub enum AssistantContent {
    Text(String),
    ToolCalls(Vec<ToolCall>),
    Refusal(String),
}

/// One message of a conversation.
#[derive(Debug, PartialEq, Eq)]
pub enum Message {
    System(String),
    User(String),
    Assistant(AssistantContent),
    /// The result of a tool call: the text, then the id of the call it answers.
    Tool(String, String),
}

pub enum MessageView {
    System(Seq<char>),
    User(Seq<char>),
    AssistantText(Seq<char>),
    AssistantToolCalls(Seq<ToolCallView>),
    AssistantRefusal(Seq<char>),
    Tool(Seq<char>, Seq<char>),
}

impl View for Message {
    type V = MessageView;

    open spec fn view(&self) -> MessageView {
        match *self {
            Message::System(text) => MessageView::System(text@),
            Message::User(text) => MessageView::User(text@),
            Message::Assistant(AssistantContent::Text(text)) => MessageView::AssistantText(text@),
            Message::Assistant(AssistantContent::ToolCalls(calls)) => {
                MessageView::AssistantToolCalls(calls_view(calls@))
            },
            Message::Assistant(AssistantContent::Refusal(text)) => MessageView::AssistantRefusal(
                text@,
            ),
            Message::Tool(text, id) => MessageView::Tool(text@, id@),
        }
    }
}

impl Clone for Message {
    fn clone(&self) -> (r: Self)
        ensures
            r@ == self@,
    {
        match self {
            Message::System(text) => Message::System(text.clone()),
            Message::User(text) => Message::User(text.clone()),
            Message::Assistant(AssistantContent::Text(text)) => Message::Assistant(
                AssistantContent::Text(text.clone()),
            ),
            Message::Assistant(AssistantContent::ToolCalls(calls)) => Message::Assistant(
                AssistantContent::ToolCalls(clone_calls(calls)),
            ),
            Message::Assistant(AssistantContent::Refusal(text)) => Message::Assistant(
                AssistantContent::Refusal(text.clone()),
            ),
            Message::Tool(text, id) => Message::Tool(text.clone(), id.clone()),
        }
    }
}

impl MessageView {
    /// The message is an assistant message that requests a call with this id.
    pub open spec fn requests(self, id: Seq<char>) -> bool {
        self matches MessageView::AssistantToolCalls(calls) && exists|k: int|
            0 <= k < calls.len() && (#[trigger] calls[k]).id == id
    }
}

/// The call with this id is requested by one of the first `count` messages.
pub open spec fn requested_within(history: Seq<MessageView>, count: int, id: Seq<char>) -> bool {
    exists|j: int| 0 <= j < count && j < history.len() && (#[trigger] history[j]).requests(id)
}

/// Every tool result of the run answers a call that an assistant message
/// before it requested.
pub open spec fn results_follow_calls(history: Seq<MessageView>) -> bool {
    forall|i: int|
        0 <= i < history.len() && (#[trigger] history[i]) is Tool ==> requested_within(
            history,
            i,
            history[i]->Tool_1,
        )
}

/// The values of a run of messages, in order.
pub open spec fn messages_view(messages: Seq<Message>) -> Seq<MessageView> {
    Seq::new(messages.len(), |i: int| messages[i]@)
}

/// Why the model stopped generating.
#[derive(Debug, Clone, Copy, PartialEq, Eq, Structural)]
pub enum FinishReason {
    Stop,
    Length,
    ToolCalls,
    ContentFilter,
    /// Any other signal, or none.
    Other,
}

/// One choice of a completion response.
#[derive(Debug, PartialEq, Eq)]
pub struct ResponseChoice {
    pub finish_reason: FinishReason,
    pub content: Option<String>,
    pub refusal: Option<String>,
    pub tool_calls: Option<Vec<ToolCall>>,
}

pub struct ResponseChoiceView {
    pub finish_reason: FinishReason,
    pub content: Option<Seq<char>>,
    pub refusal: Option<Seq<char>>,
    pub tool_calls: Option<Seq<ToolCallView>>,
}

/// The value of an optional text.
pub open spec fn text_view(text: Option<String>) -> Option<Seq<char>> {
    match text {
        Some(t) => Some(t@),
        None => None,
    }
}

impl View for ResponseChoice {
    type V = ResponseChoiceView;

    open spec fn view(&self) -> ResponseChoiceView {
        ResponseChoiceView {
            finish_reason: self.finish_reason,
            content: text_view(self.content),
            refusal: text_view(self.refusal),
            tool_calls: match self.tool_calls {
                Some(calls) => Some(calls_view(calls@)),
                None => None,
            },
        }
    }
}

/// The kind of answer a response choice is taken for.
#[derive(Debug, Clone, Copy, PartialEq, Eq, Structural)]
pub enum Branch {
    ToolCalls,
    Refusal,
    Message,
}

impl ResponseChoiceView {
    /// The choice asks for tools: by its finish reason, or by a call it lists.
    pub open spec fn asks_for_tools(self) -> bool {
        self.finish_reason == FinishReason::ToolCalls || (self.tool_calls matches Some(calls)
            && calls.len() > 0)
    }

    /// The choice refuses: by its finish reason, or by carrying a refusal.
    pub open spec fn refuses(self) -> bool {
        self.finish_reason == FinishReason::ContentFilter || self.refusal is Some
    }

    /// The choice answers in text: by its finish reason, or by carrying content.
    pub open spec fn answers(self) -> bool {
        self.finish_reason == FinishReason::Stop || self.finish_reason == FinishReason::Length
            || self.content is Some
    }

    /// The branch the choice falls under: tool calls before refusal before
    /// message, and none where no signal is present.
    pub open spec fn classify(self) -> Option<Branch> {
        if self.asks_for_tools() {
            Some(Branch::ToolCalls)
        } else if self.refuses() {
            Some(Branch::Refusal)
        } else if self.answers() {
            Some(Branch::Message)
        } else {
            None
        }
    }

    /// The tool calls the choice lists, none where the field is absent.
    pub open spec fn calls(self) -> Seq<ToolCallView> {
        match self.tool_calls {
            Some(calls) => calls,
            None => Seq::empty(),
        }
    }

    /// The refusal text, empty where the field is absent.
    pub open spec fn refusal_text(self) -> Seq<char> {
        match self.refusal {
            Some(text) => text,
            None => Seq::empty(),
        }
    }

    /// The content text, empty where the field is absent.
    pub open spec fn content_text(self) -> Seq<char> {
        match self.content {
            Some(text) => text,
            None => Seq::empty(),
        }
    }

    /// The assistant message that records the choice under `branch`.
    pub open spec fn record(self, branch: Branch) -> MessageView {
        match branch {
            Branch::ToolCalls => MessageView::AssistantToolCalls(self.calls()),
            Branch::Refusal => MessageView::AssistantRefusal(self.refusal_text()),
            Branch::Message => MessageView::AssistantText(self.content_text()),
        }
    }
}

impl ResponseChoice {
    /// Classifies the choice.
    pub fn classify(&self) -> (r: Option<Branch>)
        ensures
            r == self@.classify(),
    {
        let lists_calls = match &self.tool_calls {
            Some(calls) => calls.len() > 0,
            None => false,
        };
        if self.finish_reason == FinishReason::ToolCalls || lists_calls {
            Some(Branch::ToolCalls)
        } else if self.finish_reason == FinishReason::ContentFilter || self.refusal.is_some() {
            Some(Branch::Refusal)
        } else if self.finish_reason == FinishReason::Stop || self.finish_reason
            == FinishReason::Length || self.content.is_some() {
            Some(Branch::Message)
        } else {
            None
        }
    }
}

/// A choice that lists a tool call and carries content is taken for tool
/// calls: the content does not matter.
pub proof fn lemma_tool_calls_take_precedence(choice: ResponseChoiceView)
    requires
        choice.tool_calls is Some,
        choice.tool_calls->0.len() > 0,
    ensures
        choice.classify() == Some(Branch::ToolCalls),
{
}

/// A choice is left unclassified exactly when its finish reason is none of
/// stop, length, tool calls and content filter, and it carries no content, no
/// refusal and no tool call.
pub proof fn lemma_unclassified(choice: ResponseChoiceView)
    ensures
        choice.classify() is None <==> {
            &&& choice.finish_reason == FinishReason::Other
            &&& choice.content is None
            &&& choice.refusal is None
            &&& choice.calls().len() == 0
        },
{
}

} // verus!
