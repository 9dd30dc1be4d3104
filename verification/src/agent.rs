use crate::error::{outcome_view, AgentyError, ErrorView};
use crate::message::{
    calls_view, clone_calls, messages_view, AssistantContent, Branch, Message, MessageView,
    ResponseChoice, ResponseChoiceView, ToolCall, ToolCallView,
};
use crate::text::{join_lines, joined, texts_view};
use crate::tool::{parse_view, Tool, ToolBox, ToolDescriptor, ToolDescriptorView, ToolDyn};
use core::marker::PhantomData;
use vstd::prelude::*;

verus! {

/// What one step of a conversation loop decided.
#[derive(Debug, Clone, PartialEq, Eq)]
pub enum AgentAction<T = ()> {
    /// Ask the model again.
    Continue,
    /// The model answered with something the loop does not accept.
    Unexpected(String),
    /// The loop is done, with this payload.
    Out(T),
}

/// One conversation: a registry of tools, the system and user prompts that
/// open it, and the messages exchanged since.
pub struct Agent<D: ToolDyn> {
    pub tools: ToolBox<D>,
    pub system: String,
    pub user: String,
    pub context: Vec<Message>,
}

/// What is sent to the model for one turn: the whole conversation and what
/// every registered tool advertises.
#[derive(Debug, PartialEq, Eq)]
pub struct CompletionRequest {
    pub messages: Vec<Message>,
    pub tools: Vec<ToolDescriptor>,
}

/// The system prompt of an agent that is given none.
pub open spec fn default_system_prompt() -> Seq<char> {
    "You are an expert agent that calls tool to complete your task."@
}

/// Dispatching `call` can succeed with `text`: its tool is registered and can
/// answer so.
pub open spec fn succeeds<D: ToolDyn>(
    tools: Map<Seq<char>, D>,
    call: ToolCallView,
    text: Seq<char>,
) -> bool {
    tools.contains_key(call.name) && tools[call.name].may_return(call.arguments, Ok(text))
}

/// Dispatching `call` can fail with `error`: its tool can fail so, or no tool
/// has that name and the error says so.
pub open spec fn fails<D: ToolDyn>(
    tools: Map<Seq<char>, D>,
    call: ToolCallView,
    error: ErrorView,
) -> bool {
    if tools.contains_key(call.name) {
        tools[call.name].may_return(call.arguments, Err(error))
    } else {
        error == ErrorView::NoSuchTool(call.name)
    }
}

/// Dispatching `call` can succeed.
pub open spec fn can_succeed<D: ToolDyn>(tools: Map<Seq<char>, D>, call: ToolCallView) -> bool {
    exists|text: Seq<char>| succeeds(tools, call, text)
}

/// The first `count` calls of the batch can all succeed.
pub open spec fn all_succeed<D: ToolDyn>(
    tools: Map<Seq<char>, D>,
    calls: Seq<ToolCallView>,
    count: int,
) -> bool {
    forall|i: int| 0 <= i < count ==> can_succeed(tools, #[trigger] calls[i])
}

/// What running a batch of calls in order can give: the text of every call
/// where all succeed, and otherwise the error of the first call that fails,
/// all calls before it having succeeded.
pub open spec fn resolves<D: ToolDyn>(
    tools: Map<Seq<char>, D>,
    calls: Seq<ToolCallView>,
    result: Result<Seq<Seq<char>>, ErrorView>,
) -> bool {
    match result {
        Ok(texts) => {
            &&& texts.len() == calls.len()
            &&& forall|i: int|
                0 <= i < calls.len() ==> succeeds(tools, #[trigger] calls[i], texts[i])
        },
        Err(error) => exists|k: int|
            {
                &&& 0 <= k < calls.len()
                &&& #[trigger] fails(tools, calls[k], error)
                &&& all_succeed(tools, calls, k)
            },
    }
}

/// The value of what resolving a batch returned.
pub open spec fn resolution_view(r: Result<Vec<String>, AgentyError>) -> Result<
    Seq<Seq<char>>,
    ErrorView,
> {
    match r {
        Ok(texts) => Ok(texts_view(texts@)),
        Err(e) => Err(e@),
    }
}

/// What answering a batch of calls does to a conversation. The batch is run
/// in order. Where every call succeeds, the texts go back to the model as one
/// user message, a line each. Where a call fails with an error that the
/// conversation can recover from, the model is told so in a user message. Any
/// other error is returned, and the conversation stays as it was.
pub open spec fn answers<D: ToolDyn>(
    before: &Agent<D>,
    calls: Seq<ToolCallView>,
    after: &Agent<D>,
    result: Result<(), ErrorView>,
) -> bool {
    exists|resolution: Result<Seq<Seq<char>>, ErrorView>|
        {
            &&& #[trigger] resolves(before.tools@, calls, resolution)
            &&& match batch_reply(resolution) {
                Ok(reply) => result is Ok && before.appended(MessageView::User(reply), after),
                Err(error) => result == Err::<(), ErrorView>(error) && before.unchanged(after),
            }
        }
}

/// What dispatching the call named `name` comes to, given what the registry
/// answered: no tool of that name is a `NoSuchTool` error, and a tool's
/// outcome stands as it is.
pub open spec fn dispatched(
    name: Seq<char>,
    outcome: Option<Result<Seq<char>, ErrorView>>,
) -> Result<Seq<char>, ErrorView> {
    match outcome {
        None => Err(ErrorView::NoSuchTool(name)),
        Some(outcome) => outcome,
    }
}

/// What the model is told after a batch, given what running the batch came
/// to: the texts, a line each; or, after an error that the conversation can
/// recover from, what went wrong. Any other error is handed on.
pub open spec fn batch_reply(resolution: Result<Seq<Seq<char>>, ErrorView>) -> Result<
    Seq<char>,
    ErrorView,
> {
    match resolution {
        Ok(texts) => Ok(joined(texts, "\n"@)),
        Err(error) => if error.recoverable() {
            Ok(error.retry_prompt())
        } else {
            Err(error)
        },
    }
}

/// Decides what dispatching a call comes to, from what the registry answered.
pub fn settle_dispatch(name: String, outcome: Option<Result<String, AgentyError>>) -> (r: Result<
    String,
    AgentyError,
>)
    ensures
        outcome_view(r) == dispatched(
            name@,
            match outcome {
                Some(o) => Some(outcome_view(o)),
                None => None,
            },
        ),
{
    match outcome {
        None => Err(AgentyError::NoSuchTool(name)),
        Some(outcome) => outcome,
    }
}

/// Decides what the model is told after a batch, from what running the batch
/// came to.
pub fn reply_to_batch(resolution: Result<Vec<String>, AgentyError>) -> (r: Result<
    String,
    AgentyError,
>)
    ensures
        outcome_view(r) == batch_reply(resolution_view(resolution)),
{
    match resolution {
        Ok(texts) => Ok(join_lines(&texts)),
        Err(e) => {
            if e.is_recoverable() {
                Ok(e.retry_prompt())
            } else {
                Err(e)
            }
        },
    }
}

/// The value of a result that carries nothing on success.
pub open spec fn unit_view(r: Result<(), AgentyError>) -> Result<(), ErrorView> {
    match r {
        Ok(_) => Ok(()),
        Err(e) => Err(e@),
    }
}

/// The three continuations of a step, one for each branch a response can
/// fall under. Each sees the conversation with the response already recorded.
///
/// The spec functions say which results a continuation can give from which
/// conversation, and what it can leave behind. A handler that does not define
/// them allows everything.
pub trait StepHandler<D: ToolDyn, T> {
    open spec fn toolcalls_outcome(
        &self,
        before: &Agent<D>,
        calls: Seq<ToolCallView>,
        after: &Agent<D>,
        result: Result<AgentAction<T>, AgentyError>,
    ) -> bool {
        true
    }

    open spec fn message_outcome(
        &self,
        before: &Agent<D>,
        text: Seq<char>,
        after: &Agent<D>,
        result: Result<AgentAction<T>, AgentyError>,
    ) -> bool {
        true
    }

    open spec fn refusal_outcome(
        &self,
        before: &Agent<D>,
        text: Seq<char>,
        after: &Agent<D>,
        result: Result<AgentAction<T>, AgentyError>,
    ) -> bool {
        true
    }

    fn on_toolcalls(&self, agent: &mut Agent<D>, calls: Vec<ToolCall>) -> (r: Result<
        AgentAction<T>,
        AgentyError,
    >)
        ensures
            self.toolcalls_outcome(old(agent), calls_view(calls@), final(agent), r),
    ;

    fn on_message(&self, agent: &mut Agent<D>, text: String) -> (r: Result<
        AgentAction<T>,
        AgentyError,
    >)
        ensures
            self.message_outcome(old(agent), text@, final(agent), r),
    ;

    fn on_refusal(&self, agent: &mut Agent<D>, text: String) -> (r: Result<
        AgentAction<T>,
        AgentyError,
    >)
        ensures
            self.refusal_outcome(old(agent), text@, final(agent), r),
    ;
}

/// What one step can do with a response choice. A choice that falls under no
/// branch is an error and leaves the conversation as it was. Any other choice
/// is first recorded as an assistant message, and then the continuation of
/// its branch decides, on the recorded conversation, what is returned.
pub open spec fn steps<D: ToolDyn, T, H: StepHandler<D, T>>(
    handler: &H,
    before: &Agent<D>,
    choice: ResponseChoiceView,
    after: &Agent<D>,
    result: Result<AgentAction<T>, AgentyError>,
) -> bool {
    match choice.classify() {
        None => {
            &&& result matches Err(e)
            &&& e@ == ErrorView::UnexpectedResponseShape
            &&& before.unchanged(after)
        },
        Some(branch) => exists|recorded: Agent<D>|
            {
                &&& #[trigger] before.appended(choice.record(branch), &recorded)
                &&& match branch {
                    Branch::ToolCalls => handler.toolcalls_outcome(
                        &recorded,
                        choice.calls(),
                        after,
                        result,
                    ),
                    Branch::Refusal => handler.refusal_outcome(
                        &recorded,
                        choice.refusal_text(),
                        after,
                        result,
                    ),
                    Branch::Message => handler.message_outcome(
                        &recorded,
                        choice.content_text(),
                        after,
                        result,
                    ),
                }
            },
    }
}

/// The step answered the batch and, unless that failed, asks the model again.
pub open spec fn answers_and_continues<D: ToolDyn, T>(
    before: &Agent<D>,
    calls: Seq<ToolCallView>,
    after: &Agent<D>,
    result: Result<AgentAction<T>, AgentyError>,
) -> bool {
    match result {
        Ok(AgentAction::Continue) => answers(before, calls, after, Ok(())),
        Ok(_) => false,
        Err(e) => answers(before, calls, after, Err(e@)),
    }
}

/// Call `k` is the first of the batch that names `name`.
pub open spec fn first_call_of(calls: Seq<ToolCallView>, name: Seq<char>, k: int) -> bool {
    &&& 0 <= k < calls.len()
    &&& calls[k].name == name
    &&& forall|j: int| 0 <= j < k ==> (#[trigger] calls[j]).name != name
}

/// No call of the batch names `name`.
pub open spec fn names_none(calls: Seq<ToolCallView>, name: Seq<char>) -> bool {
    forall|j: int| 0 <= j < calls.len() ==> (#[trigger] calls[j]).name != name
}

/// Finds the first call of the batch that names `name`.
pub fn find_call(calls: &Vec<ToolCall>, name: &String) -> (r: Option<usize>)
    ensures
        match r {
            Some(k) => first_call_of(calls_view(calls@), name@, k as int),
            None => names_none(calls_view(calls@), name@),
        },
{
    let mut i: usize = 0;
    while i < calls.len()
        invariant
            i <= calls@.len(),
            forall|j: int| 0 <= j < i ==> (#[trigger] calls_view(calls@)[j]).name != name@,
        decreases calls@.len() - i,
    {
        if calls[i].name == *name {
            return Some(i);
        }
        i += 1;
    }
    None
}

/// The result of taking the target tool's arguments from the raw text of the
/// call that requests it: the parsed arguments as the payload, or a JSON
/// error with the parser's message.
pub open spec fn takes_target<T: Tool>(
    raw: Seq<char>,
    result: Result<AgentAction<T::Arguments>, AgentyError>,
) -> bool {
    exists|parsed: Result<T::Arguments, Seq<char>>| #[trigger]
        T::parses(raw, parsed) && target_taken(parsed, result)
}

/// What taking the target's arguments comes to, given what parsing them gave:
/// the arguments as the payload, or a JSON error with the parser's message.
pub open spec fn target_taken<A>(
    parsed: Result<A, Seq<char>>,
    result: Result<AgentAction<A>, AgentyError>,
) -> bool {
    match parsed {
        Ok(arguments) => result matches Ok(AgentAction::Out(given)) && given == arguments,
        Err(message) => result matches Err(e) && e@ == ErrorView::STDJSON(message),
    }
}

/// Decides what taking the target's arguments comes to, from what parsing
/// them gave.
pub fn take_target<A>(parsed: Result<A, String>) -> (r: Result<AgentAction<A>, AgentyError>)
    ensures
        target_taken(parse_view(parsed), r),
{
    match parsed {
        Ok(arguments) => Ok(AgentAction::Out(arguments)),
        Err(message) => Err(AgentyError::STDJSON(message)),
    }
}

/// What the loop that waits for the tool named `target` does with a batch.
/// Where the batch requests the target, the arguments of the first such call
/// are taken; no tool runs and nothing is appended. Otherwise the batch is
/// answered and the model is asked again.
pub open spec fn seeks<D: ToolDyn, T: Tool>(
    target: Seq<char>,
    before: &Agent<D>,
    calls: Seq<ToolCallView>,
    after: &Agent<D>,
    result: Result<AgentAction<T::Arguments>, AgentyError>,
) -> bool {
    if names_none(calls, target) {
        answers_and_continues(before, calls, after, result)
    } else {
        exists|k: int|
            {
                &&& #[trigger] first_call_of(calls, target, k)
                &&& before.unchanged(after)
                &&& takes_target::<T>(calls[k].arguments, result)
            }
    }
}

/// The continuations of the loop that runs until the model requests the
/// target tool `T`.
pub struct UntilTool<T: Tool> {
    target: PhantomData<T>,
}

impl<T: Tool> UntilTool<T> {
    pub fn new() -> Self {
        UntilTool { target: PhantomData }
    }
}

impl<D: ToolDyn, T: Tool> StepHandler<D, T::Arguments> for UntilTool<T> {
    /// The loop seeks the name that the target advertises.
    open spec fn toolcalls_outcome(
        &self,
        before: &Agent<D>,
        calls: Seq<ToolCallView>,
        after: &Agent<D>,
        result: Result<AgentAction<T::Arguments>, AgentyError>,
    ) -> bool {
        exists|d: ToolDescriptorView| #[trigger]
            T::describes(d) && seeks::<D, T>(d.name, before, calls, after, result)
    }

    /// Free text is not what this loop waits for.
    open spec fn message_outcome(
        &self,
        before: &Agent<D>,
        text: Seq<char>,
        after: &Agent<D>,
        result: Result<AgentAction<T::Arguments>, AgentyError>,
    ) -> bool {
        &&& before.unchanged(after)
        &&& result matches Ok(AgentAction::Unexpected(carried))
        &&& carried@ == text
    }

    /// A refusal is not what this loop waits for.
    open spec fn refusal_outcome(
        &self,
        before: &Agent<D>,
        text: Seq<char>,
        after: &Agent<D>,
        result: Result<AgentAction<T::Arguments>, AgentyError>,
    ) -> bool {
        &&& before.unchanged(after)
        &&& result matches Ok(AgentAction::Unexpected(carried))
        &&& carried@ == text
    }

    fn on_toolcalls(&self, agent: &mut Agent<D>, calls: Vec<ToolCall>) -> (r: Result<
        AgentAction<T::Arguments>,
        AgentyError,
    >) {
        let d = T::descriptor();
        let r = match find_call(&calls, &d.name) {
            Some(k) => {
                let parsed = T::parse(calls[k].arguments.as_str());
                assert(T::parses(calls_view(calls@)[k as int].arguments, parse_view(parsed)));
                take_target(parsed)
            },
            None => {
                match agent.answer_toolcalls(calls) {
                    Ok(_) => Ok(AgentAction::Continue),
                    Err(e) => Err(e),
                }
            },
        };
        assert(T::describes(d@) && seeks::<D, T>(
            d@.name,
            old(agent),
            calls_view(calls@),
            agent,
            r,
        ));
        r
    }

    fn on_message(&self, agent: &mut Agent<D>, text: String) -> (r: Result<
        AgentAction<T::Arguments>,
        AgentyError,
    >) {
        Ok(AgentAction::Unexpected(text))
    }

    fn on_refusal(&self, agent: &mut Agent<D>, text: String) -> (r: Result<
        AgentAction<T::Arguments>,
        AgentyError,
    >) {
        Ok(AgentAction::Unexpected(text))
    }
}

/// The continuations of the loop that runs until the model answers in text.
pub struct UntilText {}

impl<D: ToolDyn> StepHandler<D, String> for UntilText {
    /// The batch is answered and the model is asked again.
    open spec fn toolcalls_outcome(
        &self,
        before: &Agent<D>,
        calls: Seq<ToolCallView>,
        after: &Agent<D>,
        result: Result<AgentAction<String>, AgentyError>,
    ) -> bool {
        answers_and_continues(before, calls, after, result)
    }

    /// The text is what this loop waits for.
    open spec fn message_outcome(
        &self,
        before: &Agent<D>,
        text: Seq<char>,
        after: &Agent<D>,
        result: Result<AgentAction<String>, AgentyError>,
    ) -> bool {
        &&& before.unchanged(after)
        &&& result matches Ok(AgentAction::Out(carried))
        &&& carried@ == text
    }

    open spec fn refusal_outcome(
        &self,
        before: &Agent<D>,
        text: Seq<char>,
        after: &Agent<D>,
        result: Result<AgentAction<String>, AgentyError>,
    ) -> bool {
        &&& before.unchanged(after)
        &&& result matches Ok(AgentAction::Unexpected(carried))
        &&& carried@ == text
    }

    fn on_toolcalls(&self, agent: &mut Agent<D>, calls: Vec<ToolCall>) -> (r: Result<
        AgentAction<String>,
        AgentyError,
    >) {
        match agent.answer_toolcalls(calls) {
            Ok(_) => Ok(AgentAction::Continue),
            Err(e) => Err(e),
        }
    }

    fn on_message(&self, agent: &mut Agent<D>, text: String) -> (r: Result<
        AgentAction<String>,
        AgentyError,
    >) {
        Ok(AgentAction::Out(text))
    }

    fn on_refusal(&self, agent: &mut Agent<D>, text: String) -> (r: Result<
        AgentAction<String>,
        AgentyError,
    >) {
        Ok(AgentAction::Unexpected(text))
    }
}

/// How the loop that waits for a tool goes on after a step: it asks again
/// (`None`), ends with the payload, or fails. Text that the model produced
/// instead ends the loop with an `Unexpected` error that carries the text.
pub open spec fn concludes_until_tool<A>(
    action: Result<AgentAction<A>, AgentyError>,
    result: Result<Option<A>, AgentyError>,
) -> bool {
    match action {
        Ok(AgentAction::Continue) => result matches Ok(None),
        Ok(AgentAction::Out(payload)) => result matches Ok(Some(given)) && given == payload,
        Ok(AgentAction::Unexpected(text)) => result matches Err(e) && e@ == ErrorView::Unexpected(
            text@,
        ),
        Err(error) => result matches Err(e) && e@ == error@,
    }
}

/// How the loop that waits for text goes on after a step: it asks again
/// (`None`), ends with the text, or fails. A refusal ends the loop like an
/// answer does, with the refusal as the text.
pub open spec fn concludes_until_text(
    action: Result<AgentAction<String>, AgentyError>,
    result: Result<Option<String>, AgentyError>,
) -> bool {
    match action {
        Ok(AgentAction::Continue) => result matches Ok(None),
        Ok(AgentAction::Out(text)) => result matches Ok(Some(given)) && given@ == text@,
        Ok(AgentAction::Unexpected(text)) => result matches Ok(Some(given)) && given@ == text@,
        Err(error) => result matches Err(e) && e@ == error@,
    }
}

/// Decides how the loop that waits for a tool goes on after a step.
pub fn conclude_until_tool<A>(action: Result<AgentAction<A>, AgentyError>) -> (r: Result<
    Option<A>,
    AgentyError,
>)
    ensures
        concludes_until_tool(action, r),
{
    match action {
        Ok(AgentAction::Continue) => Ok(None),
        Ok(AgentAction::Out(payload)) => Ok(Some(payload)),
        Ok(AgentAction::Unexpected(text)) => Err(AgentyError::Unexpected(text)),
        Err(error) => Err(error),
    }
}

/// Decides how the loop that waits for text goes on after a step.
pub fn conclude_until_text(action: Result<AgentAction<String>, AgentyError>) -> (r: Result<
    Option<String>,
    AgentyError,
>)
    ensures
        concludes_until_text(action, r),
{
    match action {
        Ok(AgentAction::Continue) => Ok(None),
        Ok(AgentAction::Out(text)) => Ok(Some(text)),
        Ok(AgentAction::Unexpected(text)) => Ok(Some(text)),
        Err(error) => Err(error),
    }
}

/// One turn of the loop that waits for the tool `T`: a step with the
/// continuations of that loop, and what the loop does after it.
pub open spec fn turns_until_tool<D: ToolDyn, T: Tool>(
    before: &Agent<D>,
    choice: ResponseChoiceView,
    after: &Agent<D>,
    result: Result<Option<T::Arguments>, AgentyError>,
) -> bool {
    exists|handler: UntilTool<T>, action: Result<AgentAction<T::Arguments>, AgentyError>|
        {
            &&& #[trigger] steps(&handler, before, choice, after, action)
            &&& concludes_until_tool(action, result)
        }
}

/// One turn of the loop that waits for text: a step with the continuations
/// of that loop, and what the loop does after it.
pub open spec fn turns_until_text<D: ToolDyn>(
    before: &Agent<D>,
    choice: ResponseChoiceView,
    after: &Agent<D>,
    result: Result<Option<String>, AgentyError>,
) -> bool {
    exists|handler: UntilText, action: Result<AgentAction<String>, AgentyError>|
        {
            &&& #[trigger] steps(&handler, before, choice, after, action)
            &&& concludes_until_text(action, result)
        }
}

impl<D: ToolDyn> Agent<D> {
    /// The messages exchanged after the opening prompts.
    pub open spec fn history(&self) -> Seq<MessageView> {
        messages_view(self.context@)
    }

    /// The two messages that open every conversation.
    pub open spec fn preamble(&self) -> Seq<MessageView> {
        seq![MessageView::System(self.system@), MessageView::User(self.user@)]
    }

    /// The conversation as the model sees it.
    pub open spec fn conversation(&self) -> Seq<MessageView> {
        self.preamble() + self.history()
    }

    /// `other` has the tools and the opening prompts of `self`.
    pub open spec fn same_setup(&self, other: &Self) -> bool {
        &&& other.tools@ == self.tools@
        &&& other.system@ == self.system@
        &&& other.user@ == self.user@
    }

    /// `after` is `self` with nothing changed.
    pub open spec fn unchanged(&self, after: &Self) -> bool {
        self.same_setup(after) && after.history() == self.history()
    }

    /// `after` is `self` with `message` appended to the history.
    pub open spec fn appended(&self, message: MessageView, after: &Self) -> bool {
        self.same_setup(after) && after.history() == self.history().push(message)
    }

    pub fn new(tools: ToolBox<D>, system: Option<String>, user: String) -> (r: Self)
        ensures
            r.tools@ == tools@,
            r.system@ == match system {
                Some(text) => text@,
                None => default_system_prompt(),
            },
            r.user@ == user@,
            r.history() == Seq::<MessageView>::empty(),
    {
        let system = match system {
            Some(text) => text,
            None => String::from_str("You are an expert agent that calls tool to complete your task."),
        };
        let r = Agent { tools, system, user, context: Vec::new() };
        assert(r.history() =~= Seq::<MessageView>::empty());
        r
    }

    /// The conversation as the model sees it: the system prompt, the user
    /// prompt, then the history.
    pub fn full_context(&self) -> (r: Vec<Message>)
        ensures
            messages_view(r@) == self.conversation(),
    {
        let mut out: Vec<Message> = Vec::new();
        out.push(Message::System(self.system.clone()));
        out.push(Message::User(self.user.clone()));
        let mut i: usize = 0;
        while i < self.context.len()
            invariant
                i <= self.context@.len(),
                out@.len() == i + 2,
                out@[0]@ == MessageView::System(self.system@),
                out@[1]@ == MessageView::User(self.user@),
                forall|k: int| 0 <= k < i ==> out@[k + 2]@ == self.context@[k]@,
            decreases self.context@.len() - i,
        {
            out.push(self.context[i].clone());
            i += 1;
        }
        assert(messages_view(out@) =~= self.conversation());
        out
    }

    /// Builds the request for the next turn: the whole conversation, and a
    /// descriptor for every registered tool.
    pub fn request(&self) -> (r: CompletionRequest)
        ensures
            messages_view(r.messages@) == self.conversation(),
            r.tools@.len() == self.tools@.dom().len(),
            forall|i: int| 0 <= i < r.tools@.len() ==> self.tools.advertises(#[trigger] r.tools@[i]@),
            forall|name: Seq<char>| #[trigger]
                self.tools@.contains_key(name) ==> exists|i: int|
                    0 <= i < r.tools@.len() && self.tools@[name].advertises(#[trigger] r.tools@[i]@),
    {
        CompletionRequest { messages: self.full_context(), tools: self.tools.openai_objects() }
    }

    /// Runs the requested calls in the order given and collects their texts.
    /// Stops at the first call that names no registered tool or whose tool
    /// fails, and returns that error; the calls after it are not run.
    pub fn handle_toolcalls(&self, toolcalls: Vec<ToolCall>) -> (r: Result<
        Vec<String>,
        AgentyError,
    >)
        ensures
            resolves(self.tools@, calls_view(toolcalls@), resolution_view(r)),
    {
        let ghost calls = calls_view(toolcalls@);
        let mut resps: Vec<String> = Vec::new();
        let mut i: usize = 0;
        while i < toolcalls.len()
            invariant
                i <= toolcalls@.len(),
                calls == calls_view(toolcalls@),
                resps@.len() == i,
                forall|k: int| 0 <= k < i ==> succeeds(self.tools@, #[trigger] calls[k], resps@[k]@),
                all_succeed(self.tools@, calls, i as int),
            decreases toolcalls@.len() - i,
        {
            let call = &toolcalls[i];
            assert(calls[i as int] == call@);
            let outcome = self.tools.invoke(call.name.clone(), call.arguments.clone());
            match settle_dispatch(call.name.clone(), outcome) {
                Ok(v) => {
                    assert(succeeds(self.tools@, calls[i as int], v@));
                    resps.push(v);
                },
                Err(e) => {
                    assert(fails(self.tools@, calls[i as int], e@));
                    return Err(e);
                },
            }
            i += 1;
        }
        assert(texts_view(resps@).len() == calls.len());
        assert forall|k: int| 0 <= k < calls.len() implies succeeds(
            self.tools@,
            #[trigger] calls[k],
            texts_view(resps@)[k],
        ) by {
            assert(texts_view(resps@)[k] == resps@[k]@);
        }
        Ok(resps)
    }

    /// Answers a batch of calls: runs it, and tells the model what came of it.
    pub fn answer_toolcalls(&mut self, toolcalls: Vec<ToolCall>) -> (r: Result<(), AgentyError>)
        ensures
            answers(old(self), calls_view(toolcalls@), final(self), unit_view(r)),
    {
        let resolution = self.handle_toolcalls(toolcalls);
        assert(resolves(self.tools@, calls_view(toolcalls@), resolution_view(resolution)));
        match reply_to_batch(resolution) {
            Ok(reply) => self.append_user(reply),
            Err(e) => Err(e),
        }
    }

    /// Takes one step on the model's response: classifies its first choice,
    /// records it in the history, and hands it to the continuation of its
    /// branch. A choice under no branch is an `UnexpectedResponseShape`
    /// error, and no continuation runs.
    pub fn run_once<T, H: StepHandler<D, T>>(
        &mut self,
        choices: Vec<ResponseChoice>,
        handler: &H,
    ) -> (r: Result<AgentAction<T>, AgentyError>)
        requires
            choices@.len() > 0,
        ensures
            steps(handler, old(self), choices@[0]@, final(self), r),
    {
        let mut choices = choices;
        let choice = choices.swap_remove(0);
        match choice.classify() {
            Some(Branch::ToolCalls) => {
                let calls = match choice.tool_calls {
                    Some(calls) => calls,
                    None => Vec::new(),
                };
                assert(calls_view(calls@) =~= choice@.calls());
                self.append_context(
                    Message::Assistant(AssistantContent::ToolCalls(clone_calls(&calls))),
                );
                let ghost recorded = *self;
                assert(old(self).appended(choice@.record(Branch::ToolCalls), &recorded));
                handler.on_toolcalls(self, calls)
            },
            Some(Branch::Refusal) => {
                let text = match choice.refusal {
                    Some(text) => text,
                    None => String::new(),
                };
                self.append_context(Message::Assistant(AssistantContent::Refusal(text.clone())));
                let ghost recorded = *self;
                assert(old(self).appended(choice@.record(Branch::Refusal), &recorded));
                handler.on_refusal(self, text)
            },
            Some(Branch::Message) => {
                let text = match choice.content {
                    Some(text) => text,
                    None => String::new(),
                };
                self.append_context(Message::Assistant(AssistantContent::Text(text.clone())));
                let ghost recorded = *self;
                assert(old(self).appended(choice@.record(Branch::Message), &recorded));
                handler.on_message(self, text)
            },
            None => Err(AgentyError::UnexpectedResponseShape),
        }
    }

    /// Takes one turn of the loop that runs until the model requests the tool
    /// `T`, on the model's response. `Ok(None)` asks for another turn on the
    /// conversation as it now is; `Ok(Some(arguments))` ends the loop with the
    /// arguments that the model gave for `T`, which is not run. Text or a
    /// refusal ends it with an `Unexpected` error that carries the text.
    pub fn run_until_tool<T: Tool>(&mut self, choices: Vec<ResponseChoice>) -> (r: Result<
        Option<T::Arguments>,
        AgentyError,
    >)
        requires
            choices@.len() > 0,
        ensures
            turns_until_tool::<D, T>(old(self), choices@[0]@, final(self), r),
    {
        let handler = UntilTool::<T>::new();
        let action = self.run_once(choices, &handler);
        let r = conclude_until_tool(action);
        assert(steps(&handler, old(self), choices@[0]@, self, action));
        r
    }

    /// Takes one turn of the loop that runs until the model answers in text,
    /// on the model's response. `Ok(None)` asks for another turn on the
    /// conversation as it now is; `Ok(Some(text))` ends the loop with the
    /// model's text, or with its refusal.
    pub fn run_until_text(&mut self, choices: Vec<ResponseChoice>) -> (r: Result<
        Option<String>,
        AgentyError,
    >)
        requires
            choices@.len() > 0,
        ensures
            turns_until_text(old(self), choices@[0]@, final(self), r),
    {
        let handler = UntilText {  };
        let action = self.run_once(choices, &handler);
        let r = conclude_until_text(action);
        assert(steps(&handler, old(self), choices@[0]@, self, action));
        r
    }

    /// Appends a user message to the history.
    pub fn append_user(&mut self, ctx: String) -> (r: Result<(), AgentyError>)
        ensures
            r is Ok,
            old(self).appended(MessageView::User(ctx@), final(self)),
    {
        self.append_context(Message::User(ctx));
        Ok(())
    }

    /// Appends a message to the history.
    pub fn append_context(&mut self, ctx: Message)
        ensures
            old(self).appended(ctx@, final(self)),
    {
        self.context.push(ctx);
        assert(self.history() =~= old(self).history().push(ctx@));
    }

    /// Takes the newest message off the history; does nothing where the
    /// history is empty. The opening prompts stay as they are.
    pub fn revert_context(&mut self)
        ensures
            old(self).same_setup(final(self)),
            final(self).preamble() == old(self).preamble(),
            old(self).history().len() == 0 ==> final(self).history() == old(self).history(),
            old(self).history().len() > 0 ==> final(self).history() == old(self).history().drop_last(),
    {
        self.context.pop();
        assert(old(self).history().len() > 0 ==> self.history() =~= old(self).history().drop_last());
        assert(old(self).history().len() == 0 ==> self.history() =~= old(self).history());
    }
}

} // verus!
