use std::cell::{Cell, RefCell};
use std::rc::Rc;

use agenty::agent::{Agent, AgentAction, StepHandler, UntilText};
use agenty::error::AgentyError;
use agenty::message::{
    AssistantContent, Branch, FinishReason, Message, ResponseChoice, ToolCall,
};
use agenty::tool::{Tool, ToolBox, ToolDescriptor, ToolDyn};

const ECHO_SCHEMA: &str = "{\"type\":\"object\",\"properties\":{\"msg\":{\"type\":\"string\"}}}";

#[derive(Debug, PartialEq)]
struct EchoArgs {
    msg: String,
}

/// Repeats its message, and keeps what it was invoked with.
struct Echo {
    seen: Rc<RefCell<Vec<String>>>,
}

impl Tool for Echo {
    type Arguments = EchoArgs;

    fn descriptor() -> ToolDescriptor {
        ToolDescriptor {
            name: "echo".to_string(),
            description: Some("Repeats the message".to_string()),
            parameters: ECHO_SCHEMA.to_string(),
            strict: false,
        }
    }

    fn parse(raw: &str) -> Result<EchoArgs, String> {
        let value: serde_json::Value = serde_json::from_str(raw).map_err(|e| e.to_string())?;
        match value.get("msg").and_then(|m| m.as_str()) {
            Some(msg) => Ok(EchoArgs { msg: msg.to_string() }),
            None => Err("missing field `msg`".to_string()),
        }
    }

    fn invoke(&self, arguments: EchoArgs) -> Result<String, AgentyError> {
        self.seen.borrow_mut().push(arguments.msg.clone());
        Ok(arguments.msg)
    }
}

/// Answers with a fixed outcome and counts its calls.
struct Fixed {
    name: String,
    outcome: Result<String, String>,
    calls: Rc<Cell<usize>>,
}

impl ToolDyn for Fixed {
    fn name(&self) -> String {
        self.name.clone()
    }

    fn to_openai_obejct(&self) -> ToolDescriptor {
        ToolDescriptor {
            name: self.name.clone(),
            description: None,
            parameters: "{}".to_string(),
            strict: true,
        }
    }

    fn call(&self, _arguments: String) -> Result<String, AgentyError> {
        self.calls.set(self.calls.get() + 1);
        match &self.outcome {
            Ok(text) => Ok(text.clone()),
            Err(text) => Err(AgentyError::Other(text.clone())),
        }
    }
}

/// Any tool, behind one type.
struct AnyTool(Box<dyn ToolDyn>);

impl ToolDyn for AnyTool {
    fn name(&self) -> String {
        self.0.name()
    }

    fn to_openai_obejct(&self) -> ToolDescriptor {
        self.0.to_openai_obejct()
    }

    fn call(&self, arguments: String) -> Result<String, AgentyError> {
        self.0.call(arguments)
    }
}

fn fixed(name: &str, outcome: Result<&str, &str>) -> (AnyTool, Rc<Cell<usize>>) {
    let calls = Rc::new(Cell::new(0));
    let tool = Fixed {
        name: name.to_string(),
        outcome: outcome.map(|t| t.to_string()).map_err(|t| t.to_string()),
        calls: calls.clone(),
    };
    (AnyTool(Box::new(tool)), calls)
}

fn echo() -> (AnyTool, Rc<RefCell<Vec<String>>>) {
    let seen = Rc::new(RefCell::new(Vec::new()));
    (AnyTool(Box::new(Echo { seen: seen.clone() })), seen)
}

fn call(id: &str, name: &str, arguments: &str) -> ToolCall {
    ToolCall { id: id.to_string(), name: name.to_string(), arguments: arguments.to_string() }
}

fn choice(
    finish_reason: FinishReason,
    content: Option<&str>,
    refusal: Option<&str>,
    tool_calls: Option<Vec<ToolCall>>,
) -> ResponseChoice {
    ResponseChoice {
        finish_reason,
        content: content.map(|t| t.to_string()),
        refusal: refusal.map(|t| t.to_string()),
        tool_calls,
    }
}

fn agent_with(tools: Vec<AnyTool>) -> Agent<AnyTool> {
    let mut registry = ToolBox::new();
    for tool in tools {
        registry.add_dyn_tool(tool);
    }
    Agent::new(registry, Some("be brief".to_string()), "what is six times seven".to_string())
}

#[test]
fn new_without_system_prompt_uses_the_default() {
    let agent: Agent<AnyTool> = Agent::new(ToolBox::new(), None, "hello".to_string());
    assert_eq!(agent.system, "You are an expert agent that calls tool to complete your task.");
    assert_eq!(agent.user, "hello");
    assert!(agent.context.is_empty());
}

#[test]
fn full_context_is_preamble_then_history() {
    let mut agent = agent_with(vec![]);
    agent.append_user("first".to_string()).unwrap();
    agent.append_context(Message::Tool("result".to_string(), "call-1".to_string()));
    assert_eq!(
        agent.full_context(),
        vec![
            Message::System("be brief".to_string()),
            Message::User("what is six times seven".to_string()),
            Message::User("first".to_string()),
            Message::Tool("result".to_string(), "call-1".to_string()),
        ]
    );
}

#[test]
fn tool_calls_take_precedence_over_content() {
    let c = choice(FinishReason::Stop, Some("some text"), None, Some(vec![call("1", "echo", "{}")]));
    assert_eq!(c.classify(), Some(Branch::ToolCalls));
}

#[test]
fn classification_follows_the_order_of_signals() {
    let by_reason = choice(FinishReason::ToolCalls, Some("t"), Some("r"), None);
    assert_eq!(by_reason.classify(), Some(Branch::ToolCalls));
    let empty_list = choice(FinishReason::Stop, Some("t"), None, Some(vec![]));
    assert_eq!(empty_list.classify(), Some(Branch::Message));
    let refusal_wins = choice(FinishReason::Stop, Some("t"), Some("r"), None);
    assert_eq!(refusal_wins.classify(), Some(Branch::Refusal));
    let filtered = choice(FinishReason::ContentFilter, Some("t"), None, None);
    assert_eq!(filtered.classify(), Some(Branch::Refusal));
    let length = choice(FinishReason::Length, None, None, None);
    assert_eq!(length.classify(), Some(Branch::Message));
    let content_only = choice(FinishReason::Other, Some("t"), None, None);
    assert_eq!(content_only.classify(), Some(Branch::Message));
    let nothing = choice(FinishReason::Other, None, None, Some(vec![]));
    assert_eq!(nothing.classify(), None);
}

#[test]
fn response_without_signal_is_fatal() {
    let mut agent = agent_with(vec![]);
    let nothing = || vec![choice(FinishReason::Other, None, None, None)];
    assert_eq!(agent.run_until_text(nothing()), Err(AgentyError::UnexpectedResponseShape));
    assert_eq!(agent.run_until_tool::<Echo>(nothing()), Err(AgentyError::UnexpectedResponseShape));
    let action: Result<AgentAction<String>, AgentyError> = agent.run_once(nothing(), &UntilText {});
    assert_eq!(action, Err(AgentyError::UnexpectedResponseShape));
    assert!(agent.context.is_empty());
}

#[test]
fn revert_context_removes_exactly_one_message() {
    let mut agent = agent_with(vec![]);
    agent.revert_context();
    assert!(agent.context.is_empty());
    assert_eq!(agent.full_context().len(), 2);
    agent.append_user("one".to_string()).unwrap();
    agent.append_user("two".to_string()).unwrap();
    agent.append_user("three".to_string()).unwrap();
    agent.revert_context();
    assert_eq!(
        agent.context,
        vec![Message::User("one".to_string()), Message::User("two".to_string())]
    );
    agent.revert_context();
    agent.revert_context();
    agent.revert_context();
    assert!(agent.context.is_empty());
    assert_eq!(
        agent.full_context(),
        vec![
            Message::System("be brief".to_string()),
            Message::User("what is six times seven".to_string()),
        ]
    );
}

#[test]
fn batch_stops_at_the_first_failure() {
    let (first, first_calls) = fixed("first", Ok("one"));
    let (second, second_calls) = fixed("second", Err("boom"));
    let (third, third_calls) = fixed("third", Ok("three"));
    let agent = agent_with(vec![first, second, third]);
    let batch = vec![call("1", "first", "{}"), call("2", "second", "{}"), call("3", "third", "{}")];
    assert_eq!(agent.handle_toolcalls(batch), Err(AgentyError::Other("boom".to_string())));
    assert_eq!(first_calls.get(), 1);
    assert_eq!(second_calls.get(), 1);
    assert_eq!(third_calls.get(), 0);
}

#[test]
fn batch_stops_at_an_unknown_tool() {
    let (first, first_calls) = fixed("first", Ok("one"));
    let (third, third_calls) = fixed("third", Ok("three"));
    let agent = agent_with(vec![first, third]);
    let batch = vec![call("1", "first", "{}"), call("2", "second", "{}"), call("3", "third", "{}")];
    assert_eq!(agent.handle_toolcalls(batch), Err(AgentyError::NoSuchTool("second".to_string())));
    assert_eq!(first_calls.get(), 1);
    assert_eq!(third_calls.get(), 0);
}

#[test]
fn batch_collects_results_in_order() {
    let (a, _) = fixed("a", Ok("alpha"));
    let (b, _) = fixed("b", Ok("beta"));
    let agent = agent_with(vec![a, b]);
    let batch = vec![call("1", "b", "{}"), call("2", "a", "{}"), call("3", "b", "{}")];
    assert_eq!(
        agent.handle_toolcalls(batch),
        Ok(vec!["beta".to_string(), "alpha".to_string(), "beta".to_string()])
    );
    assert_eq!(agent.handle_toolcalls(vec![]), Ok(vec![]));
}

#[test]
fn arguments_round_trip_through_the_registry() {
    let (tool, seen) = echo();
    let agent = agent_with(vec![tool]);
    let mut object = serde_json::Map::new();
    object.insert("msg".to_string(), serde_json::Value::String("hi".to_string()));
    let raw = serde_json::to_string(&serde_json::Value::Object(object)).unwrap();
    assert_eq!(raw, "{\"msg\":\"hi\"}");
    let out = agent.tools.invoke("echo".to_string(), raw);
    assert_eq!(out, Some(Ok("hi".to_string())));
    assert_eq!(*seen.borrow(), vec!["hi".to_string()]);
}

#[test]
fn until_tool_retries_unknown_tool_then_returns_target_arguments() {
    let (tool, seen) = echo();
    let mut agent = agent_with(vec![tool]);

    let bogus = vec![call("c1", "bogus", "{}")];
    let first = agent.run_until_tool::<Echo>(vec![choice(
        FinishReason::ToolCalls,
        None,
        None,
        Some(bogus.clone()),
    )]);
    assert_eq!(first, Ok(None));
    assert_eq!(
        agent.context,
        vec![
            Message::Assistant(AssistantContent::ToolCalls(bogus)),
            Message::User("No such tool: bogus, will try again".to_string()),
        ]
    );

    let target = vec![call("c2", "echo", "{\"msg\":\"hi\"}")];
    let second = agent.run_until_tool::<Echo>(vec![choice(
        FinishReason::ToolCalls,
        None,
        None,
        Some(target.clone()),
    )]);
    assert_eq!(second, Ok(Some(EchoArgs { msg: "hi".to_string() })));
    assert!(seen.borrow().is_empty());
    assert_eq!(agent.context.len(), 3);
    assert_eq!(agent.context[2], Message::Assistant(AssistantContent::ToolCalls(target)));
}

#[test]
fn until_tool_takes_the_first_target_call_and_runs_nothing() {
    let (tool, seen) = echo();
    let (other, other_calls) = fixed("other", Ok("x"));
    let mut agent = agent_with(vec![tool, other]);
    let batch = vec![
        call("1", "other", "{}"),
        call("2", "echo", "{\"msg\":\"first\"}"),
        call("3", "echo", "{\"msg\":\"second\"}"),
    ];
    let r = agent.run_until_tool::<Echo>(vec![choice(FinishReason::Stop, None, None, Some(batch))]);
    assert_eq!(r, Ok(Some(EchoArgs { msg: "first".to_string() })));
    assert_eq!(other_calls.get(), 0);
    assert!(seen.borrow().is_empty());
}

#[test]
fn until_tool_target_arguments_that_do_not_parse_are_a_json_error() {
    let (tool, _) = echo();
    let mut agent = agent_with(vec![tool]);
    let batch = vec![call("1", "echo", "{\"other\":1}")];
    let r = agent.run_until_tool::<Echo>(vec![choice(FinishReason::ToolCalls, None, None, Some(batch))]);
    assert_eq!(r, Err(AgentyError::STDJSON("missing field `msg`".to_string())));
}

#[test]
fn tool_results_go_back_as_one_user_message() {
    let (a, _) = fixed("a", Ok("alpha"));
    let (b, _) = fixed("b", Ok("beta"));
    let mut agent = agent_with(vec![a, b]);
    let batch = vec![call("1", "a", "{}"), call("2", "b", "{}")];
    let r = agent.run_until_text(vec![choice(FinishReason::ToolCalls, None, None, Some(batch.clone()))]);
    assert_eq!(r, Ok(None));
    assert_eq!(
        agent.context,
        vec![
            Message::Assistant(AssistantContent::ToolCalls(batch)),
            Message::User("alpha\nbeta".to_string()),
        ]
    );
}

#[test]
fn incorrect_tool_call_is_retried() {
    let (tool, seen) = echo();
    let mut agent = agent_with(vec![tool]);
    let batch = vec![call("1", "echo", "not json")];
    let r = agent.run_until_text(vec![choice(FinishReason::ToolCalls, None, None, Some(batch))]);
    assert_eq!(r, Ok(None));
    assert!(seen.borrow().is_empty());
    let expected = format!(
        "Error incorrect tool call, schema: {}, args: not json during tool call, retry...",
        ECHO_SCHEMA
    );
    assert_eq!(agent.context[1], Message::User(expected));
}

#[test]
fn tool_failure_aborts_the_loop() {
    let (a, _) = fixed("a", Err("disk on fire"));
    let mut agent = agent_with(vec![a]);
    let batch = vec![call("1", "a", "{}")];
    let r = agent.run_until_text(vec![choice(FinishReason::ToolCalls, None, None, Some(batch.clone()))]);
    assert_eq!(r, Err(AgentyError::Other("disk on fire".to_string())));
    assert_eq!(agent.context, vec![Message::Assistant(AssistantContent::ToolCalls(batch))]);
}

#[test]
fn refusal_is_text_for_one_loop_and_an_error_for_the_other() {
    let refusal = || vec![choice(FinishReason::Other, None, Some("policy violation"), None)];
    let mut agent = agent_with(vec![]);
    assert_eq!(agent.run_until_text(refusal()), Ok(Some("policy violation".to_string())));
    assert_eq!(
        agent.context,
        vec![Message::Assistant(AssistantContent::Refusal("policy violation".to_string()))]
    );
    let mut agent = agent_with(vec![]);
    assert_eq!(
        agent.run_until_tool::<Echo>(refusal()),
        Err(AgentyError::Unexpected("policy violation".to_string()))
    );
}

#[test]
fn content_filter_without_refusal_text_records_an_empty_refusal() {
    let mut agent = agent_with(vec![]);
    let r = agent.run_until_text(vec![choice(FinishReason::ContentFilter, Some("x"), None, None)]);
    assert_eq!(r, Ok(Some(String::new())));
    assert_eq!(agent.context, vec![Message::Assistant(AssistantContent::Refusal(String::new()))]);
}

#[test]
fn stop_with_content_ends_the_text_loop() {
    let mut agent = agent_with(vec![]);
    let r = agent.run_until_text(vec![choice(FinishReason::Stop, Some("42"), None, None)]);
    assert_eq!(r, Ok(Some("42".to_string())));
    assert_eq!(agent.context, vec![Message::Assistant(AssistantContent::Text("42".to_string()))]);
    let mut agent = agent_with(vec![]);
    let r = agent.run_until_tool::<Echo>(vec![choice(FinishReason::Stop, Some("42"), None, None)]);
    assert_eq!(r, Err(AgentyError::Unexpected("42".to_string())));
}

#[test]
fn only_the_first_choice_counts() {
    let mut agent = agent_with(vec![]);
    let r = agent.run_until_text(vec![
        choice(FinishReason::Stop, Some("first"), None, None),
        choice(FinishReason::Stop, Some("second"), None, None),
    ]);
    assert_eq!(r, Ok(Some("first".to_string())));
}

struct Recorder;

impl StepHandler<AnyTool, usize> for Recorder {
    fn on_toolcalls(
        &self,
        agent: &mut Agent<AnyTool>,
        calls: Vec<ToolCall>,
    ) -> Result<AgentAction<usize>, AgentyError> {
        Ok(AgentAction::Out(agent.context.len() * 100 + calls.len()))
    }

    fn on_message(
        &self,
        agent: &mut Agent<AnyTool>,
        text: String,
    ) -> Result<AgentAction<usize>, AgentyError> {
        Ok(AgentAction::Out(agent.context.len() * 100 + text.len()))
    }

    fn on_refusal(
        &self,
        _agent: &mut Agent<AnyTool>,
        text: String,
    ) -> Result<AgentAction<usize>, AgentyError> {
        Ok(AgentAction::Unexpected(text))
    }
}

#[test]
fn continuation_sees_the_recorded_response() {
    let mut agent = agent_with(vec![]);
    let batch = vec![call("1", "a", "{}"), call("2", "b", "{}")];
    let step = agent.run_once(vec![choice(FinishReason::ToolCalls, None, None, Some(batch))], &Recorder);
    assert_eq!(step, Ok(AgentAction::Out(102)));
    let step = agent.run_once(vec![choice(FinishReason::Length, Some("abc"), None, None)], &Recorder);
    assert_eq!(step, Ok(AgentAction::Out(203)));
    let step = agent.run_once(vec![choice(FinishReason::ToolCalls, None, None, None)], &Recorder);
    assert_eq!(step, Ok(AgentAction::Out(300)));
    assert_eq!(agent.context[2], Message::Assistant(AssistantContent::ToolCalls(vec![])));
}

#[test]
fn request_carries_the_conversation_and_every_descriptor() {
    let (a, _) = fixed("a", Ok("alpha"));
    let (tool, _) = echo();
    let mut agent = agent_with(vec![a, tool]);
    agent.append_user("more".to_string()).unwrap();
    let request = agent.request();
    assert_eq!(request.messages, agent.full_context());
    let mut names: Vec<String> = request.tools.iter().map(|d| d.name.clone()).collect();
    names.sort();
    assert_eq!(names, vec!["a".to_string(), "echo".to_string()]);
    let echo = request.tools.iter().find(|d| d.name == "echo").unwrap();
    assert_eq!(echo.parameters, ECHO_SCHEMA);
    assert_eq!(echo.description, Some("Repeats the message".to_string()));
    assert!(!echo.strict);
}

#[test]
fn registering_a_name_twice_keeps_the_last_tool() {
    let (old, old_calls) = fixed("same", Ok("old"));
    let (new, new_calls) = fixed("same", Ok("new"));
    let mut registry: ToolBox<AnyTool> = ToolBox::new();
    registry.add_dyn_tool(old);
    registry.add_dyn_tool(new);
    assert_eq!(registry.openai_objects().len(), 1);
    assert_eq!(registry.invoke("same".to_string(), "{}".to_string()), Some(Ok("new".to_string())));
    assert_eq!(old_calls.get(), 0);
    assert_eq!(new_calls.get(), 1);
}

#[test]
fn error_messages() {
    assert_eq!(AgentyError::NoSuchTool("x".to_string()).message(), "No such tool");
    assert_eq!(
        AgentyError::IncorrectToolCall("{}".to_string(), "[1]".to_string()).message(),
        "incorrect tool call, schema: {}, args: [1]"
    );
    assert_eq!(AgentyError::Unexpected("hm".to_string()).message(), "unexpected llm response: hm");
    assert_eq!(AgentyError::STDJSON("eof".to_string()).message(), "json error: eof");
    assert_eq!(AgentyError::Prompt("p".to_string()).message(), "prompt: p");
    assert_eq!(AgentyError::Reqwest("r".to_string()).message(), "reqwest: r");
    assert_eq!(AgentyError::IO("gone".to_string()).message(), "io error: gone");
    assert_eq!(AgentyError::WebDriver("w".to_string()).message(), "driver: w");
    assert_eq!(AgentyError::Glob("g".to_string()).message(), "glob: g");
    assert_eq!(AgentyError::SMTPARSE("s".to_string()).message(), "smtlib parse error: s");
    assert_eq!(AgentyError::Z3EXPR("z".to_string()).message(), "z3 expression error: z");
    assert_eq!(AgentyError::Other("plain".to_string()).message(), "plain");
    assert_eq!(AgentyError::UnexpectedResponseShape.message(), "unexpected llm response shape");
    assert!(AgentyError::NoSuchTool("x".to_string()).is_recoverable());
    assert!(AgentyError::IncorrectToolCall(String::new(), String::new()).is_recoverable());
    assert!(!AgentyError::IO("gone".to_string()).is_recoverable());
    assert!(!AgentyError::UnexpectedResponseShape.is_recoverable());
}
