//! What holds of every conversation, stated over the contracts of the agent.

use crate::agent::{
    all_succeed, answers, batch_reply, can_succeed, concludes_until_text, concludes_until_tool, fails,
    names_none, resolves, seeks, steps, succeeds, turns_until_text, turns_until_tool, Agent,
    AgentAction, StepHandler, UntilText, UntilTool,
};
use crate::error::{AgentyError, ErrorView};
use crate::message::{
    requested_within, results_follow_calls, Branch, FinishReason, MessageView, ResponseChoiceView,
    ToolCallView,
};
use crate::tool::{Tool, ToolDescriptorView, ToolDyn};
use vstd::prelude::*;

verus! {

/// A response without any signal (a finish reason other than stop, length,
/// tool calls and content filter, and no content, refusal or tool call) makes
/// a step fail with `UnexpectedResponseShape`, whatever the continuations
/// are. The step never asks the model again, and the conversation stays as
/// it was.
pub proof fn lemma_no_signal_is_fatal<D: ToolDyn, T, H: StepHandler<D, T>>(
    handler: &H,
    before: &Agent<D>,
    choice: ResponseChoiceView,
    after: &Agent<D>,
    result: Result<AgentAction<T>, AgentyError>,
)
    requires
        choice.finish_reason == FinishReason::Other,
        choice.content is None,
        choice.refusal is None,
        choice.calls().len() == 0,
        steps(handler, before, choice, after, result),
    ensures
        result matches Err(e) && e@ == ErrorView::UnexpectedResponseShape,
        !(result matches Ok(AgentAction::Continue)),
        before.unchanged(after),
{
}

/// Both loops fail on a response without any signal; neither asks for
/// another turn.
pub proof fn lemma_no_signal_ends_loops<D: ToolDyn, T: Tool>(
    before: &Agent<D>,
    choice: ResponseChoiceView,
    after: &Agent<D>,
    tool: Result<Option<T::Arguments>, AgentyError>,
    text: Result<Option<String>, AgentyError>,
)
    requires
        choice.classify() is None,
    ensures
        turns_until_tool::<D, T>(before, choice, after, tool) ==> (tool matches Err(e) && e@
            == ErrorView::UnexpectedResponseShape),
        turns_until_text(before, choice, after, text) ==> (text matches Err(e) && e@
            == ErrorView::UnexpectedResponseShape),
{
}

/// A refusal ends the loop that waits for text with the refusal as its
/// text, and the loop that waits for a tool with an `Unexpected` error that
/// carries it. Either way the refusal is recorded in the history.
pub proof fn lemma_refusal<D: ToolDyn, T: Tool>(
    before: &Agent<D>,
    choice: ResponseChoiceView,
    after: &Agent<D>,
    tool: Result<Option<T::Arguments>, AgentyError>,
    text: Result<Option<String>, AgentyError>,
)
    requires
        choice.classify() == Some(Branch::Refusal),
    ensures
        turns_until_text(before, choice, after, text) ==> {
            &&& text matches Ok(Some(given))
            &&& given@ == choice.refusal_text()
            &&& before.appended(MessageView::AssistantRefusal(choice.refusal_text()), after)
        },
        turns_until_tool::<D, T>(before, choice, after, tool) ==> {
            &&& tool matches Err(e)
            &&& e@ == ErrorView::Unexpected(choice.refusal_text())
            &&& before.appended(MessageView::AssistantRefusal(choice.refusal_text()), after)
        },
{
}

/// An answer in text ends the loop that waits for text with that text, and
/// the loop that waits for a tool with an `Unexpected` error that carries
/// it. Either way the answer is recorded in the history.
pub proof fn lemma_answer<D: ToolDyn, T: Tool>(
    before: &Agent<D>,
    choice: ResponseChoiceView,
    after: &Agent<D>,
    tool: Result<Option<T::Arguments>, AgentyError>,
    text: Result<Option<String>, AgentyError>,
)
    requires
        choice.classify() == Some(Branch::Message),
    ensures
        turns_until_text(before, choice, after, text) ==> {
            &&& text matches Ok(Some(given))
            &&& given@ == choice.content_text()
            &&& before.appended(MessageView::AssistantText(choice.content_text()), after)
        },
        turns_until_tool::<D, T>(before, choice, after, tool) ==> {
            &&& tool matches Err(e)
            &&& e@ == ErrorView::Unexpected(choice.content_text())
            &&& before.appended(MessageView::AssistantText(choice.content_text()), after)
        },
{
}

/// A batch with a call that cannot succeed is not resolved: the result is
/// an error, and it is the error of that call or of one before it.
pub proof fn lemma_failing_call_fails_batch<D: ToolDyn>(
    tools: Map<Seq<char>, D>,
    calls: Seq<ToolCallView>,
    k: int,
    result: Result<Seq<Seq<char>>, ErrorView>,
)
    requires
        0 <= k < calls.len(),
        !can_succeed(tools, calls[k]),
        resolves(tools, calls, result),
    ensures
        result matches Err(error) && exists|i: int|
            0 <= i <= k && #[trigger] fails(tools, calls[i], error),
{
    match result {
        Ok(texts) => {
            assert(succeeds(tools, calls[k], texts[k]));
        },
        Err(error) => {
            let i = choose|i: int|
                0 <= i < calls.len() && #[trigger] fails(tools, calls[i], error) && all_succeed(
                    tools,
                    calls,
                    i,
                );
            if i > k {
                assert(can_succeed(tools, calls[k]));
            }
        },
    }
}

/// A batch whose first call names no registered tool fails with
/// `NoSuchTool` for that name, whatever the later calls are.
pub proof fn lemma_unknown_first_call<D: ToolDyn>(
    tools: Map<Seq<char>, D>,
    calls: Seq<ToolCallView>,
    result: Result<Seq<Seq<char>>, ErrorView>,
)
    requires
        calls.len() > 0,
        !tools.contains_key(calls[0].name),
        resolves(tools, calls, result),
    ensures
        result == Err::<Seq<Seq<char>>, ErrorView>(ErrorView::NoSuchTool(calls[0].name)),
{
    lemma_failing_call_fails_batch(tools, calls, 0, result);
}

/// Answering a batch whose first call names no registered tool succeeds and
/// tells the model that there is no such tool.
pub proof fn lemma_unknown_tool_is_retried<D: ToolDyn>(
    before: &Agent<D>,
    calls: Seq<ToolCallView>,
    after: &Agent<D>,
    result: Result<(), ErrorView>,
)
    requires
        calls.len() > 0,
        !before.tools@.contains_key(calls[0].name),
        answers(before, calls, after, result),
    ensures
        result is Ok,
        before.appended(
            MessageView::User(ErrorView::NoSuchTool(calls[0].name).retry_prompt()),
            after,
        ),
{
    let resolution = choose|resolution: Result<Seq<Seq<char>>, ErrorView>| #[trigger]
        resolves(before.tools@, calls, resolution) && match batch_reply(resolution) {
            Ok(reply) => result is Ok && before.appended(MessageView::User(reply), after),
            Err(error) => result == Err::<(), ErrorView>(error) && before.unchanged(after),
        };
    lemma_unknown_first_call(before.tools@, calls, resolution);
}

/// Appending a message and then reverting gives back the history, and
/// neither touches the opening prompts.
pub proof fn lemma_append_then_revert<D: ToolDyn>(
    start: &Agent<D>,
    message: MessageView,
    appended: &Agent<D>,
    reverted: &Agent<D>,
)
    requires
        start.appended(message, appended),
        appended.same_setup(reverted),
        reverted.history() == appended.history().drop_last(),
    ensures
        start.unchanged(reverted),
        reverted.preamble() == start.preamble(),
        reverted.conversation() == start.conversation(),
{
    assert(start.history().push(message).drop_last() =~= start.history());
}

/// A history in which results follow calls stays so when a message is
/// appended that is no tool result, or one whose call was requested.
pub proof fn lemma_push_keeps_order(history: Seq<MessageView>, message: MessageView)
    requires
        results_follow_calls(history),
        message matches MessageView::Tool(_, id) ==> requested_within(
            history,
            history.len() as int,
            id,
        ),
    ensures
        results_follow_calls(history.push(message)),
{
    let after = history.push(message);
    assert forall|i: int| 0 <= i < after.len() && (#[trigger] after[i]) is Tool implies requested_within(
        after,
        i,
        after[i]->Tool_1,
    ) by {
        let id = after[i]->Tool_1;
        if i < history.len() {
            assert(history[i] is Tool);
            assert(requested_within(history, i, id));
        }
        let j = choose|j: int| 0 <= j < i && j < history.len() && (#[trigger] history[j]).requests(id);
        assert(after[j].requests(id));
    }
}

/// A history in which results follow calls stays so when its newest
/// message is taken off.
pub proof fn lemma_revert_keeps_order(history: Seq<MessageView>)
    requires
        results_follow_calls(history),
        history.len() > 0,
    ensures
        results_follow_calls(history.drop_last()),
{
    let after = history.drop_last();
    assert forall|i: int| 0 <= i < after.len() && (#[trigger] after[i]) is Tool implies requested_within(
        after,
        i,
        after[i]->Tool_1,
    ) by {
        let id = after[i]->Tool_1;
        assert(history[i] is Tool);
        let j = choose|j: int| 0 <= j < i && j < history.len() && (#[trigger] history[j]).requests(id);
        assert(after[j].requests(id));
    }
}

/// Answering a batch keeps results after their calls.
pub proof fn lemma_answer_keeps_order<D: ToolDyn>(
    before: &Agent<D>,
    calls: Seq<ToolCallView>,
    after: &Agent<D>,
    result: Result<(), ErrorView>,
)
    requires
        results_follow_calls(before.history()),
        answers(before, calls, after, result),
    ensures
        results_follow_calls(after.history()),
{
    let resolution = choose|resolution: Result<Seq<Seq<char>>, ErrorView>| #[trigger]
        resolves(before.tools@, calls, resolution) && match batch_reply(resolution) {
            Ok(reply) => result is Ok && before.appended(MessageView::User(reply), after),
            Err(error) => result == Err::<(), ErrorView>(error) && before.unchanged(after),
        };
    match batch_reply(resolution) {
        Ok(reply) => {
            lemma_push_keeps_order(before.history(), MessageView::User(reply));
        },
        Err(_) => {},
    }
}

/// A turn of either loop keeps results after their calls: what a turn
/// appends is the assistant's message and, after a batch, one user message.
pub proof fn lemma_turn_keeps_order<D: ToolDyn, T: Tool>(
    before: &Agent<D>,
    choice: ResponseChoiceView,
    after: &Agent<D>,
    tool: Result<Option<T::Arguments>, AgentyError>,
    text: Result<Option<String>, AgentyError>,
)
    requires
        results_follow_calls(before.history()),
        turns_until_tool::<D, T>(before, choice, after, tool) || turns_until_text(
            before,
            choice,
            after,
            text,
        ),
    ensures
        results_follow_calls(after.history()),
{
    match choice.classify() {
        None => {},
        Some(branch) => {
            lemma_push_keeps_order(before.history(), choice.record(branch));
            if turns_until_tool::<D, T>(before, choice, after, tool) {
                let (handler, action) = choose|
                    handler: UntilTool<T>,
                    action: Result<AgentAction<T::Arguments>, AgentyError>,
                | #[trigger]
                    steps(&handler, before, choice, after, action) && concludes_until_tool(
                        action,
                        tool,
                    );
                let recorded = choose|recorded: Agent<D>| #[trigger]
                    before.appended(choice.record(branch), &recorded) && match branch {
                        Branch::ToolCalls => handler.toolcalls_outcome(
                            &recorded,
                            choice.calls(),
                            after,
                            action,
                        ),
                        Branch::Refusal => handler.refusal_outcome(
                            &recorded,
                            choice.refusal_text(),
                            after,
                            action,
                        ),
                        Branch::Message => handler.message_outcome(
                            &recorded,
                            choice.content_text(),
                            after,
                            action,
                        ),
                    };
                if branch == Branch::ToolCalls {
                    let d = choose|d: ToolDescriptorView| #[trigger]
                        T::describes(d) && seeks::<D, T>(
                            d.name,
                            &recorded,
                            choice.calls(),
                            after,
                            action,
                        );
                    if names_none(choice.calls(), d.name) {
                        match action {
                            Ok(_) => lemma_answer_keeps_order(&recorded, choice.calls(), after, Ok(())),
                            Err(e) => lemma_answer_keeps_order(
                                &recorded,
                                choice.calls(),
                                after,
                                Err(e@),
                            ),
                        }
                    }
                }
            } else {
                let (handler, action) = choose|
                    handler: UntilText,
                    action: Result<AgentAction<String>, AgentyError>,
                | #[trigger]
                    steps(&handler, before, choice, after, action) && concludes_until_text(
                        action,
                        text,
                    );
                let recorded = choose|recorded: Agent<D>| #[trigger]
                    before.appended(choice.record(branch), &recorded) && match branch {
                        Branch::ToolCalls => handler.toolcalls_outcome(
                            &recorded,
                            choice.calls(),
                            after,
                            action,
                        ),
                        Branch::Refusal => handler.refusal_outcome(
                            &recorded,
                            choice.refusal_text(),
                            after,
                            action,
                        ),
                        Branch::Message => handler.message_outcome(
                            &recorded,
                            choice.content_text(),
                            after,
                            action,
                        ),
                    };
                if branch == Branch::ToolCalls {
                    match action {
                        Ok(_) => lemma_answer_keeps_order(&recorded, choice.calls(), after, Ok(())),
                        Err(e) => lemma_answer_keeps_order(&recorded, choice.calls(), after, Err(e@)),
                    }
                }
            }
        },
    }
}

} // verus!
