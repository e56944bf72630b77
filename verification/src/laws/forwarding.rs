//! Laws of what the worker is told of a running turn.
use vstd::prelude::*;

use crate::agent_engine::{
    forwarded, goal_step, image_block, stream_event_json, text_block, tool_result_json,
    user_message, AgentEvent, ImageContent, MessageKind, StreamEvent, ToolResult,
};
use crate::engine::EventView;
use crate::json::{group_members, items_view, JsonView};

verus! {

/// The settled assistant and tool-result messages of a transcript that can be
/// sent, in order; a tool result is marked so.
pub open spec fn settled(events: Seq<AgentEvent>) -> Seq<(bool, JsonView)>
    decreases events.len(),
{
    if events.len() == 0 {
        Seq::empty()
    } else {
        let before = settled(events.drop_last());
        match events.last() {
            AgentEvent::MessageEnd { message } if message.wire is Some && (message.kind
                == MessageKind::Assistant || message.kind == MessageKind::ToolResult) => before.push(
                (message.kind == MessageKind::ToolResult, message.wire->0@),
            ),
            _ => before,
        }
    }
}

/// What the worker is told of a transcript, in order.
pub open spec fn told(events: Seq<AgentEvent>) -> Seq<EventView>
    decreases events.len(),
{
    if events.len() == 0 {
        Seq::empty()
    } else {
        let before = told(events.drop_last());
        match forwarded(events.last()) {
            Some(event) => before.push(event),
            None => before,
        }
    }
}

/// The settled messages among what the worker was told, in order; a tool result
/// is marked so.
pub open spec fn told_settled(told: Seq<EventView>) -> Seq<(bool, JsonView)>
    decreases told.len(),
{
    if told.len() == 0 {
        Seq::empty()
    } else {
        let before = told_settled(told.drop_last());
        match told.last() {
            EventView::AssistantMessage(wire) => before.push((false, wire)),
            EventView::ToolResultMessage(wire) => before.push((true, wire)),
            _ => before,
        }
    }
}

/// No settled message is lost, doubled, changed or moved: the settled messages
/// that the worker is told of are the transcript's assistant and tool-result
/// messages, in order.
pub proof fn law_settled_messages_are_told(events: Seq<AgentEvent>)
    ensures
        told_settled(told(events)) == settled(events),
    decreases events.len(),
{
    if events.len() > 0 {
        law_settled_messages_are_told(events.drop_last());
        let before = told(events.drop_last());
        match forwarded(events.last()) {
            Some(event) => {
                assert(before.push(event).drop_last() =~= before);
            },
            None => {},
        }
    }
}

/// Every call of a tool is told from its start to its end, under its own id, with
/// its arguments, its results and whether it failed, and nothing else is told as
/// one.
pub proof fn law_tool_calls_are_told(event: AgentEvent)
    ensures
        event matches AgentEvent::ToolExecutionStart { tool_call_id, tool_name, args } ==> (
        forwarded(event) matches Some(EventView::ToolExecutionStart {
            tool_call_id: id,
            tool_name: name,
            args: given,
        }) && id == tool_call_id@ && name == tool_name@ && given == args@),
        event matches AgentEvent::ToolExecutionUpdate { tool_call_id, partial_result } ==> (
        forwarded(event) matches Some(EventView::ToolExecutionUpdate {
            tool_call_id: id,
            partial_result: shown,
        }) && id == tool_call_id@ && shown == tool_result_json(partial_result)),
        event matches AgentEvent::ToolExecutionEnd { tool_call_id, result, is_error } ==> (
        forwarded(event) matches Some(EventView::ToolExecutionEnd {
            tool_call_id: id,
            result: shown,
            is_error: failed,
        }) && id == tool_call_id@ && shown == tool_result_json(result) && failed == is_error),
        forwarded(event) matches Some(EventView::ToolExecutionStart { .. }) ==> event
            is ToolExecutionStart,
        forwarded(event) matches Some(EventView::ToolExecutionUpdate { .. }) ==> event
            is ToolExecutionUpdate,
        forwarded(event) matches Some(EventView::ToolExecutionEnd { .. }) ==> event
            is ToolExecutionEnd,
        event is Other ==> forwarded(event) is None,
{
}

/// The result of a tool is sent with all its content and its details.
pub proof fn law_tool_results_are_sent_whole(result: ToolResult)
    ensures
        tool_result_json(result).carries(
            "content"@,
            JsonView::Array(items_view(result.content@)),
        ),
        tool_result_json(result).carries("details"@, result.details@),
{
    broadcast use group_members;

}

/// An assistant message is told as it streams, with the message as it then is and
/// what the stream added; nobody else's message is.
pub proof fn law_streamed_messages_are_told(event: AgentEvent)
    ensures
        event matches AgentEvent::MessageUpdate { message, stream } ==> if message.kind
            == MessageKind::Assistant && message.wire is Some {
            forwarded(event) == Some(
                EventView::AssistantUpdate {
                    message: message.wire->0@,
                    stream_event: stream_event_json(stream),
                },
            )
        } else {
            forwarded(event) is None
        },
        event matches AgentEvent::MessageStart { message } ==> if message.kind
            == MessageKind::Assistant && message.wire is Some {
            forwarded(event) == Some(
                EventView::AssistantUpdate {
                    message: message.wire->0@,
                    stream_event: stream_event_json(StreamEvent::Start),
                },
            )
        } else {
            forwarded(event) is None
        },
{
}

/// A delta of a stream is sent whole, under its own kind; only the end of a stream
/// is not sent.
pub proof fn law_stream_deltas_are_sent_whole(event: StreamEvent)
    ensures
        stream_event_json(event) is None <==> event is Done || event is Error,
        event matches StreamEvent::TextDelta(delta) ==> stream_event_json(event)->0.carries(
            "type"@,
            JsonView::Str("text_delta"@),
        ) && stream_event_json(event)->0.carries("delta"@, JsonView::Str(delta@)),
        event matches StreamEvent::ThinkingDelta(delta) ==> stream_event_json(event)->0.carries(
            "type"@,
            JsonView::Str("thinking_delta"@),
        ) && stream_event_json(event)->0.carries("delta"@, JsonView::Str(delta@)),
        event matches StreamEvent::ToolCallDelta(delta) ==> stream_event_json(event)->0.carries(
            "type"@,
            JsonView::Str("toolcall_delta"@),
        ) && stream_event_json(event)->0.carries("delta"@, JsonView::Str(delta@)),
        event is Start ==> stream_event_json(event)->0.carries("type"@, JsonView::Str("start"@)),
        event is TextStart ==> stream_event_json(event)->0.carries(
            "type"@,
            JsonView::Str("text_start"@),
        ),
        event is TextEnd ==> stream_event_json(event)->0.carries(
            "type"@,
            JsonView::Str("text_end"@),
        ),
        event is ThinkingStart ==> stream_event_json(event)->0.carries(
            "type"@,
            JsonView::Str("thinking_start"@),
        ),
        event is ThinkingEnd ==> stream_event_json(event)->0.carries(
            "type"@,
            JsonView::Str("thinking_end"@),
        ),
        event is ToolCallStart ==> stream_event_json(event)->0.carries(
            "type"@,
            JsonView::Str("toolcall_start"@),
        ),
        event is ToolCallEnd ==> stream_event_json(event)->0.carries(
            "type"@,
            JsonView::Str("toolcall_end"@),
        ),
{
    broadcast use group_members;

}

/// A prompt's row holds its text first and then each of its images, in order, as
/// they came.
pub proof fn law_prompts_are_told_whole(text: Seq<char>, images: Seq<ImageContent>, now: u64)
    ensures
        user_message(text, images, now).carries("role"@, JsonView::Str("user"@)),
        user_message(text, images, now).carries("timestamp"@, JsonView::uint(now)),
        exists|content: Seq<JsonView>|
            #![trigger user_message(text, images, now).carries("content"@, JsonView::Array(content))]
            user_message(text, images, now).carries("content"@, JsonView::Array(content))
                && content.len() == images.len() + 1 && content[0].carries(
                "text"@,
                JsonView::Str(text),
            ) && forall|i: int|
                0 <= i < images.len() ==> (#[trigger] content[i + 1]).carries(
                    "data"@,
                    JsonView::Str(images[i].data@),
                ) && content[i + 1].carries("mimeType"@, JsonView::Str(images[i].mime_type@)),
{
    broadcast use group_members;

    let content = seq![text_block(text)] + Seq::new(images.len(), |i: int| image_block(images[i]));
    assert(user_message(text, images, now).carries("content"@, JsonView::Array(content)));
}

/// A goal's state is told exactly where it changed and is not an idle first one,
/// and then it is the state that counts as told.
pub proof fn law_changed_goals_are_told(published: Option<JsonView>, goal: JsonView, idle: bool)
    ensures
        goal_step(published, Some((goal, idle))).0 == Some(goal),
        goal_step(published, Some((goal, idle))).1 is Some <==> published != Some(goal)
            && !(published is None && idle),
        goal_step(published, Some((goal, idle))).1 matches Some(event) ==> event == (
        EventView::GoalUpdate { goal }),
        goal_step(published, None) == (published, None::<EventView>),
{
}

} // verus!
