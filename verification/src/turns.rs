//! Grouping of the conversation into the turns that the view shows: user
//! messages form user turns; assistant text, tool calls, tool results and
//! suggested commands form agent turns.

use vstd::prelude::*;

use crate::json::{json_string_member, string_member};
use crate::state::{ConversationEvent, EventModel, events_model, suggest_command_name};
use crate::queries::{danger_is_elevated, is_elevated_danger};
use crate::text::text_eq;

verus! {

/// Completion status of a tool call shown in an agent turn.
#[derive(Debug, Clone, Copy, PartialEq, Eq, Structural)]
pub enum ToolResultStatus {
    Pending,
    Success,
    Error,
}

/// An entry of a turn.
#[derive(Debug)]
pub enum UiEvent {
    Text { content: String },
    ToolCall { tool_use_id: String, name: String, input: String, status: ToolResultStatus },
    SuggestedCommand {
        command: String,
        danger_level: String,
        danger_notes: String,
        confidence_level: String,
        confidence_notes: String,
    },
}

/// Mathematical view of a [`UiEvent`].
pub enum UiEventModel {
    Text { content: Seq<char> },
    ToolCall {
        tool_use_id: Seq<char>,
        name: Seq<char>,
        input: Seq<char>,
        status: ToolResultStatus,
    },
    SuggestedCommand {
        command: Seq<char>,
        danger_level: Seq<char>,
        danger_notes: Seq<char>,
        confidence_level: Seq<char>,
        confidence_notes: Seq<char>,
    },
}

impl View for UiEvent {
    type V = UiEventModel;

    open spec fn view(&self) -> UiEventModel {
        match self {
            UiEvent::Text { content } => UiEventModel::Text { content: content@ },
            UiEvent::ToolCall { tool_use_id, name, input, status } => UiEventModel::ToolCall {
                tool_use_id: tool_use_id@,
                name: name@,
                input: input@,
                status: *status,
            },
            UiEvent::SuggestedCommand {
                command,
                danger_level,
                danger_notes,
                confidence_level,
                confidence_notes,
            } => UiEventModel::SuggestedCommand {
                command: command@,
                danger_level: danger_level@,
                danger_notes: danger_notes@,
                confidence_level: confidence_level@,
                confidence_notes: confidence_notes@,
            },
        }
    }
}

/// A turn of the conversation.
#[derive(Debug)]
pub enum UiTurn {
    UserTurn { events: Vec<UiEvent> },
    AgentTurn { events: Vec<UiEvent> },
}

/// Mathematical view of a [`UiTurn`].
pub struct TurnModel {
    pub user: bool,
    pub events: Seq<UiEventModel>,
}

/// Views a sequence of turn entries.
pub open spec fn ui_events_model(evs: Seq<UiEvent>) -> Seq<UiEventModel> {
    evs.map_values(|e: UiEvent| e@)
}

impl View for UiTurn {
    type V = TurnModel;

    open spec fn view(&self) -> TurnModel {
        match self {
            UiTurn::UserTurn { events } => TurnModel {
                user: true,
                events: ui_events_model(events@),
            },
            UiTurn::AgentTurn { events } => TurnModel {
                user: false,
                events: ui_events_model(events@),
            },
        }
    }
}

/// Views a sequence of turns.
pub open spec fn turns_model(ts: Seq<UiTurn>) -> Seq<TurnModel> {
    ts.map_values(|t: UiTurn| t@)
}

/// Views an optional turn.
pub open spec fn opt_turn(t: Option<UiTurn>) -> Option<TurnModel> {
    match t {
        Some(t) => Some(t@),
        None => None,
    }
}

/// Collects turns from conversation events.
pub struct TurnBuilder {
    turns: Vec<UiTurn>,
    current_turn: Option<UiTurn>,
}

/// Mathematical view of a [`TurnBuilder`]: the committed turns and the turn
/// being filled.
pub struct BuilderModel {
    pub turns: Seq<TurnModel>,
    pub current: Option<TurnModel>,
}

impl View for TurnBuilder {
    type V = BuilderModel;

    closed spec fn view(&self) -> BuilderModel {
        BuilderModel { turns: turns_model(self.turns@), current: opt_turn(self.current_turn) }
    }
}

/// The builder before any event.
pub open spec fn empty_builder() -> BuilderModel {
    BuilderModel { turns: Seq::empty(), current: None }
}

/// Moves the current turn, if any, to the committed turns.
pub open spec fn commit(b: BuilderModel) -> BuilderModel {
    match b.current {
        Some(t) => BuilderModel { turns: b.turns.push(t), current: None },
        None => b,
    }
}

/// Makes the current turn one of the given kind, committing a current turn of
/// the other kind.
pub open spec fn start_turn(b: BuilderModel, user: bool) -> BuilderModel {
    match b.current {
        Some(t) => if t.user == user {
            b
        } else {
            BuilderModel {
                turns: b.turns.push(t),
                current: Some(TurnModel { user, events: Seq::empty() }),
            }
        },
        None => BuilderModel {
            turns: b.turns,
            current: Some(TurnModel { user, events: Seq::empty() }),
        },
    }
}

/// Adds an entry to the current turn.
pub open spec fn push_entry(b: BuilderModel, e: UiEventModel) -> BuilderModel {
    match b.current {
        Some(t) => BuilderModel {
            turns: b.turns,
            current: Some(TurnModel { user: t.user, events: t.events.push(e) }),
        },
        None => b,
    }
}

/// Whether an entry is the tool call with the given id.
pub open spec fn is_call_with_id(e: UiEventModel, id: Seq<char>) -> bool {
    match e {
        UiEventModel::ToolCall { tool_use_id, .. } => tool_use_id == id,
        _ => false,
    }
}

/// Index of the first tool call with the given id, or -1.
pub open spec fn first_call_index(evs: Seq<UiEventModel>, id: Seq<char>) -> int
    decreases evs.len(),
{
    if evs.len() == 0 {
        -1
    } else if is_call_with_id(evs[0], id) {
        0
    } else {
        let r = first_call_index(evs.drop_first(), id);
        if r < 0 {
            -1
        } else {
            r + 1
        }
    }
}

/// The entry with its tool status replaced.
pub open spec fn with_status(e: UiEventModel, status: ToolResultStatus) -> UiEventModel {
    match e {
        UiEventModel::ToolCall { tool_use_id, name, input, .. } => UiEventModel::ToolCall {
            tool_use_id,
            name,
            input,
            status,
        },
        _ => e,
    }
}

/// The status that a tool result gives its call.
pub open spec fn result_status(is_error: bool) -> ToolResultStatus {
    if is_error {
        ToolResultStatus::Error
    } else {
        ToolResultStatus::Success
    }
}

/// Marks the first tool call with the given id in the current turn.
pub open spec fn mark_result(b: BuilderModel, id: Seq<char>, is_error: bool) -> BuilderModel {
    match b.current {
        Some(t) => {
            let i = first_call_index(t.events, id);
            if i < 0 {
                b
            } else {
                BuilderModel {
                    turns: b.turns,
                    current: Some(
                        TurnModel {
                            user: t.user,
                            events: t.events.update(
                                i,
                                with_status(t.events[i], result_status(is_error)),
                            ),
                        },
                    ),
                }
            }
        },
        None => b,
    }
}

/// A string member of a tool input, empty where absent.
pub open spec fn member_or_empty(input: Seq<char>, key: Seq<char>) -> Seq<char> {
    match json_string_member(input, key) {
        Some(v) => v,
        None => Seq::empty(),
    }
}

/// The suggested-command entry for a tool input.
pub open spec fn suggestion_entry(input: Seq<char>) -> UiEventModel {
    UiEventModel::SuggestedCommand {
        command: member_or_empty(input, "command"@),
        danger_level: member_or_empty(input, "danger"@),
        danger_notes: member_or_empty(input, "danger_notes"@),
        confidence_level: member_or_empty(input, "confidence"@),
        confidence_notes: member_or_empty(input, "confidence_notes"@),
    }
}

/// The builder after one more conversation event.
pub open spec fn add_event(b: BuilderModel, e: EventModel) -> BuilderModel {
    match e {
        EventModel::UserMessage { content } => push_entry(
            start_turn(b, true),
            UiEventModel::Text { content },
        ),
        EventModel::Text { content } => push_entry(
            start_turn(b, false),
            UiEventModel::Text { content },
        ),
        EventModel::ToolCall { id, name, input } => if name == suggest_command_name() {
            if member_or_empty(input, "command"@).len() == 0 {
                b
            } else {
                push_entry(start_turn(b, false), suggestion_entry(input))
            }
        } else {
            push_entry(
                start_turn(b, false),
                UiEventModel::ToolCall {
                    tool_use_id: id,
                    name,
                    input,
                    status: ToolResultStatus::Pending,
                },
            )
        },
        EventModel::ToolResult { tool_use_id, is_error, .. } => mark_result(
            start_turn(b, false),
            tool_use_id,
            is_error,
        ),
    }
}

/// The builder after a sequence of events.
pub open spec fn builder_after(es: Seq<EventModel>) -> BuilderModel
    decreases es.len(),
{
    if es.len() == 0 {
        empty_builder()
    } else {
        add_event(builder_after(es.drop_last()), es.last())
    }
}

/// The turns of a conversation.
pub open spec fn turns_of(es: Seq<EventModel>) -> Seq<TurnModel> {
    commit(builder_after(es)).turns
}

/// A user turn holds nothing but text entries.
pub open spec fn only_text_if_user(t: TurnModel) -> bool {
    t.user ==> forall|j: int| 0 <= j < t.events.len() ==> (#[trigger] t.events[j]) is Text
}

/// Adjacent turns are of different kinds.
pub open spec fn alternating(ts: Seq<TurnModel>) -> bool {
    forall|i: int| 0 <= i < ts.len() - 1 ==> (#[trigger] ts[i]).user != ts[i + 1].user
}

/// What every builder reached from the empty one satisfies.
pub open spec fn builder_inv(b: BuilderModel) -> bool {
    &&& alternating(b.turns)
    &&& forall|i: int| 0 <= i < b.turns.len() ==> only_text_if_user(#[trigger] b.turns[i])
    &&& b.current is None ==> b.turns.len() == 0
    &&& b.current matches Some(c) ==> {
        &&& only_text_if_user(c)
        &&& b.turns.len() > 0 ==> b.turns.last().user != c.user
    }
}

proof fn lemma_start_turn_inv(b: BuilderModel, user: bool)
    requires
        builder_inv(b),
    ensures
        builder_inv(start_turn(b, user)),
        start_turn(b, user).current matches Some(c) && c.user == user,
{
    if let Some(t) = b.current {
        if t.user != user {
            let nb = start_turn(b, user);
            assert forall|i: int| 0 <= i < nb.turns.len() - 1 implies (#[trigger] nb.turns[i]).user
                != nb.turns[i + 1].user by {
                if i < b.turns.len() - 1 {
                    assert(nb.turns[i] == b.turns[i]);
                    assert(nb.turns[i + 1] == b.turns[i + 1]);
                }
            }
            assert forall|i: int| 0 <= i < nb.turns.len() implies only_text_if_user(
                #[trigger] nb.turns[i],
            ) by {
                if i < b.turns.len() {
                    assert(nb.turns[i] == b.turns[i]);
                }
            }
        }
    }
}

proof fn lemma_add_event_inv(b: BuilderModel, e: EventModel)
    requires
        builder_inv(b),
    ensures
        builder_inv(add_event(b, e)),
{
    match e {
        EventModel::UserMessage { content } => {
            lemma_start_turn_inv(b, true);
            let s = start_turn(b, true);
            let c = s.current->0;
            let nb = push_entry(s, UiEventModel::Text { content });
            assert(only_text_if_user(nb.current->0)) by {
                assert forall|j: int| 0 <= j < nb.current->0.events.len() implies (
                #[trigger] nb.current->0.events[j]) is Text by {
                    if j < c.events.len() {
                        assert(nb.current->0.events[j] == c.events[j]);
                    }
                }
            }
        },
        EventModel::Text { content } => {
            lemma_start_turn_inv(b, false);
        },
        EventModel::ToolCall { id, name, input } => {
            lemma_start_turn_inv(b, false);
        },
        EventModel::ToolResult { tool_use_id, is_error, .. } => {
            lemma_start_turn_inv(b, false);
        },
    }
}

proof fn lemma_builder_after_inv(es: Seq<EventModel>)
    ensures
        builder_inv(builder_after(es)),
    decreases es.len(),
{
    if es.len() > 0 {
        lemma_builder_after_inv(es.drop_last());
        lemma_add_event_inv(builder_after(es.drop_last()), es.last());
    }
}

/// The turns alternate between the user and the agent: no two adjacent turns
/// are of the same kind, and user turns show nothing but the user's texts.
pub proof fn law_turns_alternate(es: Seq<EventModel>)
    ensures
        alternating(turns_of(es)),
        forall|i: int| 0 <= i < turns_of(es).len() ==> only_text_if_user(#[trigger] turns_of(es)[i]),
{
    let b = builder_after(es);
    lemma_builder_after_inv(es);
    let ts = turns_of(es);
    if let Some(c) = b.current {
        assert forall|i: int| 0 <= i < ts.len() - 1 implies (#[trigger] ts[i]).user != ts[i + 1].user by {
            if i < b.turns.len() - 1 {
                assert(ts[i] == b.turns[i]);
                assert(ts[i + 1] == b.turns[i + 1]);
            }
        }
        assert forall|i: int| 0 <= i < ts.len() implies only_text_if_user(#[trigger] ts[i]) by {
            if i < b.turns.len() {
                assert(ts[i] == b.turns[i]);
            }
        }
    }
}

/// The texts of the user messages of a conversation, in order.
pub open spec fn user_texts(es: Seq<EventModel>) -> Seq<Seq<char>>
    decreases es.len(),
{
    if es.len() == 0 {
        Seq::empty()
    } else {
        match es.last() {
            EventModel::UserMessage { content } => user_texts(es.drop_last()).push(content),
            _ => user_texts(es.drop_last()),
        }
    }
}

/// The texts of the text entries of a turn, in order.
pub open spec fn entry_texts(evs: Seq<UiEventModel>) -> Seq<Seq<char>>
    decreases evs.len(),
{
    if evs.len() == 0 {
        Seq::empty()
    } else {
        match evs.last() {
            UiEventModel::Text { content } => entry_texts(evs.drop_last()).push(content),
            _ => entry_texts(evs.drop_last()),
        }
    }
}

/// The texts a turn shows as the user's.
pub open spec fn turn_user_texts(t: TurnModel) -> Seq<Seq<char>> {
    if t.user {
        entry_texts(t.events)
    } else {
        Seq::empty()
    }
}

/// The texts the user turns show, in order.
pub open spec fn turns_user_texts(ts: Seq<TurnModel>) -> Seq<Seq<char>>
    decreases ts.len(),
{
    if ts.len() == 0 {
        Seq::empty()
    } else {
        turns_user_texts(ts.drop_last()) + turn_user_texts(ts.last())
    }
}

/// The user texts of a builder: those of its committed turns, then those of
/// its current turn.
pub open spec fn builder_user_texts(b: BuilderModel) -> Seq<Seq<char>> {
    turns_user_texts(b.turns) + match b.current {
        Some(c) => turn_user_texts(c),
        None => Seq::empty(),
    }
}

proof fn lemma_commit_user_texts(b: BuilderModel)
    ensures
        builder_user_texts(commit(b)) == builder_user_texts(b),
{
    if let Some(c) = b.current {
        assert(b.turns.push(c).drop_last() =~= b.turns);
        assert(builder_user_texts(commit(b)) =~= builder_user_texts(b));
    }
}

proof fn lemma_start_turn_user_texts(b: BuilderModel, user: bool)
    ensures
        builder_user_texts(start_turn(b, user)) == builder_user_texts(b),
{
    let nb = start_turn(b, user);
    let fresh = TurnModel { user, events: Seq::empty() };
    assert(entry_texts(Seq::<UiEventModel>::empty()) =~= Seq::<Seq<char>>::empty());
    assert(turn_user_texts(fresh) =~= Seq::<Seq<char>>::empty());
    match b.current {
        Some(t) => {
            if t.user != user {
                assert(b.turns.push(t).drop_last() =~= b.turns);
                assert(builder_user_texts(nb) =~= builder_user_texts(b));
            }
        },
        None => {
            assert(builder_user_texts(nb) =~= builder_user_texts(b));
        },
    }
}

proof fn lemma_add_event_user_texts(b: BuilderModel, e: EventModel)
    ensures
        builder_user_texts(add_event(b, e)) == match e {
            EventModel::UserMessage { content } => builder_user_texts(b).push(content),
            _ => builder_user_texts(b),
        },
{
    match e {
        EventModel::UserMessage { content } => {
            lemma_start_turn_user_texts(b, true);
            let s = start_turn(b, true);
            let c = s.current->0;
            let entry = UiEventModel::Text { content };
            assert(c.events.push(entry).drop_last() =~= c.events);
            assert(builder_user_texts(add_event(b, e)) =~= builder_user_texts(s).push(content));
        },
        EventModel::Text { content } => {
            lemma_start_turn_user_texts(b, false);
            assert(builder_user_texts(add_event(b, e)) =~= builder_user_texts(b));
        },
        EventModel::ToolCall { id, name, input } => {
            lemma_start_turn_user_texts(b, false);
            assert(builder_user_texts(add_event(b, e)) =~= builder_user_texts(b));
        },
        EventModel::ToolResult { tool_use_id, is_error, .. } => {
            lemma_start_turn_user_texts(b, false);
            assert(builder_user_texts(add_event(b, e)) =~= builder_user_texts(b));
        },
    }
}

proof fn lemma_builder_user_texts(es: Seq<EventModel>)
    ensures
        builder_user_texts(builder_after(es)) == user_texts(es),
    decreases es.len(),
{
    if es.len() == 0 {
        assert(builder_user_texts(empty_builder()) =~= Seq::<Seq<char>>::empty());
    } else {
        lemma_builder_user_texts(es.drop_last());
        lemma_add_event_user_texts(builder_after(es.drop_last()), es.last());
    }
}

/// The user turns show exactly the user's messages, each once and in the
/// order they were sent.
pub proof fn law_user_texts_kept_in_order(es: Seq<EventModel>)
    ensures
        turns_user_texts(turns_of(es)) == user_texts(es),
{
    lemma_builder_user_texts(es);
    lemma_commit_user_texts(builder_after(es));
    let b = commit(builder_after(es));
    assert(builder_user_texts(b) =~= turns_user_texts(b.turns));
}

/// The builder after one more event is the builder after the earlier ones
/// with that event added.
proof fn lemma_builder_after_push(es: Seq<EventModel>, e: EventModel)
    ensures
        builder_after(es.push(e)) == add_event(builder_after(es), e),
{
    assert(es.push(e).drop_last() =~= es);
}

/// A tool call (other than `suggest_command`) shows as pending: it is the
/// last entry of the last turn, an agent turn, with status pending.
pub proof fn law_tool_call_pending(
    es: Seq<EventModel>,
    id: Seq<char>,
    name: Seq<char>,
    input: Seq<char>,
)
    requires
        name != "suggest_command"@,
    ensures
        ({
            let ts = turns_of(es.push(EventModel::ToolCall { id, name, input }));
            &&& ts.len() > 0
            &&& !ts.last().user
            &&& ts.last().events.len() > 0
            &&& ts.last().events.last() == UiEventModel::ToolCall {
                tool_use_id: id,
                name,
                input,
                status: ToolResultStatus::Pending,
            }
        }),
{
    lemma_builder_after_push(es, EventModel::ToolCall { id, name, input });
}

/// A user message shows as the last entry of the last turn, a user turn; an
/// assistant text as the last entry of the last turn, an agent turn.
pub proof fn law_texts_placed(es: Seq<EventModel>, content: Seq<char>)
    ensures
        ({
            let ts = turns_of(es.push(EventModel::UserMessage { content }));
            &&& ts.len() > 0
            &&& ts.last().user
            &&& ts.last().events.len() > 0
            &&& ts.last().events.last() == UiEventModel::Text { content }
        }),
        ({
            let ts = turns_of(es.push(EventModel::Text { content }));
            &&& ts.len() > 0
            &&& !ts.last().user
            &&& ts.last().events.len() > 0
            &&& ts.last().events.last() == UiEventModel::Text { content }
        }),
{
    lemma_builder_after_push(es, EventModel::UserMessage { content });
    lemma_builder_after_push(es, EventModel::Text { content });
}

/// Whether `es` holds a tool call with the given id.
pub open spec fn has_call_id(es: Seq<EventModel>, x: Seq<char>) -> bool {
    exists|j: int| 0 <= j < es.len() && (#[trigger] es[j] matches EventModel::ToolCall { id, .. } && id == x)
}

/// Every tool call entry of a turn stands for a tool call event of `es`.
pub open spec fn calls_have_source(es: Seq<EventModel>, t: TurnModel) -> bool {
    forall|k: int|
        0 <= k < t.events.len() ==> (#[trigger] t.events[k] matches UiEventModel::ToolCall {
            tool_use_id,
            ..
        } ==> has_call_id(es, tool_use_id))
}

proof fn lemma_has_call_id_push(es: Seq<EventModel>, e: EventModel, x: Seq<char>)
    requires
        has_call_id(es, x),
    ensures
        has_call_id(es.push(e), x),
{
    let j = choose|j: int| 0 <= j < es.len() && (#[trigger] es[j] matches EventModel::ToolCall { id, .. } && id == x);
    assert(es.push(e)[j] == es[j]);
}

proof fn lemma_sourced_mono(es: Seq<EventModel>, e: EventModel, t: TurnModel)
    requires
        calls_have_source(es, t),
    ensures
        calls_have_source(es.push(e), t),
{
    assert forall|k: int| 0 <= k < t.events.len() implies (#[trigger] t.events[k] matches UiEventModel::ToolCall {
        tool_use_id,
        ..
    } ==> has_call_id(es.push(e), tool_use_id)) by {
        if let UiEventModel::ToolCall { tool_use_id, .. } = t.events[k] {
            lemma_has_call_id_push(es, e, tool_use_id);
        }
    }
}

proof fn lemma_sourced_push(es: Seq<EventModel>, t: TurnModel, entry: UiEventModel)
    requires
        calls_have_source(es, t),
        entry matches UiEventModel::ToolCall { tool_use_id, .. } ==> has_call_id(es, tool_use_id),
    ensures
        calls_have_source(es, TurnModel { user: t.user, events: t.events.push(entry) }),
{
    let evs = t.events.push(entry);
    assert forall|k: int| 0 <= k < evs.len() implies (#[trigger] evs[k] matches UiEventModel::ToolCall {
        tool_use_id,
        ..
    } ==> has_call_id(es, tool_use_id)) by {
        if k < t.events.len() {
            assert(evs[k] == t.events[k]);
        }
    }
}

proof fn lemma_sourced_update(es: Seq<EventModel>, t: TurnModel, i: int, st: ToolResultStatus)
    requires
        calls_have_source(es, t),
        0 <= i < t.events.len(),
    ensures
        calls_have_source(
            es,
            TurnModel { user: t.user, events: t.events.update(i, with_status(t.events[i], st)) },
        ),
{
    let evs = t.events.update(i, with_status(t.events[i], st));
    assert forall|k: int| 0 <= k < evs.len() implies (#[trigger] evs[k] matches UiEventModel::ToolCall {
        tool_use_id,
        ..
    } ==> has_call_id(es, tool_use_id)) by {
        if k != i {
            assert(evs[k] == t.events[k]);
        } else {
            let old_e = t.events[i];
            assert(0 <= i < t.events.len());
            assert(old_e matches UiEventModel::ToolCall { tool_use_id, .. } ==> has_call_id(
                es,
                tool_use_id,
            ));
        }
    }
}

proof fn lemma_current_calls_sourced(es: Seq<EventModel>)
    ensures
        builder_after(es).current matches Some(t) ==> calls_have_source(es, t),
    decreases es.len(),
{
    if es.len() > 0 {
        let p = es.drop_last();
        let e = es.last();
        lemma_current_calls_sourced(p);
        assert(p.push(e) =~= es);
        let b = builder_after(p);
        if let Some(bc) = b.current {
            lemma_sourced_mono(p, e, bc);
        }
        let u = e is UserMessage;
        let st = start_turn(b, u);
        let c = st.current->0;
        assert(calls_have_source(es, c)) by {
            if !(b.current matches Some(bc) && bc.user == u) {
                assert(c.events.len() == 0);
            }
        }
        match e {
            EventModel::UserMessage { content } => {
                lemma_sourced_push(es, c, UiEventModel::Text { content });
            },
            EventModel::Text { content } => {
                lemma_sourced_push(es, c, UiEventModel::Text { content });
            },
            EventModel::ToolCall { id, name, input } => {
                if name == suggest_command_name() {
                    lemma_sourced_push(es, c, suggestion_entry(input));
                } else {
                    assert(es[es.len() - 1] == e);
                    lemma_sourced_push(
                        es,
                        c,
                        UiEventModel::ToolCall {
                            tool_use_id: id,
                            name,
                            input,
                            status: ToolResultStatus::Pending,
                        },
                    );
                }
            },
            EventModel::ToolResult { tool_use_id, is_error, .. } => {
                let i = first_call_index(c.events, tool_use_id);
                if i >= 0 {
                    lemma_first_call_index_bound(c.events, tool_use_id);
                    lemma_sourced_update(es, c, i, result_status(is_error));
                }
            },
        }
    }
}

/// The first matching index lies inside the entries.
proof fn lemma_first_call_index_bound(evs: Seq<UiEventModel>, id: Seq<char>)
    ensures
        first_call_index(evs, id) < evs.len(),
        first_call_index(evs, id) >= -1,
    decreases evs.len(),
{
    if evs.len() > 0 && !is_call_with_id(evs[0], id) {
        lemma_first_call_index_bound(evs.drop_first(), id);
    }
}

/// A tool result marks its call: after a tool call and the tool result with
/// its id (no earlier tool call sharing that id), the call is the last entry of
/// the last turn, with status error or success as the result says.
pub proof fn law_tool_result_marks_call(
    es: Seq<EventModel>,
    id: Seq<char>,
    name: Seq<char>,
    input: Seq<char>,
    content: Seq<char>,
    is_error: bool,
)
    requires
        name != "suggest_command"@,
        !has_call_id(es, id),
    ensures
        ({
            let ts = turns_of(
                es.push(EventModel::ToolCall { id, name, input }).push(
                    EventModel::ToolResult { tool_use_id: id, content, is_error },
                ),
            );
            &&& ts.len() > 0
            &&& !ts.last().user
            &&& ts.last().events.len() > 0
            &&& ts.last().events.last() == UiEventModel::ToolCall {
                tool_use_id: id,
                name,
                input,
                status: if is_error {
                    ToolResultStatus::Error
                } else {
                    ToolResultStatus::Success
                },
            }
        }),
{
    let call = EventModel::ToolCall { id, name, input };
    let res = EventModel::ToolResult { tool_use_id: id, content, is_error };
    let es1 = es.push(call);
    lemma_builder_after_push(es, call);
    lemma_builder_after_push(es1, res);
    let b0 = builder_after(es);
    let s0 = start_turn(b0, false);
    let c0 = s0.current->0;
    lemma_current_calls_sourced(es);
    // the entries of the agent turn before the call hold no call with this id
    assert forall|k: int| 0 <= k < c0.events.len() implies !is_call_with_id(
        #[trigger] c0.events[k],
        id,
    ) by {
        if is_call_with_id(c0.events[k], id) {
            match b0.current {
                Some(bc) => {
                    if bc.user == false {
                        assert(c0 == bc);
                        assert(c0.events[k] matches UiEventModel::ToolCall { tool_use_id: y, .. } && y == id);
                        assert(has_call_id(es, id));
                    }
                },
                None => {},
            }
        }
    }
    let entry = UiEventModel::ToolCall { tool_use_id: id, name, input, status: ToolResultStatus::Pending };
    let evs = c0.events.push(entry);
    assert forall|k: int| 0 <= k < c0.events.len() implies !is_call_with_id(#[trigger] evs[k], id) by {
        assert(evs[k] == c0.events[k]);
    }
    lemma_first_call_index(evs, id, c0.events.len() as int);
}

/// The first tool call with a given id is the first index that matches.
proof fn lemma_first_call_index(evs: Seq<UiEventModel>, id: Seq<char>, n: int)
    requires
        0 <= n <= evs.len(),
        forall|t: int| 0 <= t < n ==> !is_call_with_id(#[trigger] evs[t], id),
        n == evs.len() || is_call_with_id(evs[n], id),
    ensures
        first_call_index(evs, id) == (if n == evs.len() { -1 } else { n }),
    decreases n,
{
    if n > 0 {
        assert(!is_call_with_id(evs[0], id));
        lemma_first_call_index(evs.drop_first(), id, n - 1);
    }
}

/// Copies an entry, replacing the status of a tool call.
fn entry_with_status(e: &UiEvent, status: ToolResultStatus) -> (r: UiEvent)
    ensures
        r@ == with_status(e@, status),
{
    match e {
        UiEvent::Text { content } => UiEvent::Text { content: content.clone() },
        UiEvent::ToolCall { tool_use_id, name, input, .. } => UiEvent::ToolCall {
            tool_use_id: tool_use_id.clone(),
            name: name.clone(),
            input: input.clone(),
            status,
        },
        UiEvent::SuggestedCommand {
            command,
            danger_level,
            danger_notes,
            confidence_level,
            confidence_notes,
        } => UiEvent::SuggestedCommand {
            command: command.clone(),
            danger_level: danger_level.clone(),
            danger_notes: danger_notes.clone(),
            confidence_level: confidence_level.clone(),
            confidence_notes: confidence_notes.clone(),
        },
    }
}

/// Whether an entry is the tool call with the given id.
fn entry_is_call(e: &UiEvent, id: &str) -> (r: bool)
    ensures
        r == is_call_with_id(e@, id@),
{
    match e {
        UiEvent::ToolCall { tool_use_id, .. } => text_eq(tool_use_id.as_str(), id),
        _ => false,
    }
}

/// A string member of a tool input, empty where absent.
fn member_text_or_empty(input: &str, key: &str) -> (r: String)
    ensures
        r@ == member_or_empty(input@, key@),
{
    match string_member(input, key) {
        Some(v) => v,
        None => String::new(),
    }
}

impl TurnBuilder {
    pub fn new() -> (r: Self)
        ensures
            r@ == empty_builder(),
    {
        let r = TurnBuilder { turns: Vec::new(), current_turn: None };
        assert(turns_model(r.turns@) =~= Seq::empty());
        r
    }

    /// Moves the current turn, if any, to the committed turns.
    fn commit_turn(&mut self)
        ensures
            final(self)@ == commit(old(self)@),
    {
        if let Some(turn) = self.current_turn.take() {
            let ghost before = turns_model(self.turns@);
            self.turns.push(turn);
            assert(turns_model(self.turns@) =~= before.push(turn@));
        }
    }

    /// Whether the current turn exists and is of the given kind.
    fn current_is(&self, user: bool) -> (r: bool)
        ensures
            r == (self@.current is Some && self@.current->0.user == user),
    {
        match &self.current_turn {
            Some(UiTurn::UserTurn { .. }) => user,
            Some(UiTurn::AgentTurn { .. }) => !user,
            None => false,
        }
    }

    fn start_turn(&mut self, user: bool)
        ensures
            final(self)@ == start_turn(old(self)@, user),
    {
        if !self.current_is(user) {
            self.commit_turn();
            let t = if user {
                UiTurn::UserTurn { events: Vec::new() }
            } else {
                UiTurn::AgentTurn { events: Vec::new() }
            };
            assert(ui_events_model(Seq::<UiEvent>::empty()) =~= Seq::empty());
            self.current_turn = Some(t);
        }
    }

    fn start_user_turn(&mut self)
        ensures
            final(self)@ == start_turn(old(self)@, true),
    {
        self.start_turn(true);
    }

    fn start_agent_turn(&mut self)
        ensures
            final(self)@ == start_turn(old(self)@, false),
    {
        self.start_turn(false);
    }

    /// Adds an entry to the current turn.
    fn push_entry(&mut self, e: UiEvent)
        ensures
            final(self)@ == push_entry(old(self)@, e@),
    {
        match self.current_turn.take() {
            Some(UiTurn::UserTurn { mut events }) => {
                let ghost before = ui_events_model(events@);
                events.push(e);
                assert(ui_events_model(events@) =~= before.push(e@));
                self.current_turn = Some(UiTurn::UserTurn { events });
            },
            Some(UiTurn::AgentTurn { mut events }) => {
                let ghost before = ui_events_model(events@);
                events.push(e);
                assert(ui_events_model(events@) =~= before.push(e@));
                self.current_turn = Some(UiTurn::AgentTurn { events });
            },
            None => {},
        }
    }

    pub fn add_event(&mut self, event: &ConversationEvent)
        ensures
            final(self)@ == add_event(old(self)@, event@),
    {
        match event {
            ConversationEvent::UserMessage { content } => {
                self.add_user_message(content.as_str());
            },
            ConversationEvent::Text { content } => {
                self.add_agent_text(content.as_str());
            },
            ConversationEvent::ToolCall { id, name, input } => {
                if text_eq(name.as_str(), "suggest_command") {
                    self.add_suggested_command(input.as_str());
                } else {
                    self.add_tool_call(id.as_str(), name.as_str(), input.as_str());
                }
            },
            ConversationEvent::ToolResult { tool_use_id, content, is_error } => {
                self.add_tool_result(tool_use_id.as_str(), content.as_str(), *is_error);
            },
        }
    }

    fn add_user_message(&mut self, content: &str)
        ensures
            final(self)@ == push_entry(
                start_turn(old(self)@, true),
                UiEventModel::Text { content: content@ },
            ),
    {
        self.start_user_turn();
        self.push_entry(UiEvent::Text { content: content.to_owned() });
    }

    fn add_agent_text(&mut self, content: &str)
        ensures
            final(self)@ == push_entry(
                start_turn(old(self)@, false),
                UiEventModel::Text { content: content@ },
            ),
    {
        self.start_agent_turn();
        self.push_entry(UiEvent::Text { content: content.to_owned() });
    }

    fn add_suggested_command(&mut self, input: &str)
        ensures
            final(self)@ == (if member_or_empty(input@, "command"@).len() == 0 {
                old(self)@
            } else {
                push_entry(start_turn(old(self)@, false), suggestion_entry(input@))
            }),
    {
        let command = member_text_or_empty(input, "command");
        if command.as_str().unicode_len() == 0 {
            return;
        }
        self.start_agent_turn();
        let entry = UiEvent::SuggestedCommand {
            command: member_text_or_empty(input, "command"),
            danger_level: member_text_or_empty(input, "danger"),
            danger_notes: member_text_or_empty(input, "danger_notes"),
            confidence_level: member_text_or_empty(input, "confidence"),
            confidence_notes: member_text_or_empty(input, "confidence_notes"),
        };
        self.push_entry(entry);
    }

    fn add_tool_call(&mut self, id: &str, name: &str, input: &str)
        ensures
            final(self)@ == push_entry(
                start_turn(old(self)@, false),
                UiEventModel::ToolCall {
                    tool_use_id: id@,
                    name: name@,
                    input: input@,
                    status: ToolResultStatus::Pending,
                },
            ),
    {
        self.start_agent_turn();
        self.push_entry(
            UiEvent::ToolCall {
                tool_use_id: id.to_owned(),
                name: name.to_owned(),
                input: input.to_owned(),
                status: ToolResultStatus::Pending,
            },
        );
    }

    fn add_tool_result(&mut self, tool_use_id: &str, _content: &str, is_error: bool)
        ensures
            final(self)@ == mark_result(start_turn(old(self)@, false), tool_use_id@, is_error),
    {
        self.start_agent_turn();
        let status = if is_error {
            ToolResultStatus::Error
        } else {
            ToolResultStatus::Success
        };
        match self.current_turn.take() {
            Some(UiTurn::AgentTurn { mut events }) => {
                let ghost evs = ui_events_model(events@);
                let n = events.len();
                let mut i: usize = 0;
                while i < n && !entry_is_call(&events[i], tool_use_id)
                    invariant
                        i <= n,
                        n == events@.len(),
                        evs == ui_events_model(events@),
                        forall|t: int| 0 <= t < i ==> !is_call_with_id(#[trigger] evs[t], tool_use_id@),
                    decreases n - i,
                {
                    i = i + 1;
                }
                proof {
                    lemma_first_call_index(evs, tool_use_id@, i as int);
                }
                if i < n {
                    let updated = entry_with_status(&events[i], status);
                    events.set(i, updated);
                    assert(ui_events_model(events@) =~= evs.update(i as int, updated@));
                }
                self.current_turn = Some(UiTurn::AgentTurn { events });
            },
            other => {
                self.current_turn = other;
            },
        }
    }

    pub fn build(&mut self) -> (r: Vec<UiTurn>)
        ensures
            turns_model(r@) == commit(old(self)@).turns,
            final(self)@ == empty_builder(),
    {
        self.commit_turn();
        let mut out = Vec::new();
        std::mem::swap(&mut out, &mut self.turns);
        assert(turns_model(self.turns@) =~= Seq::empty());
        out
    }
}

/// Build the turns shown for a conversation.
pub fn build_turns(events: &Vec<ConversationEvent>) -> (r: Vec<UiTurn>)
    ensures
        turns_model(r@) == turns_of(events_model(events@)),
{
    let ghost es = events_model(events@);
    let mut builder = TurnBuilder::new();
    let n = events.len();
    let mut i: usize = 0;
    assert(es.take(0) =~= Seq::<EventModel>::empty());
    while i < n
        invariant
            i <= n,
            n == es.len(),
            es == events_model(events@),
            builder@ == builder_after(es.take(i as int)),
        decreases n - i,
    {
        assert(es.take(i + 1).drop_last() =~= es.take(i as int));
        assert(es.take(i + 1).last() == events@[i as int]@);
        builder.add_event(&events[i]);
        i = i + 1;
    }
    assert(es.take(n as int) =~= es);
    builder.build()
}

/// The prompt marker shown before a suggested command: `! ` for a command
/// whose danger level asks for a confirmation, `$ ` otherwise.
pub open spec fn marker_for(danger_level: Seq<char>) -> Seq<char> {
    if danger_is_elevated(danger_level) {
        "! "@
    } else {
        "$ "@
    }
}

/// The prompt marker shown before a suggested command.
pub fn command_marker(danger_level: &str) -> (r: &'static str)
    ensures
        r@ == marker_for(danger_level@),
{
    if is_elevated_danger(danger_level) {
        "! "
    } else {
        "$ "
    }
}

} // verus!
