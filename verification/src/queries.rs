//! Queries over the conversation: the suggested command, its danger, the tool
//! activity since the last user message and the footer hints.

use vstd::prelude::*;

use crate::json::{json_string_member, string_member};
use crate::state::{
    AppMode, AppState, AppStateModel, ConversationEvent, EventModel, suggest_command_name,
};
use crate::text::{opt_view, text_eq};

verus! {

/// The command proposed by an event: the `command` string of the input of a
/// `suggest_command` tool call.
pub open spec fn command_of(e: EventModel) -> Option<Seq<char>> {
    match e {
        EventModel::ToolCall { name, input, .. } => if name == suggest_command_name() {
            json_string_member(input, "command"@)
        } else {
            None
        },
        _ => None,
    }
}

/// The most recent command proposed in `es`.
pub open spec fn latest_command(es: Seq<EventModel>) -> Option<Seq<char>>
    decreases es.len(),
{
    if es.len() == 0 {
        None
    } else if command_of(es.last()) is Some {
        command_of(es.last())
    } else {
        latest_command(es.drop_last())
    }
}

/// The input of an event if it is a `suggest_command` tool call.
pub open spec fn suggestion_input(e: EventModel) -> Option<Seq<char>> {
    match e {
        EventModel::ToolCall { name, input, .. } => if name == suggest_command_name() {
            Some(input)
        } else {
            None
        },
        _ => None,
    }
}

/// The input of the most recent `suggest_command` tool call in `es`.
pub open spec fn latest_suggestion_input(es: Seq<EventModel>) -> Option<Seq<char>>
    decreases es.len(),
{
    if es.len() == 0 {
        None
    } else if suggestion_input(es.last()) is Some {
        suggestion_input(es.last())
    } else {
        latest_suggestion_input(es.drop_last())
    }
}

/// Danger levels that ask for a confirmation.
pub open spec fn danger_is_elevated(level: Seq<char>) -> bool {
    level == "high"@ || level == "medium"@ || level == "med"@
}

/// The danger level of a suggestion input; `low` where none is given.
pub open spec fn danger_level_of(input: Seq<char>) -> Seq<char> {
    match json_string_member(input, "danger"@) {
        Some(d) => d,
        None => "low"@,
    }
}

/// Whether the most recent suggestion is marked dangerous.
pub open spec fn command_is_dangerous(es: Seq<EventModel>) -> bool {
    match latest_suggestion_input(es) {
        Some(input) => danger_is_elevated(danger_level_of(input)),
        None => false,
    }
}

/// Whether any event of `es` proposes a command.
pub open spec fn any_command(es: Seq<EventModel>) -> bool {
    exists|i: int| 0 <= i < es.len() && (#[trigger] command_of(es[i])) is Some
}

/// There is a command to run exactly when some event proposes one: the
/// footer's "any command" and the current command agree on whether one exists.
pub proof fn law_any_command_iff_current(es: Seq<EventModel>)
    ensures
        any_command(es) <==> latest_command(es) is Some,
    decreases es.len(),
{
    if es.len() > 0 {
        law_any_command_iff_current(es.drop_last());
        let p = es.drop_last();
        if any_command(p) {
            let i = choose|i: int| 0 <= i < p.len() && (#[trigger] command_of(p[i])) is Some;
            assert(es[i] == p[i]);
        }
        if any_command(es) && command_of(es.last()) is None {
            let i = choose|i: int| 0 <= i < es.len() && (#[trigger] command_of(es[i])) is Some;
            assert(i < es.len() - 1);
            assert(p[i] == es[i]);
        }
        if command_of(es.last()) is Some {
            assert(command_of(es[es.len() - 1]) is Some);
        }
    }
}

/// Index of the last user message of `es`, or -1.
pub open spec fn last_user_index(es: Seq<EventModel>) -> int
    decreases es.len(),
{
    if es.len() == 0 {
        -1
    } else if es.last() is UserMessage {
        es.len() - 1
    } else {
        last_user_index(es.drop_last())
    }
}

/// Where the tool count starts: the last user message, or the beginning.
pub open spec fn count_start(es: Seq<EventModel>) -> int {
    if last_user_index(es) < 0 {
        0
    } else {
        last_user_index(es)
    }
}

/// Whether an event is a tool call other than `suggest_command`.
pub open spec fn is_work_call(e: EventModel) -> bool {
    match e {
        EventModel::ToolCall { name, .. } => name != suggest_command_name(),
        _ => false,
    }
}

/// Number of tool calls other than `suggest_command` in `es`.
pub open spec fn work_calls(es: Seq<EventModel>) -> nat
    decreases es.len(),
{
    if es.len() == 0 {
        0
    } else {
        work_calls(es.drop_last()) + if is_work_call(es.last()) { 1nat } else { 0nat }
    }
}

/// Tool calls other than `suggest_command` since the last user message.
pub open spec fn tool_count(es: Seq<EventModel>) -> nat {
    work_calls(es.skip(count_start(es)))
}

/// The keybinding hints shown for a state.
pub open spec fn footer(m: AppStateModel) -> Seq<char> {
    match m.mode {
        AppMode::Input => "[Enter] Send  [Esc] Exit"@,
        AppMode::Generating | AppMode::Streaming => "[Esc] Cancel"@,
        AppMode::Review => if m.confirmation_pending {
            "[Enter] Confirm dangerous command  [Esc] Cancel"@
        } else if any_command(m.events) {
            "[Enter] Execute  [Tab] Insert  [f] Follow-up  [Esc] Exit"@
        } else {
            "[f] Follow-up  [Esc] Exit"@
        },
        AppMode::Error => "[Enter]/[r] Retry  [Esc] Exit"@,
    }
}

/// Whether a danger level asks for a confirmation (`high`, `medium`, `med`).
pub fn is_elevated_danger(level: &str) -> (r: bool)
    ensures
        r == danger_is_elevated(level@),
{
    text_eq(level, "high") || text_eq(level, "medium") || text_eq(level, "med")
}

/// Whether an event is a tool call other than `suggest_command`.
fn is_work_call_event(e: &ConversationEvent) -> (r: bool)
    ensures
        r == is_work_call(e@),
{
    match e {
        ConversationEvent::ToolCall { name, .. } => !text_eq(name.as_str(), "suggest_command"),
        _ => false,
    }
}

/// Whether an event is a user message.
fn is_user_message(e: &ConversationEvent) -> (r: bool)
    ensures
        r == e@ is UserMessage,
{
    match e {
        ConversationEvent::UserMessage { .. } => true,
        _ => false,
    }
}

impl ConversationEvent {
    /// Extract command from a suggest_command tool call
    pub fn as_command(&self) -> (r: Option<String>)
        ensures
            opt_view(r) == command_of(self@),
    {
        match self {
            ConversationEvent::ToolCall { name, input, .. } => {
                if text_eq(name.as_str(), "suggest_command") {
                    string_member(input.as_str(), "command")
                } else {
                    None
                }
            },
            _ => None,
        }
    }
}

impl AppState {
    /// Get the most recent command from events
    pub fn current_command(&self) -> (r: Option<String>)
        ensures
            opt_view(r) == latest_command(self@.events),
    {
        let ghost es = self@.events;
        let mut i = self.events.len();
        assert(es.take(i as int) =~= es);
        while i > 0
            invariant
                i <= self.events.len(),
                es == self@.events,
                latest_command(es) == latest_command(es.take(i as int)),
            decreases i,
        {
            let c = self.events[i - 1].as_command();
            assert(es.take(i as int).last() == self.events@[i - 1]@);
            assert(es.take(i as int).drop_last() =~= es.take(i - 1));
            if c.is_some() {
                return c;
            }
            i = i - 1;
        }
        None
    }

    /// Check if the most recent command is marked dangerous
    pub fn is_current_command_dangerous(&self) -> (r: bool)
        ensures
            r == command_is_dangerous(self@.events),
    {
        let ghost es = self@.events;
        let mut i = self.events.len();
        assert(es.take(i as int) =~= es);
        while i > 0
            invariant
                i <= self.events.len(),
                es == self@.events,
                latest_suggestion_input(es) == latest_suggestion_input(es.take(i as int)),
            decreases i,
        {
            assert(es.take(i as int).last() == self.events@[i - 1]@);
            assert(es.take(i as int).drop_last() =~= es.take(i - 1));
            match &self.events[i - 1] {
                ConversationEvent::ToolCall { name, input, .. } => {
                    if text_eq(name.as_str(), "suggest_command") {
                        let level = string_member(input.as_str(), "danger");
                        return match level {
                            Some(d) => is_elevated_danger(d.as_str()),
                            None => is_elevated_danger("low"),
                        };
                    }
                },
                _ => {},
            }
            i = i - 1;
        }
        false
    }

    /// Count non-suggest_command tool calls since the last user message
    pub fn tool_count_since_last_user(&self) -> (r: usize)
        ensures
            r == tool_count(self@.events),
    {
        let ghost es = self@.events;
        let n = self.events.len();
        // position of the last user message
        let mut j = n;
        assert(es.take(j as int) =~= es);
        while j > 0 && !is_user_message(&self.events[j - 1])
            invariant
                j <= n,
                n == es.len(),
                es == self@.events,
                last_user_index(es) == last_user_index(es.take(j as int)),
            decreases j,
        {
            assert(es.take(j as int).last() == self.events@[j - 1]@);
            assert(es.take(j as int).drop_last() =~= es.take(j - 1));
            j = j - 1;
        }
        let start: usize = if j == 0 {
            0
        } else {
            j - 1
        };
        if j > 0 {
            assert(es.take(j as int).last() == self.events@[j - 1]@);
        }
        assert(count_start(es) == start);
        let ghost tail = es.skip(start as int);
        let mut count: usize = 0;
        let mut k = start;
        assert(tail.take(0) =~= Seq::<EventModel>::empty());
        while k < n
            invariant
                start <= k <= n,
                n == es.len(),
                es == self@.events,
                tail == es.skip(start as int),
                count as nat == work_calls(tail.take(k - start)),
                count <= k - start,
            decreases n - k,
        {
            assert(tail.take(k + 1 - start).drop_last() =~= tail.take(k - start));
            assert(tail.take(k + 1 - start).last() == self.events@[k as int]@);
            if is_work_call_event(&self.events[k]) {
                count = count + 1;
            }
            k = k + 1;
        }
        assert(tail.take(n - start) =~= tail);
        count
    }

    /// Check if any turn in the conversation has a command
    pub fn has_any_command(&self) -> (r: bool)
        ensures
            r == any_command(self@.events),
    {
        let ghost es = self@.events;
        let n = self.events.len();
        let mut i: usize = 0;
        while i < n
            invariant
                i <= n,
                n == es.len(),
                es == self@.events,
                forall|j: int| 0 <= j < i ==> (#[trigger] command_of(es[j])) is None,
            decreases n - i,
        {
            let c = self.events[i].as_command();
            assert(es[i as int] == self.events@[i as int]@);
            if c.is_some() {
                return true;
            }
            i = i + 1;
        }
        false
    }

    /// The streamed text shown while an answer streams in (nothing when it is
    /// empty or nothing is streaming).
    pub fn streaming_preview(&self) -> (r: Option<String>)
        ensures
            opt_view(r) == (if self@.mode == AppMode::Streaming && self@.streaming_text.len() > 0 {
                Some(self@.streaming_text)
            } else {
                None
            }),
    {
        if self.mode == AppMode::Streaming && self.streaming_text.as_str().unicode_len() > 0 {
            Some(self.streaming_text.clone())
        } else {
            None
        }
    }

    /// The error shown in the error state.
    pub fn error_display(&self) -> (r: Option<String>)
        ensures
            opt_view(r) == (if self@.mode == AppMode::Error {
                self@.error
            } else {
                None
            }),
    {
        if self.mode == AppMode::Error {
            self.error.clone()
        } else {
            None
        }
    }

    /// Get the footer text for current mode
    pub fn footer_text(&self) -> (r: &'static str)
        ensures
            r@ == footer(self@),
    {
        match self.mode {
            AppMode::Input => "[Enter] Send  [Esc] Exit",
            AppMode::Generating | AppMode::Streaming => "[Esc] Cancel",
            AppMode::Review => {
                if self.confirmation_pending {
                    "[Enter] Confirm dangerous command  [Esc] Cancel"
                } else if self.has_any_command() {
                    "[Enter] Execute  [Tab] Insert  [f] Follow-up  [Esc] Exit"
                } else {
                    "[f] Follow-up  [Esc] Exit"
                }
            },
            AppMode::Error => "[Enter]/[r] Retry  [Esc] Exit",
        }
    }
}

} // verus!
