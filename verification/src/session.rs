//! Decisions of the inline assistant session: what a key press does to the
//! state and to the chat stream, what the shell is told at the end, and the
//! small choices made before the session starts.

use vstd::prelude::*;
use vstd::string::*;

use crate::keys::{Key, KeyPress};
use crate::messages::{ApiMessage, MessageModel, messages_model, messages_of};
use crate::queries::{command_is_dangerous, latest_command};
use crate::state::{
    AppMode, AppState, AppStateModel, EventModel, ExitAction, ExitModel, events_model, opt_exit,
};
use crate::text::{is_blank, opt_view, trim_start};

verus! {

/// What the event loop does after a key press.
#[derive(Debug)]
pub enum LoopAction {
    /// Keep running
    Continue,
    /// Leave the event loop
    Exit,
    /// Start a chat stream with these messages and session
    StartStream { messages: Vec<ApiMessage>, session_id: Option<String> },
    /// Abort the chat stream that is running
    AbortStream,
}

/// Mathematical view of a [`LoopAction`].
pub enum LoopActionModel {
    Continue,
    Exit,
    StartStream { messages: Seq<MessageModel>, session_id: Option<Seq<char>> },
    AbortStream,
}

impl View for LoopAction {
    type V = LoopActionModel;

    open spec fn view(&self) -> LoopActionModel {
        match self {
            LoopAction::Continue => LoopActionModel::Continue,
            LoopAction::Exit => LoopActionModel::Exit,
            LoopAction::StartStream { messages, session_id } => LoopActionModel::StartStream {
                messages: messages_model(messages@),
                session_id: opt_view(*session_id),
            },
            LoopAction::AbortStream => LoopActionModel::AbortStream,
        }
    }
}

/// Leaving with an exit action: the input box is hidden on the final render.
pub open spec fn exit_with(m: AppStateModel, a: ExitModel) -> (AppStateModel, LoopActionModel) {
    (AppStateModel { exit_action: Some(a), exiting: true, ..m }, LoopActionModel::Exit)
}

/// Starting a stream from a state that is about to stream.
pub open spec fn stream_from(generating: AppStateModel) -> (AppStateModel, LoopActionModel) {
    let s = generating.start_streaming();
    (
        s,
        LoopActionModel::StartStream {
            messages: messages_of(generating.events),
            session_id: s.session_id,
        },
    )
}

/// The state without a pending confirmation.
pub open spec fn unconfirmed(m: AppStateModel) -> AppStateModel {
    AppStateModel { confirmation_pending: false, ..m }
}

/// What a key press does: the next state and the action of the event loop.
pub open spec fn key_step(m: AppStateModel, k: KeyPress) -> (AppStateModel, LoopActionModel) {
    if !k.press {
        (m, LoopActionModel::Continue)
    } else if k.ctrl && k.code == Key::Char('c') {
        exit_with(m, ExitModel::Cancel)
    } else {
        match m.mode {
            AppMode::Input => if k.code == Key::Esc {
                exit_with(m, ExitModel::Cancel)
            } else if k.code == Key::Enter {
                if is_blank(m.input) {
                    exit_with(m, ExitModel::Cancel)
                } else {
                    stream_from(m.start_generating())
                }
            } else {
                (m, LoopActionModel::Continue)
            },
            AppMode::Generating => if k.code == Key::Esc {
                (m.cancel_generation(), LoopActionModel::AbortStream)
            } else {
                (m, LoopActionModel::Continue)
            },
            AppMode::Streaming => if k.code == Key::Esc {
                (m.cancel_streaming(), LoopActionModel::AbortStream)
            } else {
                (m, LoopActionModel::Continue)
            },
            AppMode::Review => if k.code == Key::Esc {
                exit_with(unconfirmed(m), ExitModel::Cancel)
            } else if k.code == Key::Enter {
                match latest_command(m.events) {
                    Some(cmd) => if command_is_dangerous(m.events) && !m.confirmation_pending {
                        (AppStateModel { confirmation_pending: true, ..m }, LoopActionModel::Continue)
                    } else {
                        exit_with(unconfirmed(m), ExitModel::Execute(cmd))
                    },
                    None => (m, LoopActionModel::Continue),
                }
            } else if k.code == Key::Tab {
                match latest_command(m.events) {
                    Some(cmd) => exit_with(unconfirmed(m), ExitModel::Insert(cmd)),
                    None => (m, LoopActionModel::Continue),
                }
            } else if k.code == Key::Char('f') {
                (unconfirmed(m).start_edit_mode(), LoopActionModel::Continue)
            } else {
                (m, LoopActionModel::Continue)
            },
            AppMode::Error => if k.code == Key::Esc {
                exit_with(m, ExitModel::Cancel)
            } else if k.code == Key::Enter || k.code == Key::Char('r') {
                stream_from(m.retry())
            } else {
                (m, LoopActionModel::Continue)
            },
        }
    }
}

/// Sets the exit action and marks the application as exiting.
fn do_exit(state: &mut AppState, action: ExitAction) -> (r: LoopAction)
    ensures
        (final(state)@, r@) == exit_with(old(state)@, action@),
{
    state.exit_action = Some(action);
    state.exiting = true;
    LoopAction::Exit
}

/// Switches to streaming and hands out the request of the new stream.
fn begin_stream(state: &mut AppState) -> (r: LoopAction)
    ensures
        (final(state)@, r@) == stream_from(old(state)@),
{
    let messages = state.events_to_messages();
    state.start_streaming();
    let session_id = state.session_id.clone();
    LoopAction::StartStream { messages, session_id }
}

/// Handles a key press of the event loop (keys that the input box consumed
/// never reach it).
pub fn handle_key(state: &mut AppState, key: &KeyPress) -> (r: LoopAction)
    ensures
        (final(state)@, r@) == key_step(old(state)@, *key),
{
    if !key.press {
        return LoopAction::Continue;
    }
    if key.ctrl && key.code == Key::Char('c') {
        return do_exit(state, ExitAction::Cancel);
    }
    match state.mode {
        AppMode::Input => {
            if key.code == Key::Esc {
                do_exit(state, ExitAction::Cancel)
            } else if key.code == Key::Enter {
                if state.input_is_empty() {
                    do_exit(state, ExitAction::Cancel)
                } else {
                    state.start_generating();
                    begin_stream(state)
                }
            } else {
                LoopAction::Continue
            }
        },
        AppMode::Generating => {
            if key.code == Key::Esc {
                state.cancel_generation();
                LoopAction::AbortStream
            } else {
                LoopAction::Continue
            }
        },
        AppMode::Streaming => {
            if key.code == Key::Esc {
                state.cancel_streaming();
                LoopAction::AbortStream
            } else {
                LoopAction::Continue
            }
        },
        AppMode::Review => {
            if key.code == Key::Esc {
                state.confirmation_pending = false;
                do_exit(state, ExitAction::Cancel)
            } else if key.code == Key::Enter {
                match state.current_command() {
                    Some(cmd) => {
                        if state.is_current_command_dangerous() && !state.confirmation_pending {
                            state.confirmation_pending = true;
                            LoopAction::Continue
                        } else {
                            state.confirmation_pending = false;
                            do_exit(state, ExitAction::Execute(cmd))
                        }
                    },
                    None => LoopAction::Continue,
                }
            } else if key.code == Key::Tab {
                match state.current_command() {
                    Some(cmd) => {
                        state.confirmation_pending = false;
                        do_exit(state, ExitAction::Insert(cmd))
                    },
                    None => LoopAction::Continue,
                }
            } else if key.code == Key::Char('f') {
                state.confirmation_pending = false;
                state.start_edit_mode();
                LoopAction::Continue
            } else {
                LoopAction::Continue
            }
        },
        AppMode::Error => {
            if key.code == Key::Esc {
                do_exit(state, ExitAction::Cancel)
            } else if key.code == Key::Enter || key.code == Key::Char('r') {
                state.retry();
                begin_stream(state)
            } else {
                LoopAction::Continue
            }
        },
    }
}

/// Ctrl+C always exits, cancelling, whatever the mode.
pub proof fn law_ctrl_c_cancels(m: AppStateModel, k: KeyPress)
    requires
        k.press,
        k.ctrl,
        k.code == Key::Char('c'),
    ensures
        key_step(m, k).1 == LoopActionModel::Exit,
        key_step(m, k).0.exit_action == Some(ExitModel::Cancel),
        key_step(m, k).0.exiting,
{
}

/// A dangerous command is only executed after a confirmation: the first Enter
/// in review asks for it and does not exit, the second executes the command.
pub proof fn law_dangerous_command_needs_confirmation(m: AppStateModel, enter: KeyPress)
    requires
        m.mode == AppMode::Review,
        !m.confirmation_pending,
        latest_command(m.events) is Some,
        command_is_dangerous(m.events),
        enter.press,
        enter.code == Key::Enter,
    ensures
        key_step(m, enter).1 == LoopActionModel::Continue,
        key_step(m, enter).0.confirmation_pending,
        key_step(m, enter).0.exit_action == m.exit_action,
        key_step(key_step(m, enter).0, enter).1 == LoopActionModel::Exit,
        key_step(key_step(m, enter).0, enter).0.exit_action == Some(
            ExitModel::Execute(latest_command(m.events)->0),
        ),
{
}

/// Retrying after an error sends the same conversation again, in the same
/// session, and clears the error.
pub proof fn law_retry_resends_conversation(m: AppStateModel, k: KeyPress)
    requires
        m.mode == AppMode::Error,
        k.press,
        !k.ctrl,
        k.code == Key::Enter || k.code == Key::Char('r'),
    ensures
        key_step(m, k).1 == (LoopActionModel::StartStream {
            messages: messages_of(m.events),
            session_id: m.session_id,
        }),
        key_step(m, k).0.events == m.events,
        key_step(m, k).0.error is None,
        key_step(m, k).0.mode == AppMode::Streaming,
{
}

/// Esc never runs or inserts anything: in input, review and error mode it
/// exits with the cancel action (whatever the conversation holds), and while
/// an answer is on its way it aborts the stream and returns to input without
/// exiting.
pub proof fn law_escape_cancels(m: AppStateModel, esc: KeyPress)
    requires
        esc.press,
        !esc.ctrl,
        esc.code == Key::Esc,
    ensures
        (m.mode == AppMode::Input || m.mode == AppMode::Review || m.mode == AppMode::Error) ==> {
            &&& key_step(m, esc).1 == LoopActionModel::Exit
            &&& key_step(m, esc).0.exit_action == Some(ExitModel::Cancel)
            &&& key_step(m, esc).0.exiting
            &&& key_step(m, esc).0.events == m.events
        },
        (m.mode == AppMode::Generating || m.mode == AppMode::Streaming) ==> {
            &&& key_step(m, esc).1 == LoopActionModel::AbortStream
            &&& key_step(m, esc).0.mode == AppMode::Input
            &&& key_step(m, esc).0.exit_action == m.exit_action
            &&& !key_step(m, esc).0.exiting || m.exiting
        },
        m.mode == AppMode::Generating ==> key_step(m, esc).0.events == (if m.events.len() > 0
            && m.events.last() is UserMessage {
            m.events.drop_last()
        } else {
            m.events
        }),
        m.mode == AppMode::Streaming ==> {
            &&& key_step(m, esc).0.was_interrupted
            &&& key_step(m, esc).0.streaming_text.len() == 0
            &&& key_step(m, esc).0.events == if trim_start(m.streaming_text).len() > 0 {
                m.events.push(
                    EventModel::Text {
                        content: trim_start(m.streaming_text)
                            + "\n\n[User cancelled this generation]"@,
                    },
                )
            } else {
                m.events
            }
        },
{
}

/// In review, Tab inserts the current command into the prompt, dangerous or
/// not, without asking for a confirmation; with no command it does nothing.
pub proof fn law_tab_inserts_current_command(m: AppStateModel, tab: KeyPress)
    requires
        m.mode == AppMode::Review,
        tab.press,
        !tab.ctrl,
        tab.code == Key::Tab,
    ensures
        latest_command(m.events) matches Some(c) ==> {
            &&& key_step(m, tab).1 == LoopActionModel::Exit
            &&& key_step(m, tab).0.exit_action == Some(ExitModel::Insert(c))
            &&& key_step(m, tab).0.exiting
        },
        latest_command(m.events) is None ==> key_step(m, tab) == (m, LoopActionModel::Continue),
{
}

/// In review, Enter runs a command that is not dangerous at once, and runs a
/// dangerous one once the confirmation is pending; with no command it does
/// nothing.
pub proof fn law_enter_executes(m: AppStateModel, enter: KeyPress)
    requires
        m.mode == AppMode::Review,
        enter.press,
        !enter.ctrl,
        enter.code == Key::Enter,
    ensures
        latest_command(m.events) is Some && (!command_is_dangerous(m.events)
            || m.confirmation_pending) ==> {
            &&& key_step(m, enter).1 == LoopActionModel::Exit
            &&& key_step(m, enter).0.exit_action == Some(
                ExitModel::Execute(latest_command(m.events)->0),
            )
            &&& !key_step(m, enter).0.confirmation_pending
        },
        latest_command(m.events) is None ==> key_step(m, enter) == (m, LoopActionModel::Continue),
{
}

/// In review, `f` goes back to the input for a follow-up: the conversation is
/// kept, the input and any pending confirmation are cleared, nothing exits.
pub proof fn law_follow_up(m: AppStateModel, f: KeyPress)
    requires
        m.mode == AppMode::Review,
        f.press,
        !f.ctrl,
        f.code == Key::Char('f'),
    ensures
        key_step(m, f).1 == LoopActionModel::Continue,
        key_step(m, f).0.mode == AppMode::Input,
        key_step(m, f).0.events == m.events,
        key_step(m, f).0.input.len() == 0,
        !key_step(m, f).0.confirmation_pending,
        key_step(m, f).0.exit_action == m.exit_action,
{
}

/// In input, Enter on a prompt that is not blank sends it: the prompt is
/// appended to the conversation as a user message, the whole conversation is
/// sent in the session, and the state streams with the input cleared. Enter
/// on a blank prompt exits with the cancel action.
pub proof fn law_enter_sends_prompt(m: AppStateModel, enter: KeyPress)
    requires
        m.mode == AppMode::Input,
        enter.press,
        !enter.ctrl,
        enter.code == Key::Enter,
    ensures
        !is_blank(m.input) ==> {
            let sent = m.events.push(EventModel::UserMessage { content: m.input });
            &&& key_step(m, enter).1 == (LoopActionModel::StartStream {
                messages: messages_of(sent),
                session_id: m.session_id,
            })
            &&& key_step(m, enter).0.events == sent
            &&& key_step(m, enter).0.mode == AppMode::Streaming
            &&& key_step(m, enter).0.input.len() == 0
            &&& key_step(m, enter).0.streaming_text.len() == 0
        },
        is_blank(m.input) ==> {
            &&& key_step(m, enter).1 == LoopActionModel::Exit
            &&& key_step(m, enter).0.exit_action == Some(ExitModel::Cancel)
            &&& key_step(m, enter).0.events == m.events
        },
{
}

/// Only the most recent suggested command is ever executed or inserted.
pub proof fn law_exit_uses_current_command(m: AppStateModel, k: KeyPress)
    requires
        m.exit_action is None,
    ensures
        key_step(m, k).0.exit_action matches Some(ExitModel::Execute(c)) ==> latest_command(
            m.events,
        ) == Some(c),
        key_step(m, k).0.exit_action matches Some(ExitModel::Insert(c)) ==> latest_command(
            m.events,
        ) == Some(c),
{
}

/// Interrupting an answer keeps the context: after a message is sent, Esc
/// before any text arrived returns to input with the user's message kept in
/// the conversation, and the turn marked as interrupted.
pub proof fn law_interrupt_keeps_message(m: AppStateModel, enter: KeyPress, esc: KeyPress)
    requires
        m.mode == AppMode::Input,
        !is_blank(m.input),
        enter.press && !enter.ctrl && enter.code == Key::Enter,
        esc.press && !esc.ctrl && esc.code == Key::Esc,
    ensures
        key_step(key_step(m, enter).0, esc).0.events == m.events.push(
            EventModel::UserMessage { content: m.input },
        ),
        key_step(key_step(m, enter).0, esc).0.mode == AppMode::Input,
        key_step(key_step(m, enter).0, esc).0.was_interrupted,
        key_step(key_step(m, enter).0, esc).1 == LoopActionModel::AbortStream,
{
    let s = key_step(m, enter).0;
    assert(s.mode == AppMode::Streaming);
    assert(s.streaming_text.len() == 0);
    crate::text::lemma_leading_bound(s.streaming_text);
}

/// What the shell is told when the session ends.
#[derive(Debug, Clone, PartialEq, Eq)]
pub enum Action {
    Execute(String),
    Insert(String),
    Print(String),
    Cancel,
}

/// Mathematical view of an [`Action`].
pub enum ActionModel {
    Execute(Seq<char>),
    Insert(Seq<char>),
    Print(Seq<char>),
    Cancel,
}

impl View for Action {
    type V = ActionModel;

    open spec fn view(&self) -> ActionModel {
        match self {
            Action::Execute(c) => ActionModel::Execute(c@),
            Action::Insert(c) => ActionModel::Insert(c@),
            Action::Print(t) => ActionModel::Print(t@),
            Action::Cancel => ActionModel::Cancel,
        }
    }
}

/// The shell action for the exit action the session ended with.
pub open spec fn action_of_exit(e: Option<ExitModel>) -> ActionModel {
    match e {
        Some(ExitModel::Execute(c)) => ActionModel::Execute(c),
        Some(ExitModel::Insert(c)) => ActionModel::Insert(c),
        _ => ActionModel::Cancel,
    }
}

/// Maps the exit action of the session to the shell action.
pub fn action_for_exit(exit: &Option<ExitAction>) -> (r: Action)
    ensures
        r@ == action_of_exit(opt_exit(*exit)),
{
    match exit {
        Some(ExitAction::Execute(cmd)) => Action::Execute(cmd.clone()),
        Some(ExitAction::Insert(cmd)) => Action::Insert(cmd.clone()),
        _ => Action::Cancel,
    }
}

/// The line written for the shell (to standard error): tagged for the shell
/// hook, or the bare text otherwise.
pub open spec fn shell_line(a: ActionModel, for_hook: bool) -> Seq<char> {
    if for_hook {
        match a {
            ActionModel::Execute(o) => "__atuin_ai_execute__:"@ + o,
            ActionModel::Insert(o) => "__atuin_ai_insert__:"@ + o,
            ActionModel::Print(o) => "__atuin_ai_print__:"@ + o,
            ActionModel::Cancel => "__atuin_ai_cancel__"@,
        }
    } else {
        match a {
            ActionModel::Execute(o) => o,
            ActionModel::Insert(o) => o,
            ActionModel::Print(o) => o,
            ActionModel::Cancel => Seq::empty(),
        }
    }
}

/// The line that reports the result of the session to the shell.
pub fn shell_result_line(action: &Action, output_for_hook: bool) -> (r: String)
    ensures
        r@ == shell_line(action@, output_for_hook),
{
    if output_for_hook {
        match action {
            Action::Execute(o) => {
                let mut r = "__atuin_ai_execute__:".to_owned();
                r.append(o.as_str());
                r
            },
            Action::Insert(o) => {
                let mut r = "__atuin_ai_insert__:".to_owned();
                r.append(o.as_str());
                r
            },
            Action::Print(o) => {
                let mut r = "__atuin_ai_print__:".to_owned();
                r.append(o.as_str());
                r
            },
            Action::Cancel => "__atuin_ai_cancel__".to_owned(),
        }
    } else {
        match action {
            Action::Execute(o) => o.clone(),
            Action::Insert(o) => o.clone(),
            Action::Print(o) => o.clone(),
            Action::Cancel => String::new(),
        }
    }
}

/// The notice printed when the assistant is disabled in the settings.
pub open spec fn disabled_notice() -> Seq<char> {
    "Atuin AI is not enabled. Please enable it in your settings or run `atuin setup`."@
}

/// The action taken instead of a session when the assistant is not enabled
/// (an unset setting counts as disabled); `None` when a session may start.
pub fn disabled_action(enabled: Option<bool>) -> (r: Option<Action>)
    ensures
        match r {
            Some(a) => a@ == ActionModel::Print(disabled_notice()) && !(enabled == Some(true)),
            None => enabled == Some(true),
        },
{
    let on = match enabled {
        Some(b) => b,
        None => false,
    };
    if !on {
        Some(
            Action::Print(
                "Atuin AI is not enabled. Please enable it in your settings or run `atuin setup`.".to_owned(),
            ),
        )
    } else {
        None
    }
}

/// The answer to the login prompt that a key gives: Enter begins, Esc
/// cancels, other keys are ignored.
pub fn login_choice(code: Key) -> (r: Option<bool>)
    ensures
        r == (if code == Key::Enter {
            Some(true)
        } else if code == Key::Esc {
            Some(false)
        } else {
            None::<bool>
        }),
{
    match code {
        Key::Enter => Some(true),
        Key::Esc => Some(false),
        _ => None,
    }
}

impl AppState {
    /// Evict the oldest message when content scrolls into terminal scrollback
    pub fn evict_oldest_event(&mut self)
        ensures
            final(self)@ == (AppStateModel {
                events: if old(self)@.events.len() > 0 {
                    old(self)@.events.drop_first()
                } else {
                    old(self)@.events
                },
                ..old(self)@
            }),
    {
        if self.events.len() > 0 {
            let _ = self.events.remove(0);
            assert(events_model(self.events@) =~= events_model(old(self).events@).drop_first());
        }
    }
}

} // verus!
