//! Domain state of the inline assistant.
//!
//! The conversation is stored as a sequence of events in the shape of the API
//! protocol; every lifecycle method is a transition of [`AppStateModel`], the
//! mathematical view of [`AppState`].

use vstd::prelude::*;
use vstd::string::*;

use crate::text::{
    is_blank, is_blank_str, is_white_space, leading_white_space, opt_view, text_eq, trim_start,
    trim_start_str,
};

verus! {

/// Streaming status indicators sent by the server.
#[derive(Debug, Clone, Copy, PartialEq, Eq, Structural)]
pub enum StreamingStatus {
    Processing,
    Searching,
    Thinking,
    WaitingForTools,
}

impl StreamingStatus {
    /// The status that a status word of the server stands for; any unknown
    /// word reads as thinking.
    pub open spec fn of_word(s: Seq<char>) -> StreamingStatus {
        if s == "processing"@ {
            StreamingStatus::Processing
        } else if s == "searching"@ {
            StreamingStatus::Searching
        } else if s == "waiting_for_tools"@ {
            StreamingStatus::WaitingForTools
        } else {
            StreamingStatus::Thinking
        }
    }

    /// The label shown for a status.
    pub open spec fn label(self) -> Seq<char> {
        match self {
            StreamingStatus::Processing => "Processing..."@,
            StreamingStatus::Searching => "Searching..."@,
            StreamingStatus::Thinking => "Thinking..."@,
            StreamingStatus::WaitingForTools => "Waiting for tools..."@,
        }
    }

    pub fn from_status_str(s: &str) -> (r: Self)
        ensures
            r == Self::of_word(s@),
    {
        if text_eq(s, "processing") {
            StreamingStatus::Processing
        } else if text_eq(s, "searching") {
            StreamingStatus::Searching
        } else if text_eq(s, "waiting_for_tools") {
            StreamingStatus::WaitingForTools
        } else {
            StreamingStatus::Thinking
        }
    }

    pub fn display_text(&self) -> (r: &'static str)
        ensures
            r@ == self.label(),
    {
        match self {
            StreamingStatus::Processing => "Processing...",
            StreamingStatus::Searching => "Searching...",
            StreamingStatus::Thinking => "Thinking...",
            StreamingStatus::WaitingForTools => "Waiting for tools...",
        }
    }
}

/// Conversation event types matching the API protocol. The input of a tool
/// call is held as JSON text.
#[derive(Debug, Clone)]
pub enum ConversationEvent {
    /// User message (what the user typed)
    UserMessage { content: String },
    /// Text content from assistant (streamed or complete)
    Text { content: String },
    /// Tool call from assistant
    ToolCall { id: String, name: String, input: String },
    /// Tool result (usually from server-side execution)
    ToolResult { tool_use_id: String, content: String, is_error: bool },
}

/// Mathematical view of a [`ConversationEvent`].
pub enum EventModel {
    UserMessage { content: Seq<char> },
    Text { content: Seq<char> },
    ToolCall { id: Seq<char>, name: Seq<char>, input: Seq<char> },
    ToolResult { tool_use_id: Seq<char>, content: Seq<char>, is_error: bool },
}

impl View for ConversationEvent {
    type V = EventModel;

    open spec fn view(&self) -> EventModel {
        match self {
            ConversationEvent::UserMessage { content } => EventModel::UserMessage {
                content: content@,
            },
            ConversationEvent::Text { content } => EventModel::Text { content: content@ },
            ConversationEvent::ToolCall { id, name, input } => EventModel::ToolCall {
                id: id@,
                name: name@,
                input: input@,
            },
            ConversationEvent::ToolResult { tool_use_id, content, is_error } =>
                EventModel::ToolResult {
                tool_use_id: tool_use_id@,
                content: content@,
                is_error: *is_error,
            },
        }
    }
}

/// Name of the tool through which the assistant proposes a shell command.
pub open spec fn suggest_command_name() -> Seq<char> {
    "suggest_command"@
}

impl ConversationEvent {
    /// A field-by-field copy, with the same view.
    pub fn duplicate(&self) -> (r: Self)
        ensures
            r@ == self@,
    {
        match self {
            ConversationEvent::UserMessage { content } => ConversationEvent::UserMessage {
                content: content.clone(),
            },
            ConversationEvent::Text { content } => ConversationEvent::Text {
                content: content.clone(),
            },
            ConversationEvent::ToolCall { id, name, input } => ConversationEvent::ToolCall {
                id: id.clone(),
                name: name.clone(),
                input: input.clone(),
            },
            ConversationEvent::ToolResult { tool_use_id, content, is_error } =>
                ConversationEvent::ToolResult {
                tool_use_id: tool_use_id.clone(),
                content: content.clone(),
                is_error: *is_error,
            },
        }
    }
}

#[derive(Debug, Clone, Copy, PartialEq, Eq, Structural)]
pub enum AppMode {
    /// User is typing input
    Input,
    /// Waiting for generation (showing spinner)
    Generating,
    /// Streaming SSE response
    Streaming,
    /// Reviewing generated command
    Review,
    /// Error state, can retry
    Error,
}

#[derive(Debug, Clone, PartialEq, Eq)]
pub enum ExitAction {
    /// Run the command
    Execute(String),
    /// Insert command without running
    Insert(String),
    /// User canceled
    Cancel,
}

/// Mathematical view of an [`ExitAction`].
pub enum ExitModel {
    Execute(Seq<char>),
    Insert(Seq<char>),
    Cancel,
}

impl View for ExitAction {
    type V = ExitModel;

    open spec fn view(&self) -> ExitModel {
        match self {
            ExitAction::Execute(c) => ExitModel::Execute(c@),
            ExitAction::Insert(c) => ExitModel::Insert(c@),
            ExitAction::Cancel => ExitModel::Cancel,
        }
    }
}

/// Application state — the domain model.
///
/// Conversation is stored as a sequence of events matching the API protocol.
/// The view function derives the UI from this state. `input` holds the text
/// that the input box last submitted.
#[derive(Debug)]
pub struct AppState {
    /// Current application mode
    pub mode: AppMode,
    /// Conversation events (source of truth, matches API protocol)
    pub events: Vec<ConversationEvent>,
    /// Text being streamed (accumulated, flushed to Text event on completion)
    pub streaming_text: String,
    /// The submitted input text
    pub input: String,
    /// Current error message
    pub error: Option<String>,
    /// Exit action (set when exiting)
    pub exit_action: Option<ExitAction>,
    /// Session ID from server
    pub session_id: Option<String>,
    /// Current streaming status
    pub streaming_status: Option<StreamingStatus>,
    /// Whether current turn was interrupted by user
    pub was_interrupted: bool,
    /// True when user has pressed Enter once on a dangerous command
    pub confirmation_pending: bool,
    /// True when the app is about to exit (hides the input box on final render)
    pub exiting: bool,
}

/// Mathematical view of an [`AppState`].
pub struct AppStateModel {
    pub mode: AppMode,
    pub events: Seq<EventModel>,
    pub streaming_text: Seq<char>,
    pub input: Seq<char>,
    pub error: Option<Seq<char>>,
    pub exit_action: Option<ExitModel>,
    pub session_id: Option<Seq<char>>,
    pub streaming_status: Option<StreamingStatus>,
    pub was_interrupted: bool,
    pub confirmation_pending: bool,
    pub exiting: bool,
}

/// Views a sequence of events.
pub open spec fn events_model(events: Seq<ConversationEvent>) -> Seq<EventModel> {
    events.map_values(|e: ConversationEvent| e@)
}

/// Views an optional exit action.
pub open spec fn opt_exit(o: Option<ExitAction>) -> Option<ExitModel> {
    match o {
        Some(a) => Some(a@),
        None => None,
    }
}

impl View for AppState {
    type V = AppStateModel;

    open spec fn view(&self) -> AppStateModel {
        AppStateModel {
            mode: self.mode,
            events: events_model(self.events@),
            streaming_text: self.streaming_text@,
            input: self.input@,
            error: opt_view(self.error),
            exit_action: opt_exit(self.exit_action),
            session_id: opt_view(self.session_id),
            streaming_status: self.streaming_status,
            was_interrupted: self.was_interrupted,
            confirmation_pending: self.confirmation_pending,
            exiting: self.exiting,
        }
    }
}

/// Marker appended to the text of a generation that the user interrupted.
pub open spec fn cancelled_marker() -> Seq<char> {
    "\n\n[User cancelled this generation]"@
}

impl AppStateModel {
    /// The state in which the application starts.
    pub open spec fn initial() -> AppStateModel {
        AppStateModel {
            mode: AppMode::Input,
            events: Seq::empty(),
            streaming_text: Seq::empty(),
            input: Seq::empty(),
            error: None,
            exit_action: None,
            session_id: None,
            streaming_status: None,
            was_interrupted: false,
            confirmation_pending: false,
            exiting: false,
        }
    }

    pub open spec fn clear_input(self) -> AppStateModel {
        AppStateModel { input: Seq::empty(), ..self }
    }

    pub open spec fn start_generating(self) -> AppStateModel {
        AppStateModel {
            events: self.events.push(EventModel::UserMessage { content: self.input }),
            input: Seq::empty(),
            mode: AppMode::Generating,
            ..self
        }
    }

    pub open spec fn generation_error(self, error: Seq<char>) -> AppStateModel {
        AppStateModel { error: Some(error), mode: AppMode::Error, ..self }
    }

    /// Whether the last event is a user message.
    pub open spec fn ends_with_user_message(self) -> bool {
        self.events.len() > 0 && self.events.last() is UserMessage
    }

    pub open spec fn cancel_generation(self) -> AppStateModel {
        AppStateModel {
            events: if self.ends_with_user_message() {
                self.events.drop_last()
            } else {
                self.events
            },
            mode: AppMode::Input,
            input: Seq::empty(),
            ..self
        }
    }

    pub open spec fn start_streaming(self) -> AppStateModel {
        AppStateModel {
            streaming_text: Seq::empty(),
            streaming_status: None,
            was_interrupted: false,
            mode: AppMode::Streaming,
            ..self
        }
    }

    pub open spec fn store_session_id(self, session_id: Seq<char>) -> AppStateModel {
        AppStateModel { session_id: Some(session_id), ..self }
    }

    pub open spec fn update_streaming_status(self, status: Seq<char>) -> AppStateModel {
        AppStateModel { streaming_status: Some(StreamingStatus::of_word(status)), ..self }
    }

    /// The events after the streamed text, trimmed of leading whitespace, is
    /// flushed to a text event with `suffix` appended (nothing is flushed when
    /// the trimmed text is empty).
    pub open spec fn flushed_events(self, suffix: Seq<char>) -> Seq<EventModel> {
        let trimmed = trim_start(self.streaming_text);
        if trimmed.len() > 0 {
            self.events.push(EventModel::Text { content: trimmed + suffix })
        } else {
            self.events
        }
    }

    pub open spec fn cancel_streaming(self) -> AppStateModel {
        AppStateModel {
            was_interrupted: true,
            events: self.flushed_events(cancelled_marker()),
            streaming_text: Seq::empty(),
            streaming_status: None,
            confirmation_pending: false,
            mode: AppMode::Input,
            ..self
        }
    }

    pub open spec fn append_streaming_text(self, chunk: Seq<char>) -> AppStateModel {
        AppStateModel {
            streaming_text: if self.streaming_text.len() == 0 {
                trim_start(chunk)
            } else {
                self.streaming_text + chunk
            },
            ..self
        }
    }

    pub open spec fn add_tool_call(self, id: Seq<char>, name: Seq<char>, input: Seq<char>)
        -> AppStateModel {
        let events = self.flushed_events(Seq::empty()).push(
            EventModel::ToolCall { id, name, input },
        );
        if name == suggest_command_name() {
            AppStateModel {
                events,
                streaming_text: Seq::empty(),
                streaming_status: None,
                mode: AppMode::Review,
                ..self
            }
        } else {
            AppStateModel { events, streaming_text: Seq::empty(), ..self }
        }
    }

    pub open spec fn add_tool_result(self, tool_use_id: Seq<char>, content: Seq<char>, is_error: bool)
        -> AppStateModel {
        AppStateModel {
            events: self.events.push(EventModel::ToolResult { tool_use_id, content, is_error }),
            ..self
        }
    }

    pub open spec fn finalize_streaming(self) -> AppStateModel {
        AppStateModel {
            events: self.flushed_events(Seq::empty()),
            streaming_text: Seq::empty(),
            streaming_status: None,
            mode: AppMode::Review,
            ..self
        }
    }

    pub open spec fn streaming_error(self, error: Seq<char>) -> AppStateModel {
        AppStateModel {
            streaming_text: Seq::empty(),
            error: Some(error),
            mode: AppMode::Error,
            ..self
        }
    }

    pub open spec fn start_edit_mode(self) -> AppStateModel {
        AppStateModel {
            confirmation_pending: false,
            input: Seq::empty(),
            mode: AppMode::Input,
            ..self
        }
    }

    pub open spec fn retry(self) -> AppStateModel {
        AppStateModel { error: None, mode: AppMode::Generating, ..self }
    }
}

/// The status words of the server name their statuses; every other word,
/// `thinking` among them, reads as thinking.
pub proof fn law_status_words(word: Seq<char>)
    ensures
        StreamingStatus::of_word("processing"@) == StreamingStatus::Processing,
        StreamingStatus::of_word("searching"@) == StreamingStatus::Searching,
        StreamingStatus::of_word("waiting_for_tools"@) == StreamingStatus::WaitingForTools,
        StreamingStatus::of_word("thinking"@) == StreamingStatus::Thinking,
        word != "processing"@ && word != "searching"@ && word != "waiting_for_tools"@
            ==> StreamingStatus::of_word(word) == StreamingStatus::Thinking,
{
    reveal_strlit("processing");
    reveal_strlit("searching");
    reveal_strlit("waiting_for_tools");
    reveal_strlit("thinking");
    assert("processing"@.len() == 10);
    assert("searching"@.len() == 9);
    assert("waiting_for_tools"@.len() == 17);
    assert("thinking"@.len() == 8);
    assert("processing"@ != "searching"@);
    assert("processing"@ != "waiting_for_tools"@);
    assert("searching"@ != "waiting_for_tools"@);
    assert("thinking"@ != "processing"@);
    assert("thinking"@ != "searching"@);
    assert("thinking"@ != "waiting_for_tools"@);
}

/// Cancelling a generation undoes starting it: the user message that
/// `start_generating` recorded is withdrawn, and the state is the one before
/// except that the mode is back to input and the input is cleared.
pub proof fn law_cancel_generation_undoes_start(m: AppStateModel)
    ensures
        m.start_generating().cancel_generation() == (AppStateModel {
            mode: AppMode::Input,
            input: Seq::empty(),
            ..m
        }),
{
    let s = m.start_generating();
    assert(s.ends_with_user_message());
    assert(s.events.drop_last() =~= m.events);
}

/// The streamed text is the concatenation of the chunks received since
/// streaming started, without its leading whitespace: appending a chunk to a
/// buffer that holds no leading whitespace gives the trimmed concatenation,
/// which again holds no leading whitespace.
pub proof fn law_streaming_text_accumulates(m: AppStateModel, chunk: Seq<char>)
    requires
        trim_start(m.streaming_text) == m.streaming_text,
    ensures
        m.append_streaming_text(chunk).streaming_text == trim_start(m.streaming_text + chunk),
        trim_start(m.append_streaming_text(chunk).streaming_text) == m.append_streaming_text(
            chunk,
        ).streaming_text,
{
    let a = m.streaming_text;
    crate::text::lemma_leading_bound(a);
    if a.len() == 0 {
        assert(a + chunk =~= chunk);
        crate::text::lemma_trim_start_idempotent(chunk);
    } else {
        assert(a.skip(leading_white_space(a) as int).len() == a.len() - leading_white_space(a));
        assert(leading_white_space(a) == 0);
        assert(!is_white_space(a[0]));
        assert((a + chunk)[0] == a[0]);
        assert(leading_white_space(a + chunk) == 0);
        assert((a + chunk).skip(0) =~= a + chunk);
    }
}

/// The concatenation of a sequence of chunks.
pub open spec fn concat_chunks(chunks: Seq<Seq<char>>) -> Seq<char>
    decreases chunks.len(),
{
    if chunks.len() == 0 {
        Seq::empty()
    } else {
        concat_chunks(chunks.drop_last()) + chunks.last()
    }
}

/// The state after appending each chunk in turn.
pub open spec fn append_chunks(m: AppStateModel, chunks: Seq<Seq<char>>) -> AppStateModel
    decreases chunks.len(),
{
    if chunks.len() == 0 {
        m
    } else {
        append_chunks(m, chunks.drop_last()).append_streaming_text(chunks.last())
    }
}

/// Streaming chunks into an empty buffer leaves in it the concatenation of
/// the chunks without its leading whitespace, and changes nothing else.
pub proof fn law_streamed_chunks(m: AppStateModel, chunks: Seq<Seq<char>>)
    requires
        m.streaming_text.len() == 0,
    ensures
        append_chunks(m, chunks) == (AppStateModel {
            streaming_text: trim_start(concat_chunks(chunks)),
            ..m
        }),
    decreases chunks.len(),
{
    if chunks.len() == 0 {
        assert(m.streaming_text =~= trim_start(Seq::<char>::empty())) by {
            assert(Seq::<char>::empty().skip(0) =~= Seq::<char>::empty());
        }
    } else {
        let prev = concat_chunks(chunks.drop_last());
        let c = chunks.last();
        law_streamed_chunks(m, chunks.drop_last());
        let s = append_chunks(m, chunks.drop_last());
        crate::text::lemma_trim_start_idempotent(prev);
        law_streaming_text_accumulates(s, c);
        crate::text::lemma_trim_concat(trim_start(prev), c);
        crate::text::lemma_trim_concat(prev, c);
        crate::text::lemma_leading_bound(prev);
        if leading_white_space(prev) < prev.len() {
            crate::text::lemma_leading_stops(prev);
            let t = trim_start(prev);
            assert(t.len() > 0);
            assert(t[0] == prev[leading_white_space(prev) as int]);
            assert(leading_white_space(t) == 0);
            assert(t.skip(0) =~= t);
        } else {
            assert(trim_start(prev).len() == 0);
            assert(trim_start(prev) + c =~= c);
        }
    }
}

/// Starting to stream leaves a buffer without leading whitespace, so the law
/// above applies from the first chunk on.
pub proof fn law_streaming_starts_trimmed(m: AppStateModel)
    ensures
        trim_start(m.start_streaming().streaming_text) == m.start_streaming().streaming_text,
{
    assert(Seq::<char>::empty().skip(0) =~= Seq::<char>::empty());
}

impl AppState {
    pub fn new() -> (s: Self)
        ensures
            s@ == AppStateModel::initial(),
    {
        let s = AppState {
            mode: AppMode::Input,
            events: Vec::new(),
            streaming_text: String::new(),
            input: String::new(),
            error: None,
            exit_action: None,
            session_id: None,
            streaming_status: None,
            was_interrupted: false,
            confirmation_pending: false,
            exiting: false,
        };
        assert(events_model(s.events@) =~= Seq::empty());
        s
    }

    /// Get the submitted input text
    pub fn input(&self) -> (r: String)
        ensures
            r@ == self@.input,
    {
        self.input.clone()
    }

    /// Check if the submitted input is empty (blank)
    pub fn input_is_empty(&self) -> (r: bool)
        ensures
            r == is_blank(self@.input),
    {
        is_blank_str(self.input.as_str())
    }

    /// Record the text that the input box submitted
    pub fn set_input(&mut self, text: String)
        ensures
            final(self)@ == (AppStateModel { input: text@, ..old(self)@ }),
    {
        self.input = text;
    }

    /// Reset the input (after consuming the submitted text)
    pub fn clear_input(&mut self)
        ensures
            final(self)@ == old(self)@.clear_input(),
    {
        self.input = String::new();
    }

    /// Pushes an event, keeping the view of the event list in step.
    fn push_event(&mut self, e: ConversationEvent)
        ensures
            final(self)@ == (AppStateModel { events: old(self)@.events.push(e@), ..old(self)@ }),
    {
        self.events.push(e);
        assert(events_model(self.events@) =~= events_model(old(self).events@).push(e@));
    }

    /// Start generating from current input
    pub fn start_generating(&mut self)
        ensures
            final(self)@ == old(self)@.start_generating(),
    {
        let content = self.input();
        self.push_event(ConversationEvent::UserMessage { content });
        self.clear_input();
        self.mode = AppMode::Generating;
    }

    /// Generation error occurred
    pub fn generation_error(&mut self, error: String)
        ensures
            final(self)@ == old(self)@.generation_error(error@),
    {
        self.error = Some(error);
        self.mode = AppMode::Error;
    }

    /// Cancel during generation
    pub fn cancel_generation(&mut self)
        ensures
            final(self)@ == old(self)@.cancel_generation(),
    {
        let n = self.events.len();
        let last_is_user = n > 0 && match &self.events[n - 1] {
            ConversationEvent::UserMessage { .. } => true,
            _ => false,
        };
        if last_is_user {
            let _ = self.events.pop();
            assert(events_model(self.events@) =~= events_model(old(self).events@).drop_last());
        }
        self.mode = AppMode::Input;
        self.clear_input();
    }

    /// Start streaming response
    pub fn start_streaming(&mut self)
        ensures
            final(self)@ == old(self)@.start_streaming(),
    {
        self.streaming_text = String::new();
        self.streaming_status = None;
        self.was_interrupted = false;
        self.mode = AppMode::Streaming;
    }

    /// Store session ID from server response
    pub fn store_session_id(&mut self, session_id: String)
        ensures
            final(self)@ == old(self)@.store_session_id(session_id@),
    {
        self.session_id = Some(session_id);
    }

    /// Update streaming status from SSE event
    pub fn update_streaming_status(&mut self, status: &str)
        ensures
            final(self)@ == old(self)@.update_streaming_status(status@),
    {
        self.streaming_status = Some(StreamingStatus::from_status_str(status));
    }

    /// Takes the streamed text out, flushes it (trimmed of leading whitespace,
    /// with `suffix` appended) to a text event when it is not empty.
    fn flush_streaming_text(&mut self, suffix: &str)
        ensures
            final(self)@ == (AppStateModel {
                events: old(self)@.flushed_events(suffix@),
                streaming_text: Seq::empty(),
                ..old(self)@
            }),
    {
        let mut content = String::new();
        std::mem::swap(&mut content, &mut self.streaming_text);
        let mut trimmed = trim_start_str(content.as_str());
        if trimmed.as_str().unicode_len() > 0 {
            trimmed.append(suffix);
            self.push_event(ConversationEvent::Text { content: trimmed });
        }
    }

    /// Cancel streaming with context preservation
    pub fn cancel_streaming(&mut self)
        ensures
            final(self)@ == old(self)@.cancel_streaming(),
    {
        self.was_interrupted = true;
        self.flush_streaming_text("\n\n[User cancelled this generation]");
        self.streaming_status = None;
        self.confirmation_pending = false;
        self.mode = AppMode::Input;
    }

    /// Append text chunk during streaming
    pub fn append_streaming_text(&mut self, chunk: &str)
        ensures
            final(self)@ == old(self)@.append_streaming_text(chunk@),
    {
        if self.streaming_text.as_str().unicode_len() == 0 {
            let trimmed = trim_start_str(chunk);
            if trimmed.as_str().unicode_len() > 0 {
                self.streaming_text.append(trimmed.as_str());
            } else {
                assert(self.streaming_text@ =~= trimmed@);
            }
        } else {
            self.streaming_text.append(chunk);
        }
    }

    /// Add a tool call event during streaming
    pub fn add_tool_call(&mut self, id: String, name: String, input: String)
        ensures
            final(self)@ == old(self)@.add_tool_call(id@, name@, input@),
    {
        proof {
            reveal_strlit("");
        }
        self.flush_streaming_text("");
        let is_suggest_command = text_eq(name.as_str(), "suggest_command");
        self.push_event(ConversationEvent::ToolCall { id, name, input });
        if is_suggest_command {
            self.streaming_status = None;
            self.mode = AppMode::Review;
        }
    }

    /// Add a tool result event during streaming
    pub fn add_tool_result(&mut self, tool_use_id: String, content: String, is_error: bool)
        ensures
            final(self)@ == old(self)@.add_tool_result(tool_use_id@, content@, is_error),
    {
        self.push_event(ConversationEvent::ToolResult { tool_use_id, content, is_error });
    }

    /// Finalize streaming — flush accumulated text to event
    pub fn finalize_streaming(&mut self)
        ensures
            final(self)@ == old(self)@.finalize_streaming(),
    {
        proof {
            reveal_strlit("");
        }
        self.flush_streaming_text("");
        self.streaming_status = None;
        self.mode = AppMode::Review;
    }

    /// Streaming error
    pub fn streaming_error(&mut self, error: String)
        ensures
            final(self)@ == old(self)@.streaming_error(error@),
    {
        self.streaming_text = String::new();
        self.error = Some(error);
        self.mode = AppMode::Error;
    }

    /// Start edit mode for refinement
    pub fn start_edit_mode(&mut self)
        ensures
            final(self)@ == old(self)@.start_edit_mode(),
    {
        self.confirmation_pending = false;
        self.clear_input();
        self.mode = AppMode::Input;
    }

    /// Retry after error
    pub fn retry(&mut self)
        ensures
            final(self)@ == old(self)@.retry(),
    {
        self.error = None;
        self.mode = AppMode::Generating;
    }
}

impl Default for AppState {
    fn default() -> (s: Self)
        ensures
            s@ == AppStateModel::initial(),
    {
        Self::new()
    }
}

} // verus!
