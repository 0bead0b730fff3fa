//! The controller's decisions: what a key press or an event does to the
//! state, and what is left for the caller to carry out.
use crate::events::{AppEvent, KeyCode, KeyEvent};
use crate::history::{retained, HistoryEntry, HistoryEntryView};
use crate::interpolation::VariableInterpolator;
use crate::models::{
    first_named, fresh_id, position_of_request, Request, RequestView, Response, ResponseView,
    Timestamp,
};
use crate::state::{
    current_position, filtered_by, lemma_matching_indices, selection_in_bounds, step_down,
    step_up, well_formed, AppMode, AppState, StateView,
};
use crate::text::{decimal, push_decimal, push_text, to_text};
use vstd::prelude::*;

verus! {

/// What the caller has to do after a key press or an event.
pub enum Action {
    /// Nothing: go on with the next event.
    Continue,
    /// End the session.
    Quit,
    /// Run the request in the background, with this snapshot of the
    /// variables.
    Execute(Request, VariableInterpolator),
    /// Let the user edit the request.
    Edit(Request),
    /// Write the history to its store.
    PersistHistory,
    /// Write the collection to its file.
    PersistCollection,
}

/// What an action holds.
pub enum ActionView {
    Continue,
    Quit,
    Execute(RequestView),
    Edit(RequestView),
    PersistHistory,
    PersistCollection,
}

impl View for Action {
    type V = ActionView;

    open spec fn view(&self) -> ActionView {
        match *self {
            Action::Continue => ActionView::Continue,
            Action::Quit => ActionView::Quit,
            Action::Execute(request, _) => ActionView::Execute(request@),
            Action::Edit(request) => ActionView::Edit(request@),
            Action::PersistHistory => ActionView::PersistHistory,
            Action::PersistCollection => ActionView::PersistCollection,
        }
    }
}

/// How an edit in an outside editor ended.
pub enum EditOutcome {
    /// The editor did not end well.
    EditorFailed,
    /// The edited file could not be read.
    Unreadable,
    /// The edited text is no valid request.
    Invalid,
    /// The edited request.
    Edited(Request),
}

/// The status line when an execution is asked for.
pub open spec fn text_starting() -> Seq<char> {
    "Starting request execution..."@
}

/// The status line when an execution started.
pub open spec fn text_executing() -> Seq<char> {
    "Executing request..."@
}

/// The status line when there is no request to work on.
pub open spec fn text_none_selected() -> Seq<char> {
    "No request selected"@
}

/// The status line when a response variable was saved.
pub open spec fn text_variable_saved() -> Seq<char> {
    "Response variable saved (simplified)"@
}

/// The status line when the editor ended badly.
pub open spec fn text_editor_failed() -> Seq<char> {
    "Editor exited with error"@
}

/// The status line when the edited file could not be read.
pub open spec fn text_unreadable() -> Seq<char> {
    "Error: Could not read edited file"@
}

/// The status line when the edited text is no valid request.
pub open spec fn text_invalid() -> Seq<char> {
    "Error: Invalid JSON in edited file"@
}

/// The status line after an execution came back.
pub open spec fn text_completed(status: u16, total_ms: u64) -> Seq<char> {
    "Request completed - Status: "@ + decimal(status as nat) + " ("@ + decimal(total_ms as nat)
        + "ms)"@
}

/// The status line after an execution failed.
pub open spec fn text_failed(error: Seq<char>) -> Seq<char> {
    "Request failed: "@ + error
}

/// The status line after the collection could not be written.
pub open spec fn text_save_failed(error: Seq<char>) -> Seq<char> {
    "Failed to save: "@ + error
}

/// The status line after an edited request was stored.
pub open spec fn text_updated(name: Seq<char>) -> Seq<char> {
    "\u{2713} Updated request '"@ + name + "'"@
}

/// The state with the mode set.
pub open spec fn in_mode(s: StateView, mode: AppMode) -> StateView {
    StateView { mode, ..s }
}

/// The state with the status line set.
pub open spec fn with_status(s: StateView, text: Seq<char>) -> StateView {
    StateView { status_message: text, ..s }
}

/// The state with the quit flag set.
pub open spec fn quitting(s: StateView) -> StateView {
    StateView { should_quit: true, ..s }
}

/// The selection one request up.
pub open spec fn selection_up(s: StateView) -> StateView {
    StateView {
        selected_request_index: step_up(s.selected_request_index as nat) as usize,
        ..s
    }
}

/// The selection one request down.
pub open spec fn selection_down(s: StateView) -> StateView {
    StateView {
        selected_request_index: step_down(
            s.selected_request_index as nat,
            s.filtered_indices.len(),
        ) as usize,
        ..s
    }
}

/// Asking for the selected request to be executed. Nothing happens where
/// no request is selected or an execution is under way; else the state is
/// marked busy at once.
pub open spec fn on_execute(s: StateView) -> (StateView, ActionView) {
    match current_position(s) {
        Some(i) => if s.is_executing {
            (s, ActionView::Continue)
        } else {
            (
                with_status(StateView { is_executing: true, ..s }, text_starting()),
                ActionView::Execute(s.collection[i]@),
            )
        },
        None => (s, ActionView::Continue),
    }
}

/// Asking for the selected request to be edited.
pub open spec fn on_edit(s: StateView) -> (StateView, ActionView) {
    match current_position(s) {
        Some(i) => (s, ActionView::Edit(s.collection[i]@)),
        None => (with_status(s, text_none_selected()), ActionView::Continue),
    }
}

/// A key press in normal mode.
pub open spec fn on_normal_key(s: StateView, key: KeyEvent) -> (StateView, ActionView) {
    match key.code {
        KeyCode::Char(c) => if c == 'q' {
            (quitting(s), ActionView::Quit)
        } else if c == 'c' && key.modifiers.control {
            (quitting(s), ActionView::Quit)
        } else if c == 'k' {
            (selection_up(s), ActionView::Continue)
        } else if c == 'j' {
            (selection_down(s), ActionView::Continue)
        } else if c == '/' {
            (StateView { mode: AppMode::Filter, filter_text: Seq::empty(), ..s }, ActionView::Continue)
        } else if c == 'v' {
            (in_mode(s, AppMode::Variables), ActionView::Continue)
        } else if c == 'h' {
            (in_mode(s, AppMode::History), ActionView::Continue)
        } else if c == ':' {
            (in_mode(s, AppMode::Command), ActionView::Continue)
        } else if c == 'e' {
            on_edit(s)
        } else if c == 's' && s.current_response is Some {
            (with_status(s, text_variable_saved()), ActionView::Continue)
        } else {
            (s, ActionView::Continue)
        },
        KeyCode::Up => (selection_up(s), ActionView::Continue),
        KeyCode::Down => (selection_down(s), ActionView::Continue),
        KeyCode::Enter => on_execute(s),
        KeyCode::Tab => (
            StateView { response_tab: s.response_tab.next(), ..s },
            ActionView::Continue,
        ),
        KeyCode::BackTab => (
            StateView { response_tab: s.response_tab.previous(), ..s },
            ActionView::Continue,
        ),
        _ => (s, ActionView::Continue),
    }
}

/// A key press in filter mode: a character extends the filter, backspace
/// shortens it, and the list follows at once; enter keeps the filter and
/// escape drops it, and both go back to normal mode.
pub open spec fn on_filter_key(s: StateView, key: KeyEvent) -> StateView {
    match key.code {
        KeyCode::Enter => in_mode(s, AppMode::Normal),
        KeyCode::Esc => filtered_by(in_mode(s, AppMode::Normal), Seq::empty()),
        KeyCode::Backspace => filtered_by(
            s,
            if s.filter_text.len() > 0 {
                s.filter_text.drop_last()
            } else {
                s.filter_text
            },
        ),
        KeyCode::Char(c) => filtered_by(s, s.filter_text.push(c)),
        _ => s,
    }
}

/// A key press in variables mode.
pub open spec fn on_variables_key(s: StateView, key: KeyEvent) -> StateView {
    if key.code == KeyCode::Esc || key.code == KeyCode::Char('v') {
        in_mode(s, AppMode::Normal)
    } else {
        s
    }
}

/// The history selection one entry up.
pub open spec fn history_up(s: StateView) -> StateView {
    StateView {
        history_selected_index: step_up(s.history_selected_index as nat) as usize,
        ..s
    }
}

/// The history selection one entry down.
pub open spec fn history_down(s: StateView) -> StateView {
    StateView {
        history_selected_index: step_down(
            s.history_selected_index as nat,
            s.history.len(),
        ) as usize,
        ..s
    }
}

/// A key press in history mode: up and down move over the entries, enter
/// puts the selected entry's response on display and goes back to normal
/// mode, escape goes back without it.
pub open spec fn on_history_key(s: StateView, key: KeyEvent) -> StateView {
    match key.code {
        KeyCode::Esc => in_mode(s, AppMode::Normal),
        KeyCode::Up => history_up(s),
        KeyCode::Down => history_down(s),
        KeyCode::Enter => if s.history_selected_index < s.history.len() {
            StateView {
                current_response: Some(s.history[s.history_selected_index as int].response),
                mode: AppMode::Normal,
                ..s
            }
        } else {
            s
        },
        KeyCode::Char(c) => if c == 'h' {
            in_mode(s, AppMode::Normal)
        } else if c == 'k' {
            history_up(s)
        } else if c == 'j' {
            history_down(s)
        } else {
            s
        },
        _ => s,
    }
}

/// A key press in command mode.
pub open spec fn on_command_key(s: StateView, key: KeyEvent) -> (StateView, ActionView) {
    if key.code == KeyCode::Esc {
        (in_mode(s, AppMode::Normal), ActionView::Continue)
    } else if key.code == KeyCode::Char('e') {
        (in_mode(on_edit(s).0, AppMode::Normal), on_edit(s).1)
    } else {
        (s, ActionView::Continue)
    }
}

/// A key press, in whatever mode the state is.
pub open spec fn on_key(s: StateView, key: KeyEvent) -> (StateView, ActionView) {
    match s.mode {
        AppMode::Normal => on_normal_key(s, key),
        AppMode::Filter => (on_filter_key(s, key), ActionView::Continue),
        AppMode::Variables => (on_variables_key(s, key), ActionView::Continue),
        AppMode::History => (on_history_key(s, key), ActionView::Continue),
        AppMode::Command => on_command_key(s, key),
    }
}

/// Only normal mode can end the session, and only by setting the quit
/// flag; a key in another mode leaves the flag as it is.
pub proof fn lemma_quit_only_from_normal(s: StateView, key: KeyEvent)
    ensures
        on_key(s, key).1 is Quit ==> s.mode == AppMode::Normal && on_key(s, key).0.should_quit,
        s.mode != AppMode::Normal ==> on_key(s, key).0.should_quit == s.should_quit,
{
}

/// While an execution is under way, no key starts another.
pub proof fn lemma_busy_starts_nothing(s: StateView, key: KeyEvent)
    requires
        s.is_executing,
    ensures
        !(on_key(s, key).1 is Execute),
        on_key(s, key).0.is_executing,
{
}

/// No key moves the selection out of the filtered list.
pub proof fn lemma_key_keeps_selection(s: StateView, key: KeyEvent)
    requires
        selection_in_bounds(s),
    ensures
        selection_in_bounds(on_key(s, key).0),
{
}

/// A key press keeps a state in order: the filtered list still picks
/// requests of the collection in their order, the selection is still a
/// position of it unless it is empty, and the history keeps to its bound.
pub proof fn lemma_key_keeps_well_formed(s: StateView, key: KeyEvent)
    requires
        well_formed(s),
        s.collection.len() <= usize::MAX,
    ensures
        well_formed(on_key(s, key).0),
{
    lemma_matching_indices(s.collection, Seq::empty());
    lemma_matching_indices(s.collection, s.filter_text);
    if s.filter_text.len() > 0 {
        lemma_matching_indices(s.collection, s.filter_text.drop_last());
    }
    match key.code {
        KeyCode::Char(c) => {
            lemma_matching_indices(s.collection, s.filter_text.push(c));
        },
        _ => {},
    }
}

/// News of an execution keeps a state in order, whichever way the
/// execution went.
pub proof fn lemma_execution_keeps_well_formed(
    s: StateView,
    response: ResponseView,
    id: uuid::Uuid,
    at: Timestamp,
    error: Seq<char>,
)
    requires
        well_formed(s),
    ensures
        well_formed(on_started(s)),
        well_formed(on_failed(s, error)),
        well_formed(on_completed(s, response, id, at).0),
        !on_failed(s, error).is_executing,
        !on_completed(s, response, id, at).0.is_executing,
{
}

/// News that an execution started.
pub open spec fn on_started(s: StateView) -> StateView {
    with_status(StateView { is_executing: true, ..s }, text_executing())
}

/// News that an execution failed: the state is free again, the status
/// line tells the error, and no response is on display.
pub open spec fn on_failed(s: StateView, error: Seq<char>) -> StateView {
    StateView {
        is_executing: false,
        status_message: text_failed(error),
        current_response: None,
        ..s
    }
}

/// News that an execution came back with `response`: the state is free
/// again and the response is on display. Where a request is selected, the
/// response goes into the history under that request's name, as an entry
/// with the identifier `id` made at the time `at`, and the history is to
/// be written.
pub open spec fn on_completed(
    s: StateView,
    response: ResponseView,
    id: uuid::Uuid,
    at: Timestamp,
) -> (StateView, ActionView) {
    let shown = StateView {
        is_executing: false,
        status_message: text_completed(response.status, response.timing.total_ms),
        current_response: Some(response),
        ..s
    };
    match current_position(s) {
        Some(i) => (
            StateView {
                history: retained(
                    s.history.push(
                        HistoryEntryView {
                            id,
                            request_name: s.collection[i].name@,
                            response,
                            created_at: at,
                        },
                    ),
                    s.max_entries as nat,
                ),
                ..shown
            },
            ActionView::PersistHistory,
        ),
        None => (shown, ActionView::Continue),
    }
}

/// The collection with the first request called `name` replaced by
/// `request`; as it is where no request has that name.
pub open spec fn replace_named(collection: Seq<Request>, name: Seq<char>, request: Request) -> Seq<
    Request,
> {
    match first_named(collection, name) {
        Some(i) => collection.update(i, request),
        None => collection,
    }
}

/// How the edit of the request called `name` ended. An edited request
/// takes the place of the stored one and the collection is to be written;
/// every other outcome leaves the collection as it is and tells so in the
/// status line.
pub open spec fn on_edit_outcome(s: StateView, name: Seq<char>, outcome: EditOutcome) -> (
    StateView,
    ActionView,
) {
    match outcome {
        EditOutcome::EditorFailed => (with_status(s, text_editor_failed()), ActionView::Continue),
        EditOutcome::Unreadable => (with_status(s, text_unreadable()), ActionView::Continue),
        EditOutcome::Invalid => (with_status(s, text_invalid()), ActionView::Continue),
        EditOutcome::Edited(request) => (
            StateView { collection: replace_named(s.collection, name, request), ..s },
            ActionView::PersistCollection,
        ),
    }
}

/// An edit that does not yield a valid request leaves the collection
/// untouched.
pub proof fn lemma_failed_edit_keeps_collection(s: StateView, name: Seq<char>, outcome: EditOutcome)
    requires
        !(outcome is Edited),
    ensures
        on_edit_outcome(s, name, outcome).0.collection == s.collection,
        on_edit_outcome(s, name, outcome).1 is Continue,
{
}

/// The status line after the collection was written, or was not.
pub open spec fn text_saved(name: Seq<char>, error: Option<Seq<char>>) -> Seq<char> {
    match error {
        Some(e) => text_save_failed(e),
        None => text_updated(name),
    }
}

impl AppState {
    /// Starts the selected request, unless one is under way.
    pub fn execute_current_request(&mut self) -> (a: Action)
        requires
            selection_in_bounds(old(self)@),
        ensures
            (final(self)@, a@) == on_execute(old(self)@),
            a matches Action::Execute(_, snapshot) ==> {
                &&& snapshot.in_memory@ == old(self).interpolator.in_memory@
                &&& snapshot.env_vars@ == old(self).interpolator.env_vars@
                &&& snapshot.process_env@ == old(self).interpolator.process_env@
            },
            old(self).wf() ==> final(self).wf(),
    {
        if self.is_executing {
            return Action::Continue;
        }
        let request = match self.get_current_request() {
            Some(request) => request.clone(),
            None => {
                return Action::Continue;
            },
        };
        let snapshot = self.interpolator.clone();
        self.is_executing = true;
        self.status_message = String::from_str("Starting request execution...");
        Action::Execute(request, snapshot)
    }

    /// Asks for the selected request to be edited.
    pub fn edit_current_request(&mut self) -> (a: Action)
        requires
            selection_in_bounds(old(self)@),
        ensures
            (final(self)@, a@) == on_edit(old(self)@),
            old(self).wf() ==> final(self).wf(),
    {
        let request = match self.get_current_request() {
            Some(request) => Some(request.clone()),
            None => None,
        };
        match request {
            Some(request) => Action::Edit(request),
            None => {
                self.status_message = String::from_str("No request selected");
                Action::Continue
            },
        }
    }

    /// Applies a key press in normal mode.
    pub fn handle_normal_mode_keys(&mut self, key: KeyEvent) -> (a: Action)
        requires
            selection_in_bounds(old(self)@),
        ensures
            (final(self)@, a@) == on_normal_key(old(self)@, key),
            a matches Action::Execute(_, snapshot) ==> {
                &&& snapshot.in_memory@ == old(self).interpolator.in_memory@
                &&& snapshot.env_vars@ == old(self).interpolator.env_vars@
                &&& snapshot.process_env@ == old(self).interpolator.process_env@
            },
            old(self).wf() ==> final(self).wf(),
    {
        match key.code {
            KeyCode::Char(c) => {
                if c == 'q' || (c == 'c' && key.modifiers.control) {
                    self.should_quit = true;
                    return Action::Quit;
                } else if c == 'k' {
                    self.move_selection_up();
                } else if c == 'j' {
                    self.move_selection_down();
                } else if c == '/' {
                    self.mode = AppMode::Filter;
                    self.filter_text.clear();
                } else if c == 'v' {
                    self.mode = AppMode::Variables;
                } else if c == 'h' {
                    self.mode = AppMode::History;
                } else if c == ':' {
                    self.mode = AppMode::Command;
                } else if c == 'e' {
                    return self.edit_current_request();
                } else if c == 's' && self.current_response.is_some() {
                    self.status_message = String::from_str("Response variable saved (simplified)");
                }
            },
            KeyCode::Up => {
                self.move_selection_up();
            },
            KeyCode::Down => {
                self.move_selection_down();
            },
            KeyCode::Enter => {
                return self.execute_current_request();
            },
            KeyCode::Tab => {
                self.next_response_tab();
            },
            KeyCode::BackTab => {
                self.previous_response_tab();
            },
            _ => {},
        }
        Action::Continue
    }

    /// Applies a key press in filter mode.
    pub fn handle_filter_mode_keys(&mut self, key: KeyEvent) -> (a: Action)
        ensures
            final(self)@ == on_filter_key(old(self)@, key),
            a is Continue,
            old(self).wf() ==> final(self).wf(),
    {
        match key.code {
            KeyCode::Enter => {
                self.mode = AppMode::Normal;
            },
            KeyCode::Esc => {
                self.mode = AppMode::Normal;
                self.update_filter(String::new());
            },
            KeyCode::Backspace => {
                let _ = self.filter_text.pop();
                let filter = self.filter_text.clone();
                self.update_filter(filter);
            },
            KeyCode::Char(c) => {
                self.filter_text.push(c);
                let filter = self.filter_text.clone();
                self.update_filter(filter);
            },
            _ => {},
        }
        Action::Continue
    }

    /// Applies a key press in variables mode.
    pub fn handle_variables_mode_keys(&mut self, key: KeyEvent) -> (a: Action)
        ensures
            final(self)@ == on_variables_key(old(self)@, key),
            a is Continue,
            old(self).wf() ==> final(self).wf(),
    {
        match key.code {
            KeyCode::Esc => {
                self.mode = AppMode::Normal;
            },
            KeyCode::Char(c) => {
                if c == 'v' {
                    self.mode = AppMode::Normal;
                }
            },
            _ => {},
        }
        Action::Continue
    }

    /// Moves the history selection one entry up, unless it is at the first.
    fn history_selection_up(&mut self)
        ensures
            final(self)@ == history_up(old(self)@),
            old(self).wf() ==> final(self).wf(),
    {
        if self.history_selected_index > 0 {
            self.history_selected_index = self.history_selected_index - 1;
        }
    }

    /// Moves the history selection one entry down, unless it is at the last.
    fn history_selection_down(&mut self)
        ensures
            final(self)@ == history_down(old(self)@),
            old(self).wf() ==> final(self).wf(),
    {
        let len = self.history.entries.len();
        if self.history_selected_index < len && self.history_selected_index + 1 < len {
            self.history_selected_index = self.history_selected_index + 1;
        }
    }

    /// Applies a key press in history mode.
    pub fn handle_history_mode_keys(&mut self, key: KeyEvent) -> (a: Action)
        ensures
            final(self)@ == on_history_key(old(self)@, key),
            a is Continue,
            old(self).wf() ==> final(self).wf(),
    {
        match key.code {
            KeyCode::Esc => {
                self.mode = AppMode::Normal;
            },
            KeyCode::Up => {
                self.history_selection_up();
            },
            KeyCode::Down => {
                self.history_selection_down();
            },
            KeyCode::Enter => {
                if self.history_selected_index < self.history.entries.len() {
                    let response = self.history.entries[self.history_selected_index].response.clone();
                    self.current_response = Some(response);
                    self.mode = AppMode::Normal;
                }
            },
            KeyCode::Char(c) => {
                if c == 'h' {
                    self.mode = AppMode::Normal;
                } else if c == 'k' {
                    self.history_selection_up();
                } else if c == 'j' {
                    self.history_selection_down();
                }
            },
            _ => {},
        }
        Action::Continue
    }

    /// Applies a key press in command mode.
    pub fn handle_command_mode_keys(&mut self, key: KeyEvent) -> (a: Action)
        requires
            selection_in_bounds(old(self)@),
        ensures
            (final(self)@, a@) == on_command_key(old(self)@, key),
            old(self).wf() ==> final(self).wf(),
    {
        match key.code {
            KeyCode::Esc => {
                self.mode = AppMode::Normal;
                Action::Continue
            },
            KeyCode::Char(c) => {
                if c == 'e' {
                    let a = self.edit_current_request();
                    self.mode = AppMode::Normal;
                    a
                } else {
                    Action::Continue
                }
            },
            _ => Action::Continue,
        }
    }

    /// Applies a key press in the mode the state is in.
    pub fn handle_key_event(&mut self, key: KeyEvent) -> (a: Action)
        requires
            selection_in_bounds(old(self)@),
        ensures
            (final(self)@, a@) == on_key(old(self)@, key),
            a matches Action::Execute(_, snapshot) ==> {
                &&& snapshot.in_memory@ == old(self).interpolator.in_memory@
                &&& snapshot.env_vars@ == old(self).interpolator.env_vars@
                &&& snapshot.process_env@ == old(self).interpolator.process_env@
            },
            old(self).wf() ==> final(self).wf(),
    {
        match self.mode {
            AppMode::Normal => self.handle_normal_mode_keys(key),
            AppMode::Filter => self.handle_filter_mode_keys(key),
            AppMode::Variables => self.handle_variables_mode_keys(key),
            AppMode::History => self.handle_history_mode_keys(key),
            AppMode::Command => self.handle_command_mode_keys(key),
        }
    }
    /// Takes note that an execution started.
    pub fn execution_started(&mut self)
        ensures
            final(self)@ == on_started(old(self)@),
            old(self).wf() ==> final(self).wf(),
    {
        self.is_executing = true;
        self.status_message = String::from_str("Executing request...");
    }

    /// Takes note that an execution failed with `error`.
    pub fn execution_failed(&mut self, error: &str)
        ensures
            final(self)@ == on_failed(old(self)@, error@),
            old(self).wf() ==> final(self).wf(),
    {
        let mut line: Vec<char> = Vec::new();
        push_text(&mut line, "Request failed: ");
        push_text(&mut line, error);
        self.is_executing = false;
        self.status_message = to_text(&line);
        self.current_response = None;
    }

    /// Takes in the response of an execution; the history entry gets the
    /// identifier `id` and the time `at`.
    pub fn execution_completed(&mut self, response: Response, id: uuid::Uuid, at: Timestamp) -> (a:
        Action)
        requires
            selection_in_bounds(old(self)@),
        ensures
            (final(self)@, a@) == on_completed(old(self)@, response@, id, at),
            old(self).wf() ==> final(self).wf(),
    {
        let mut line: Vec<char> = Vec::new();
        push_text(&mut line, "Request completed - Status: ");
        push_decimal(&mut line, response.status as u64);
        push_text(&mut line, " (");
        push_decimal(&mut line, response.timing.total_ms);
        push_text(&mut line, "ms)");
        self.is_executing = false;
        self.status_message = to_text(&line);
        let name = match self.get_current_request() {
            Some(request) => Some(request.name.clone()),
            None => None,
        };
        let a = match name {
            Some(request_name) => {
                let entry = HistoryEntry {
                    id,
                    request_name,
                    response: response.clone(),
                    created_at: at,
                };
                self.history.push_entry(entry);
                Action::PersistHistory
            },
            None => Action::Continue,
        };
        self.current_response = Some(response);
        a
    }

    /// Applies an event. A completed execution is entered into the history
    /// under a fresh identifier and the present time.
    pub fn apply_event(&mut self, event: AppEvent) -> (a: Action)
        requires
            selection_in_bounds(old(self)@),
        ensures
            match event {
                AppEvent::Key(key) => (final(self)@, a@) == on_key(old(self)@, key),
                AppEvent::ExecutionStarted => final(self)@ == on_started(old(self)@) && a
                    is Continue,
                AppEvent::ExecutionCompleted(response) => exists|id: uuid::Uuid, at: Timestamp|
                    (final(self)@, a@) == #[trigger] on_completed(old(self)@, response@, id, at),
                AppEvent::ExecutionFailed(error) => final(self)@ == on_failed(old(self)@, error@)
                    && a is Continue,
                AppEvent::Quit => final(self)@ == old(self)@ && a is Quit,
            },
            a matches Action::Execute(_, snapshot) ==> {
                &&& snapshot.in_memory@ == old(self).interpolator.in_memory@
                &&& snapshot.env_vars@ == old(self).interpolator.env_vars@
                &&& snapshot.process_env@ == old(self).interpolator.process_env@
            },
            old(self).wf() ==> final(self).wf(),
    {
        match event {
            AppEvent::Key(key) => self.handle_key_event(key),
            AppEvent::ExecutionStarted => {
                self.execution_started();
                Action::Continue
            },
            AppEvent::ExecutionCompleted(response) => {
                let id = fresh_id();
                let at = Timestamp::now();
                self.execution_completed(response, id, at)
            },
            AppEvent::ExecutionFailed(error) => {
                self.execution_failed(error.as_str());
                Action::Continue
            },
            AppEvent::Quit => Action::Quit,
        }
    }

    /// The position of the first request called `name`.
    pub fn find_request(&self, name: &str) -> (r: Option<usize>)
        ensures
            match r {
                Some(i) => first_named(self.collection@, name@) == Some(i as int),
                None => first_named(self.collection@, name@) is None,
            },
    {
        position_of_request(&self.collection, name)
    }

    /// Takes in how the edit of the request called `name` ended.
    pub fn apply_edit(&mut self, name: &str, outcome: EditOutcome) -> (a: Action)
        ensures
            (final(self)@, a@) == on_edit_outcome(old(self)@, name@, outcome),
            old(self).wf() ==> final(self).wf(),
    {
        match outcome {
            EditOutcome::EditorFailed => {
                self.status_message = String::from_str("Editor exited with error");
                Action::Continue
            },
            EditOutcome::Unreadable => {
                self.status_message = String::from_str("Error: Could not read edited file");
                Action::Continue
            },
            EditOutcome::Invalid => {
                self.status_message = String::from_str("Error: Invalid JSON in edited file");
                Action::Continue
            },
            EditOutcome::Edited(request) => {
                match self.find_request(name) {
                    Some(i) => {
                        self.collection.set(i, request);
                    },
                    None => {},
                }
                Action::PersistCollection
            },
        }
    }

    /// Tells in the status line whether the edited request called `name`
    /// was written, or which error kept it from being written.
    pub fn record_save(&mut self, name: &str, error: Option<String>)
        ensures
            final(self)@ == with_status(
                old(self)@,
                text_saved(
                    name@,
                    match error {
                        Some(e) => Some(e@),
                        None => None,
                    },
                ),
            ),
            old(self).wf() ==> final(self).wf(),
    {
        let mut line: Vec<char> = Vec::new();
        match error {
            Some(e) => {
                push_text(&mut line, "Failed to save: ");
                push_text(&mut line, e.as_str());
            },
            None => {
                push_text(&mut line, "\u{2713} Updated request '");
                push_text(&mut line, name);
                push_text(&mut line, "'");
            },
        }
        self.status_message = to_text(&line);
    }
}

} // verus!
