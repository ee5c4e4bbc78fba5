//! The editor state machine: the application's single source of truth.
//!
//! The state is one record — document identity, content, last error — and a
//! single transition function consumes an intent and yields the next state
//! together with at most one requested asynchronous effect. The host performs
//! the effect and delivers its result back as a further intent.

use vstd::prelude::*;
use crate::error::Error;
use crate::error::kind_text;
use crate::file_access::loaded_view;

verus! {

/// Mathematical model of the editor state.
///
/// `path` is the document identity: `None` is an untitled, never-saved
/// document. `content` is the text buffer. `error` is the most recent
/// failure, if any has happened and not been overwritten since.
#[verifier::ext_equal]
pub ghost struct StateView {
    pub path: Option<Seq<char>>,
    pub content: Seq<char>,
    pub error: Option<Error>,
}

/// Mathematical model of an intent.
#[verifier::ext_equal]
pub ghost enum IntentView {
    Edit(Seq<char>),
    NewFile,
    OpenFile,
    LoadCompleted(Result<(Seq<char>, Seq<char>), Error>),
}

/// Mathematical model of the asynchronous effect a transition requests.
#[verifier::ext_equal]
pub ghost enum EffectView {
    Idle,
    StartLoad(Seq<char>),
    StartPickAndLoad,
}

/// The transition function of the editor: one intent in, the next state and
/// the requested effect out. It is total: every state/intent pair is covered,
/// and no transition is fatal.
pub open spec fn step(pre: StateView, intent: IntentView) -> (StateView, EffectView) {
    match intent {
        IntentView::Edit(text) => (
            StateView { path: pre.path, content: text, error: pre.error },
            EffectView::Idle,
        ),
        IntentView::NewFile => (
            StateView { path: None, content: Seq::empty(), error: pre.error },
            EffectView::Idle,
        ),
        IntentView::OpenFile => (pre, EffectView::StartPickAndLoad),
        IntentView::LoadCompleted(outcome) => match outcome {
            Ok(pc) => (
                StateView { path: Some(pc.0), content: pc.1, error: pre.error },
                EffectView::Idle,
            ),
            Err(e) => (
                StateView { path: pre.path, content: pre.content, error: Some(e) },
                EffectView::Idle,
            ),
        },
    }
}

/// The state the editor starts in: untitled, empty, no error.
pub open spec fn initial_state() -> StateView {
    StateView { path: None, content: Seq::empty(), error: None }
}

/// An intent, as emitted by the presentation layer or by a finished
/// asynchronous operation.
#[derive(Debug)]
pub enum Intent {
    /// The editing widget applied an action; the payload is the text it
    /// left behind. Editing never touches identity or error.
    Edit(String),
    /// Reset to an untitled, empty document.
    NewFile,
    /// Ask the user for a file to open.
    OpenFile,
    /// A load finished with the given outcome.
    LoadCompleted(Result<(String, String), Error>),
}

impl View for Intent {
    type V = IntentView;

    open spec fn view(&self) -> IntentView {
        match self {
            Intent::Edit(text) => IntentView::Edit(text@),
            Intent::NewFile => IntentView::NewFile,
            Intent::OpenFile => IntentView::OpenFile,
            Intent::LoadCompleted(outcome) => IntentView::LoadCompleted(loaded_view(*outcome)),
        }
    }
}

/// The asynchronous work a transition asks the host to start: nothing, a
/// load of a given path, or the picker dialog followed by a load.
#[derive(Debug, PartialEq)]
pub enum Effect {
    Idle,
    StartLoad(String),
    StartPickAndLoad,
}

impl View for Effect {
    type V = EffectView;

    open spec fn view(&self) -> EffectView {
        match self {
            Effect::Idle => EffectView::Idle,
            Effect::StartLoad(path) => EffectView::StartLoad(path@),
            Effect::StartPickAndLoad => EffectView::StartPickAndLoad,
        }
    }
}

/// The editor state itself: document identity, text content, last error.
#[derive(Debug, PartialEq)]
pub struct EditorState {
    /// `Some(path)` exactly while the displayed content was last successfully
    /// loaded from `path` and has not since been reset by `NewFile`; edits do
    /// not clear it.
    pub path: Option<String>,
    /// The text buffer, replaced wholesale on load or new-file and rewritten
    /// by edits.
    pub content: String,
    /// The most recent failure; a later one replaces an earlier one, and no
    /// success clears it.
    pub error: Option<Error>,
}

impl View for EditorState {
    type V = StateView;

    open spec fn view(&self) -> StateView {
        StateView {
            path: match self.path {
                Some(p) => Some(p@),
                None => None,
            },
            content: self.content@,
            error: self.error,
        }
    }
}

impl EditorState {
    /// A freshly started editor: untitled, empty, no error; asks the host
    /// to start the one startup load of the default path.
    pub fn new() -> (r: (EditorState, Effect))
        ensures
            r.0@ == initial_state(),
            r.1@ == EffectView::StartLoad(crate::file_access::default_path_text()),
    {
        (
            EditorState { path: None, content: String::new(), error: None },
            Effect::StartLoad(crate::file_access::default_path()),
        )
    }

    /// The window title.
    pub fn title(&self) -> (t: String)
        ensures
            t@ == "notion"@,
    {
        "notion".to_owned()
    }

    /// Consumes one intent: the state becomes exactly `step`'s next state,
    /// and the returned effect is exactly the one `step` requests.
    pub fn update(&mut self, intent: Intent) -> (eff: Effect)
        ensures
            final(self)@ == step(old(self)@, intent@).0,
            eff@ == step(old(self)@, intent@).1,
    {
        match intent {
            Intent::Edit(text) => {
                self.content = text;
                Effect::Idle
            },
            Intent::NewFile => {
                self.content = String::new();
                self.path = None;
                Effect::Idle
            },
            Intent::OpenFile => Effect::StartPickAndLoad,
            Intent::LoadCompleted(outcome) => match outcome {
                Ok(pc) => {
                    self.path = Some(pc.0);
                    self.content = pc.1;
                    Effect::Idle
                },
                Err(e) => {
                    self.error = Some(e);
                    Effect::Idle
                },
            },
        }
    }

    /// What the status bar shows in place of the path: the description of an
    /// I/O failure if one is recorded; otherwise the current path; otherwise
    /// the untitled marker. A dismissed dialog changes nothing here.
    pub fn status_text(&self) -> (s: String)
        ensures
            s@ == status_text_of(self@),
    {
        match &self.error {
            Some(Error::IoFailure(k)) => k.describe(),
            _ => match &self.path {
                Some(p) => p.clone(),
                None => "New File".to_owned(),
            },
        }
    }
}

/// The status-bar text for a given state.
pub open spec fn status_text_of(v: StateView) -> Seq<char> {
    match v.error {
        Some(Error::IoFailure(k)) => kind_text(k),
        _ => match v.path {
            Some(p) => p,
            None => "New File"@,
        },
    }
}

/// The cursor position as displayed: one-based, for a zero-based position
/// reported by the editing widget.
pub fn display_position(line: usize, column: usize) -> (r: (usize, usize))
    requires
        line < usize::MAX,
        column < usize::MAX,
    ensures
        r.0 == line + 1,
        r.1 == column + 1,
{
    (line + 1, column + 1)
}

/// Applying `NewFile` always yields an untitled document with empty content,
/// whatever the prior state; the recorded error is untouched.
pub proof fn new_file_resets(pre: StateView)
    ensures
        step(pre, IntentView::NewFile).0 == (StateView {
            path: None,
            content: Seq::empty(),
            error: pre.error,
        }),
        step(pre, IntentView::NewFile).1 == EffectView::Idle,
{
}

/// Applying `NewFile` twice in a row is the same as applying it once.
pub proof fn new_file_idempotent(pre: StateView)
    ensures
        step(step(pre, IntentView::NewFile).0, IntentView::NewFile) == step(
            pre,
            IntentView::NewFile,
        ),
{
}

/// Two successful loads in a row: the second wins. The state after
/// `LoadCompleted(Ok(a))` followed by `LoadCompleted(Ok(b))` is the state
/// after `LoadCompleted(Ok(b))` alone.
pub proof fn load_ok_last_write_wins(
    pre: StateView,
    a: (Seq<char>, Seq<char>),
    b: (Seq<char>, Seq<char>),
)
    ensures
        step(step(pre, IntentView::LoadCompleted(Ok(a))).0, IntentView::LoadCompleted(Ok(b)))
            == step(pre, IntentView::LoadCompleted(Ok(b))),
{
}

} // verus!
