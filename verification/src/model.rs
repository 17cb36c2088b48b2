//! The state of an AI edit conversation, and what each event does to it.

use crate::edit::{replacing_edit, ActiveView, ApplyError, Edit, EditView, Range};
use crate::layout::Rect;
use crate::process::PiErrorView;
use crate::request::{context_json, ContextView, TurnView};
use crate::text::trimmed;
use vstd::prelude::*;

verus! {

/// The name under which the dialog is found among the components on screen.
pub const ID: &'static str = "ai-chat";

/// What a conversation waits for.
#[derive(Clone, Copy, Debug, PartialEq, Eq, Structural)]
pub enum Phase {
    /// For the first request.
    Input,
    /// For `pi`.
    Waiting,
    /// For the user to accept the proposal or to ask for another.
    Review,
}

/// A key, as far as the dialog tells keys apart.
#[derive(Clone, Copy, Debug, PartialEq, Eq, Structural)]
pub enum KeyCode {
    Esc,
    Enter,
    PageUp,
    PageDown,
    Char(char),
    Other,
}

/// The modifiers held with a key.
#[derive(Clone, Copy, Debug, PartialEq, Eq, Structural)]
pub struct Modifiers {
    pub shift: bool,
    pub control: bool,
    pub alt: bool,
    pub super_key: bool,
}

impl Modifiers {
    /// No modifiers.
    pub open spec fn plain() -> Modifiers {
        Modifiers { shift: false, control: false, alt: false, super_key: false }
    }

    /// Control and nothing else.
    pub open spec fn only_control() -> Modifiers {
        Modifiers { shift: false, control: true, alt: false, super_key: false }
    }

    /// Whether no modifier is held.
    pub fn is_plain(&self) -> (r: bool)
        ensures
            r == (*self == Modifiers::plain()),
    {
        !self.shift && !self.control && !self.alt && !self.super_key
    }

    /// Whether control is held and nothing else.
    pub fn is_only_control(&self) -> (r: bool)
        ensures
            r == (*self == Modifiers::only_control()),
    {
        !self.shift && self.control && !self.alt && !self.super_key
    }
}

/// A key press.
#[derive(Clone, Copy, Debug, PartialEq, Eq, Structural)]
pub struct KeyEvent {
    pub code: KeyCode,
    pub modifiers: Modifiers,
}

/// An event of the terminal.
#[derive(Clone, Copy, Debug, PartialEq, Eq, Structural)]
pub enum Event {
    Key(KeyEvent),
    Paste,
    Resize,
    Mouse,
    Other,
}

/// A run of `pi` to start.
#[derive(Debug, PartialEq, Eq)]
pub struct PiRequest {
    /// The number of the conversation that asks; it comes back to
    /// [`AiChat::finish_request`].
    pub number: u64,
    /// The message of the user; it comes back to [`AiChat::finish_request`].
    pub request: String,
    /// The directory to run in, in the encoding of the platform.
    pub cwd: Vec<u8>,
    /// What to write to the standard input.
    pub input: String,
}

/// What an event asks of the editor. The event is consumed in every case but
/// [`Action::Prompt`].
#[derive(Debug, PartialEq, Eq)]
pub enum Action {
    /// Nothing.
    Consumed,
    /// Remove the component named [`ID`].
    Close,
    /// Hand the event to the prompt; its result is the result.
    Prompt,
    /// Hand what is active in the editor to [`AiChat::confirm`].
    Apply,
    /// Show the message as an error.
    ShowError(String),
    /// Clear the line of the prompt, run `pi`, and hand the outcome to
    /// [`AiChat::finish_request`].
    Submit(PiRequest),
    /// Apply the edit to the active document and to its history, show
    /// [`APPLIED`], and remove the component named [`ID`].
    Replace(Edit),
}

/// What stands before the line of the prompt.
pub const PROMPT_LABEL: &'static str = "Message: ";

/// The status shown once a proposal is applied.
pub const APPLIED: &'static str = "Applied pi's replacement";

/// The content of a [`PiRequest`].
pub struct PiRequestView {
    pub number: u64,
    pub request: Seq<char>,
    pub cwd: Seq<u8>,
    pub input: Seq<char>,
}

/// The content of an [`Action`].
pub enum ActionView {
    Consumed,
    Close,
    Prompt,
    Apply,
    ShowError(Seq<char>),
    Submit(PiRequestView),
    Replace(EditView),
}

impl View for Action {
    type V = ActionView;

    open spec fn view(&self) -> ActionView {
        match self {
            Action::Consumed => ActionView::Consumed,
            Action::Close => ActionView::Close,
            Action::Prompt => ActionView::Prompt,
            Action::Apply => ActionView::Apply,
            Action::ShowError(text) => ActionView::ShowError(text@),
            Action::Submit(r) => ActionView::Submit(
                PiRequestView {
                    number: r.number,
                    request: r.request@,
                    cwd: r.cwd@,
                    input: r.input@,
                },
            ),
            Action::Replace(edit) => ActionView::Replace(edit@),
        }
    }
}

/// What a conversation is about: the code that is selected in a version of a
/// document, and the directory to run `pi` in.
pub struct SubjectView {
    pub document_id: u64,
    pub view_id: u64,
    pub range: Range,
    pub document_version: i32,
    pub original: Seq<char>,
    pub language: Seq<char>,
    pub file: Seq<char>,
    pub cwd: Seq<u8>,
}

/// The state of a conversation.
pub struct ChatView {
    pub number: u64,
    pub document_id: u64,
    pub view_id: u64,
    pub range: Range,
    pub document_version: i32,
    pub original: Seq<char>,
    pub proposed: Option<Seq<char>>,
    pub language: Seq<char>,
    pub file: Seq<char>,
    pub cwd: Seq<u8>,
    pub conversation: Seq<TurnView>,
    pub prompt_area: Rect,
    pub phase: Phase,
    pub scroll: u16,
    pub error: Option<Seq<char>>,
}

impl ChatView {
    /// What holds of every conversation: there is selected code and a
    /// directory; the proposal is the replacement of the latest turn; it is
    /// under review only where there is one, and the first request is awaited
    /// only where there is none; no error is kept while `pi` works.
    pub open spec fn wf(self) -> bool {
        &&& self.original.len() > 0
        &&& self.cwd.len() > 0
        &&& match self.proposed {
            Some(text) => self.conversation.len() > 0 && text
                == self.conversation.last().replacement,
            None => self.conversation.len() == 0,
        }
        &&& self.phase == Phase::Review ==> self.proposed is Some
        &&& self.phase == Phase::Input ==> self.proposed is None
        &&& self.phase == Phase::Waiting ==> self.error is None
    }

    /// A conversation as it begins.
    pub open spec fn begin(subject: SubjectView, number: u64) -> ChatView {
        ChatView {
            number,
            document_id: subject.document_id,
            view_id: subject.view_id,
            range: subject.range,
            document_version: subject.document_version,
            original: subject.original,
            proposed: None,
            language: subject.language,
            file: subject.file,
            cwd: subject.cwd,
            conversation: Seq::empty(),
            prompt_area: Rect::zero(),
            phase: Phase::Input,
            scroll: 0,
            error: None,
        }
    }

    /// The snippet as it stands: the latest proposal, else the selected code.
    pub open spec fn current(self) -> Seq<char> {
        match self.proposed {
            Some(text) => text,
            None => self.original,
        }
    }

    /// What `pi` is told with `request`.
    pub open spec fn context(self, request: Seq<char>) -> ContextView {
        ContextView {
            original: self.original,
            current: self.current(),
            language: self.language,
            file: self.file,
            conversation: self.conversation,
            request,
        }
    }

    /// The line `line` of the prompt is sent.
    pub open spec fn submit(self, line: Seq<char>) -> (ChatView, ActionView) {
        let request = trimmed(line);
        if request.len() == 0 {
            (self, ActionView::ShowError("Enter a message for pi"@))
        } else {
            (
                ChatView { phase: Phase::Waiting, error: None, ..self },
                ActionView::Submit(
                    PiRequestView {
                        number: self.number,
                        request,
                        cwd: self.cwd,
                        input: context_json(self.context(request)),
                    },
                ),
            )
        }
    }

    /// `pi` has answered `request` of the conversation `number`. The answer
    /// to another conversation is no concern of this one.
    pub open spec fn finish(
        self,
        number: u64,
        request: Seq<char>,
        result: Result<Seq<char>, PiErrorView>,
    ) -> ChatView {
        if number != self.number {
            self
        } else {
            self.take_up(request, result)
        }
    }

    /// `pi` has answered `request` of this conversation.
    pub open spec fn take_up(
        self,
        request: Seq<char>,
        result: Result<Seq<char>, PiErrorView>,
    ) -> ChatView {
        match result {
            Ok(replacement) => ChatView {
                conversation: self.conversation.push(TurnView { request, replacement }),
                proposed: Some(replacement),
                phase: Phase::Review,
                scroll: 0,
                error: None,
                ..self
            },
            Err(e) => ChatView {
                error: Some("pi failed: "@ + e.message()),
                phase: if self.proposed is Some {
                    Phase::Review
                } else {
                    Phase::Input
                },
                ..self
            },
        }
    }

    /// A key is pressed while `line` stands in the prompt.
    pub open spec fn press(self, key: KeyEvent, line: Seq<char>) -> (ChatView, ActionView) {
        let plain = key.modifiers == Modifiers::plain();
        let control = key.modifiers == Modifiers::only_control();
        if plain && key.code == KeyCode::Esc || control && key.code == KeyCode::Char('c') {
            (self, ActionView::Close)
        } else if control && key.code == KeyCode::Char('s') {
            if self.phase == Phase::Review {
                (self, ActionView::Apply)
            } else {
                (self, ActionView::ShowError("Wait for pi to propose a replacement"@))
            }
        } else if plain && key.code == KeyCode::PageUp {
            (
                ChatView {
                    scroll: if self.scroll < 10 {
                        0u16
                    } else {
                        (self.scroll - 10) as u16
                    },
                    ..self
                },
                ActionView::Consumed,
            )
        } else if plain && key.code == KeyCode::PageDown {
            (
                ChatView {
                    scroll: if self.scroll + 10 > u16::MAX {
                        u16::MAX
                    } else {
                        (self.scroll + 10) as u16
                    },
                    ..self
                },
                ActionView::Consumed,
            )
        } else if self.phase == Phase::Waiting {
            (self, ActionView::Consumed)
        } else if plain && key.code == KeyCode::Enter {
            self.submit(line)
        } else {
            (self, ActionView::Prompt)
        }
    }

    /// `event` comes while `line` stands in the prompt.
    pub open spec fn step(self, event: Event, line: Seq<char>) -> (ChatView, ActionView) {
        match event {
            Event::Key(key) => self.press(key, line),
            Event::Paste => if self.phase == Phase::Waiting {
                (self, ActionView::Consumed)
            } else {
                (self, ActionView::Prompt)
            },
            _ => (self, ActionView::Consumed),
        }
    }

    /// Whether `active` is the view, the document and the version that the
    /// conversation began with.
    pub open spec fn is_about(self, active: ActiveView) -> bool {
        &&& active.document_id == self.document_id
        &&& active.view_id == self.view_id
        &&& active.version == self.document_version
    }

    /// Whether `active` holds the selected code where it was selected.
    pub open spec fn still_selects(self, active: ActiveView) -> bool {
        active.text@.subrange(self.range.start(), self.range.end()) == self.original
    }

    /// Whether the range can be read in `active` and the proposal has a place
    /// in it, as far as applying the proposal comes to that.
    pub open spec fn within(self, active: ActiveView) -> bool {
        self.proposed matches Some(text) ==> self.is_about(active) ==> {
            &&& self.range.end() <= active.text@.len()
            &&& self.still_selects(active) ==> self.range.start() + text.len() <= usize::MAX
        }
    }

    /// The edit that applies the proposal to `active`.
    pub open spec fn apply(self, active: ActiveView) -> Result<EditView, ApplyError> {
        match self.proposed {
            None => Err(ApplyError::NoProposal),
            Some(text) => if active.document_id != self.document_id || active.view_id
                != self.view_id {
                Err(ApplyError::ViewChanged)
            } else if active.version != self.document_version {
                Err(ApplyError::DocumentChanged)
            } else if !self.still_selects(active) {
                Err(ApplyError::SelectionChanged)
            } else {
                Ok(replacing_edit(self.range, text))
            },
        }
    }

    /// What comes of accepting the proposal while `active` is active.
    pub open spec fn confirm(self, active: ActiveView) -> ActionView {
        match self.apply(active) {
            Ok(edit) => ActionView::Replace(edit),
            Err(e) => ActionView::ShowError(e.text()),
        }
    }
}

/// The content of an action is the action with the texts that it holds.
pub proof fn an_action_is_seen_as_it_is(action: Action)
    ensures
        action is Consumed <==> action@ is Consumed,
        action is Close <==> action@ is Close,
        action is Prompt <==> action@ is Prompt,
        action is Apply <==> action@ is Apply,
        action is ShowError <==> action@ is ShowError,
        action is Submit <==> action@ is Submit,
        action is Replace <==> action@ is Replace,
        action matches Action::ShowError(text) ==> action@->ShowError_0 == text@,
        action matches Action::Submit(run) ==> {
            &&& action@->Submit_0.number == run.number
            &&& action@->Submit_0.request == run.request@
            &&& action@->Submit_0.cwd == run.cwd@
            &&& action@->Submit_0.input == run.input@
        },
        action matches Action::Replace(edit) ==> {
            &&& action@->Replace_0.from == edit.from
            &&& action@->Replace_0.to == edit.to
            &&& action@->Replace_0.replacement == edit.replacement@
            &&& action@->Replace_0.selection == edit.selection
        },
{
}

} // verus!
