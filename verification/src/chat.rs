//! The dialog that holds a conversation.

use crate::edit::{make_edit, ActiveView, ApplyError, Edit, EditView, Range};
use crate::layout::{
    code_area, divide, fits_panes, help_row, modal, modal_fits, modal_rect, panes_fit, prompt_area,
    split_panes, Rect, Rows,
};
use crate::model::{
    Action, ChatView, Event, KeyCode, KeyEvent, Phase, PiRequest, SubjectView, ID,
};
use crate::process::{joined, result_view, tells, PiError};
use crate::request::{
    build_request, clone_turns, turns_view, ConversationTurn, RequestContext, TurnView,
};
use crate::screen::{panes_view, Content, Frame, Help, Pane, PromptLine};
use crate::text::option_view;
use vstd::prelude::*;

verus! {

/// A dialog in which a selected snippet is edited by `pi`.
pub struct AiChat {
    number: u64,
    document_id: u64,
    view_id: u64,
    range: Range,
    document_version: i32,
    original: String,
    proposed: Option<String>,
    language: String,
    file: String,
    cwd: Vec<u8>,
    conversation: Vec<ConversationTurn>,
    prompt_area: Rect,
    phase: Phase,
    scroll: u16,
    error: Option<String>,
}

impl View for AiChat {
    type V = ChatView;

    closed spec fn view(&self) -> ChatView {
        ChatView {
            number: self.number,
            document_id: self.document_id,
            view_id: self.view_id,
            range: self.range,
            document_version: self.document_version,
            original: self.original@,
            proposed: option_view(self.proposed),
            language: self.language@,
            file: self.file@,
            cwd: self.cwd@,
            conversation: turns_view(self.conversation@),
            prompt_area: self.prompt_area,
            phase: self.phase,
            scroll: self.scroll,
            error: option_view(self.error),
        }
    }
}

impl AiChat {
    /// Begins a conversation about the code `original`, selected as `range`
    /// in the given version of a document. Its number tells it from every
    /// other conversation.
    pub fn new(
        document_id: u64,
        view_id: u64,
        range: Range,
        document_version: i32,
        original: String,
        language: String,
        file: String,
        cwd: Vec<u8>,
        number: u64,
    ) -> (chat: Self)
        requires
            original@.len() > 0,
            cwd@.len() > 0,
        ensures
            chat@ == ChatView::begin(
                SubjectView {
                    document_id,
                    view_id,
                    range,
                    document_version,
                    original: original@,
                    language: language@,
                    file: file@,
                    cwd: cwd@,
                },
                number,
            ),
            chat@.wf(),
    {
        let chat: AiChat = AiChat {
            number,
            document_id,
            view_id,
            range,
            document_version,
            original,
            proposed: None,
            language,
            file,
            cwd,
            conversation: Vec::new(),
            prompt_area: Rect { x: 0, y: 0, width: 0, height: 0 },
            phase: Phase::Input,
            scroll: 0,
            error: None,
        };
        assert(chat@.conversation =~= Seq::empty());
        chat
    }

    /// Sends the line of the prompt to `pi`.
    pub fn submit(&mut self, line: &str) -> (action: Action)
        requires
            old(self)@.wf(),
        ensures
            (final(self)@, action@) == old(self)@.submit(line@),
            final(self)@.wf(),
    {
        let request: String = line.trim().to_owned();
        if request.as_str().is_empty() {
            return Action::ShowError("Enter a message for pi".to_owned());
        }
        let current: String = match &self.proposed {
            Some(text) => text.clone(),
            None => self.original.clone(),
        };
        let context: RequestContext = RequestContext {
            original: self.original.clone(),
            current,
            language: self.language.clone(),
            file: self.file.clone(),
            conversation: clone_turns(&self.conversation),
            request: request.clone(),
        };
        assert(context@ == self@.context(request@));
        let input: String = build_request(context);
        self.phase = Phase::Waiting;
        self.error = None;
        Action::Submit(
            PiRequest { number: self.number, request, cwd: self.cwd.clone(), input },
        )
    }

    /// Takes up the answer of `pi` to `request` of the conversation `number`,
    /// if it is this one. Returns what to show as an error.
    pub fn finish_request(
        &mut self,
        number: u64,
        request: String,
        result: Result<String, PiError>,
    ) -> (shown: Option<String>)
        requires
            old(self)@.wf(),
        ensures
            final(self)@ == old(self)@.finish(number, request@, result_view(result)),
            number != old(self)@.number ==> final(self)@ == old(self)@,
            option_view(shown) == if number == old(self)@.number && result is Err {
                final(self)@.error
            } else {
                None
            },
            result is Ok || number != old(self)@.number ==> shown is None,
            number == old(self)@.number ==> (result matches Err(e) ==> shown matches Some(text)
                && tells(text@, "pi failed: "@, e@.message())),
            final(self)@.wf(),
    {
        if number != self.number {
            return None;
        }
        match result {
            Ok(replacement) => {
                self.conversation.push(
                    ConversationTurn { request, replacement: replacement.clone() },
                );
                self.proposed = Some(replacement);
                self.phase = Phase::Review;
                self.scroll = 0;
                self.error = None;
                assert(self@.conversation =~= old(self)@.conversation.push(
                    TurnView { request: request@, replacement: replacement@ },
                ));
                None
            },
            Err(e) => {
                let message: String = joined("pi failed: ", e.message().as_str());
                self.error = Some(message.clone());
                self.phase = if self.proposed.is_some() {
                    Phase::Review
                } else {
                    Phase::Input
                };
                Some(message)
            },
        }
    }

    /// Takes an event while `line` stands in the prompt.
    pub fn handle_event(&mut self, event: Event, line: &str) -> (action: Action)
        requires
            old(self)@.wf(),
        ensures
            (final(self)@, action@) == old(self)@.step(event, line@),
            final(self)@.wf(),
    {
        let key: KeyEvent = match event {
            Event::Key(key) => key,
            Event::Paste => {
                return if self.phase != Phase::Waiting {
                    Action::Prompt
                } else {
                    Action::Consumed
                };
            },
            Event::Resize | Event::Mouse | Event::Other => return Action::Consumed,
        };
        let plain: bool = key.modifiers.is_plain();
        let control: bool = key.modifiers.is_only_control();
        if plain && key.code == KeyCode::Esc || control && key.code == KeyCode::Char('c') {
            Action::Close
        } else if control && key.code == KeyCode::Char('s') {
            if self.phase == Phase::Review {
                Action::Apply
            } else {
                Action::ShowError("Wait for pi to propose a replacement".to_owned())
            }
        } else if plain && key.code == KeyCode::Enter && self.phase != Phase::Waiting {
            self.submit(line)
        } else if plain && key.code == KeyCode::PageUp {
            self.scroll = self.scroll.saturating_sub(10);
            Action::Consumed
        } else if plain && key.code == KeyCode::PageDown {
            self.scroll = self.scroll.saturating_add(10);
            Action::Consumed
        } else if self.phase == Phase::Waiting {
            Action::Consumed
        } else {
            Action::Prompt
        }
    }

    /// Whether applying the proposal to `active` stays within its text.
    pub fn is_within(&self, active: &ActiveView) -> (r: bool)
        ensures
            r == self@.within(*active),
    {
        match &self.proposed {
            None => true,
            Some(text) => {
                if active.document_id != self.document_id || active.view_id != self.view_id
                    || active.version != self.document_version {
                    return true;
                }
                if self.range.to() > active.text.as_str().unicode_len() {
                    return false;
                }
                let selected: String = active.text.as_str().substring_char(
                    self.range.from(),
                    self.range.to(),
                ).to_owned();
                selected != self.original || text.as_str().unicode_len() <= usize::MAX
                    - self.range.from()
            },
        }
    }

    /// The edit that applies the proposal to what is active in the editor.
    pub fn apply(&self, active: &ActiveView) -> (r: Result<Edit, ApplyError>)
        requires
            self@.within(*active),
        ensures
            match r {
                Ok(edit) => self@.apply(*active) == Ok::<EditView, ApplyError>(edit@),
                Err(e) => self@.apply(*active) == Err::<EditView, ApplyError>(e),
            },
    {
        match &self.proposed {
            None => Err(ApplyError::NoProposal),
            Some(text) => {
                if active.document_id != self.document_id || active.view_id != self.view_id {
                    return Err(ApplyError::ViewChanged);
                }
                if active.version != self.document_version {
                    return Err(ApplyError::DocumentChanged);
                }
                let selected: String = active.text.as_str().substring_char(
                    self.range.from(),
                    self.range.to(),
                ).to_owned();
                if selected != self.original {
                    return Err(ApplyError::SelectionChanged);
                }
                Ok(make_edit(self.range, text))
            },
        }
    }

    /// Accepts the proposal while `active` is active in the editor.
    pub fn confirm(&self, active: &ActiveView) -> (action: Action)
        requires
            self@.within(*active),
        ensures
            action@ == self@.confirm(*active),
    {
        match self.apply(active) {
            Ok(edit) => Action::Replace(edit),
            Err(e) => Action::ShowError(e.message()),
        }
    }

    /// The area of the dialog in `viewport`.
    pub fn modal_area(viewport: Rect) -> (r: Rect)
        requires
            modal_fits(viewport),
        ensures
            r == modal(viewport),
    {
        modal_rect(viewport)
    }

    /// The frame of the dialog in `viewport`; nothing is drawn where the
    /// viewport has no room for it.
    pub fn render_frame(&self, viewport: Rect) -> (r: Option<Frame>)
        requires
            modal_fits(viewport),
        ensures
            r is None <==> modal(viewport).empty(),
            r matches Some(frame) ==> {
                &&& frame.area == modal(viewport)
                &&& frame.title@ == self@.title()
                &&& frame.style@ == "ui.popup"@
                &&& frame.border@ == "ui.text.focus"@
            },
    {
        let area: Rect = Self::modal_area(viewport);
        if area.is_empty() {
            return None;
        }
        let title: &'static str = if self.phase == Phase::Waiting {
            " Pi edit · working… "
        } else {
            " Pi edit "
        };
        Some(Frame { area, title, style: "ui.popup", border: "ui.text.focus" })
    }

    /// Whether the panes that show code in `area` have coordinates.
    pub fn fits_code(&self, area: Rect) -> (r: bool)
        ensures
            r == (self@.proposed is Some && !area.empty() ==> panes_fit(area)),
    {
        self.proposed.is_none() || area.is_empty() || fits_panes(area)
    }

    /// The panes that show code in `area`: the selected code alone before
    /// there is a proposal, else the selected code beside the proposal.
    pub fn render_code(&self, area: Rect) -> (panes: Vec<Pane<'_>>)
        requires
            self@.proposed is Some && !area.empty() ==> panes_fit(area),
        ensures
            panes_view(panes@) == self@.panes(area),
    {
        let mut panes: Vec<Pane<'_>> = Vec::new();
        if !area.is_empty() {
            match &self.proposed {
                Some(proposed) => {
                    let (left, right) = split_panes(area);
                    panes.push(
                        Pane {
                            area: left,
                            title: " Old ",
                            border: "diff.minus",
                            style: "ui.text",
                            text: self.original.as_str(),
                            scroll: self.scroll,
                        },
                    );
                    panes.push(
                        Pane {
                            area: right,
                            title: " New ",
                            border: "diff.plus",
                            style: "ui.text",
                            text: proposed.as_str(),
                            scroll: self.scroll,
                        },
                    );
                },
                None => {
                    panes.push(
                        Pane {
                            area,
                            title: " Selected code ",
                            border: "ui.text",
                            style: "ui.text",
                            text: self.original.as_str(),
                            scroll: self.scroll,
                        },
                    );
                },
            }
        }
        assert(panes_view(panes@) =~= self@.panes(area));
        panes
    }

    /// What stands inside the frame: the area for [`AiChat::render_code`],
    /// the prompt and the help. The prompt keeps its area for
    /// [`AiChat::cursor`].
    pub fn render(&mut self, inner: Rect) -> (content: Content)
        requires
            old(self)@.wf(),
        ensures
            final(self)@ == (ChatView { prompt_area: prompt_area(inner), ..old(self)@ }),
            content.code == code_area(inner),
            content.prompt@ == old(self)@.prompt_line(prompt_area(inner)),
            match (content.help, help_row(inner)) {
                (Some(help), Some(row)) => {
                    &&& help.x == inner.x
                    &&& help.y == row
                    &&& help.width == inner.width
                    &&& help.text@ == old(self)@.help_text()
                    &&& help.style@ == old(self)@.help_style()
                },
                (None, None) => true,
                _ => false,
            },
            final(self)@.wf(),
    {
        let rows: Rows = divide(inner);
        self.prompt_area = rows.prompt;
        let prompt: PromptLine = if rows.prompt.is_empty() {
            PromptLine::Hidden
        } else if self.phase == Phase::Waiting {
            PromptLine::Waiting {
                x: rows.prompt.x,
                y: rows.prompt.y,
                text: "Waiting for pi…",
                style: "ui.text.inactive",
            }
        } else {
            PromptLine::Input { area: rows.prompt }
        };
        let help: Option<Help> = match rows.help {
            Some(row) => Some(self.help(inner.x, row, inner.width)),
            None => None,
        };
        Content { code: rows.code, prompt, help }
    }

    /// The last line of the dialog: the error, else the keys there are.
    fn help(&self, x: u16, y: u16, width: u16) -> (help: Help)
        ensures
            help.x == x,
            help.y == y,
            help.width == width,
            help.text@ == self@.help_text(),
            help.style@ == self@.help_style(),
    {
        match &self.error {
            Some(error) => Help { x, y, width, text: error.clone(), style: "error" },
            None => {
                let text: String = if self.proposed.is_some() {
                    "enter send feedback · ctrl-s apply · page-up/down scroll · esc cancel".to_owned()
                } else {
                    "enter send · page-up/down scroll · esc cancel".to_owned()
                };
                Help { x, y, width, text, style: "ui.text.inactive" }
            },
        }
    }

    /// The area in which the prompt shows its cursor; `None` hides the cursor.
    pub fn cursor(&self) -> (r: Option<Rect>)
        ensures
            r == if self@.phase == Phase::Waiting {
                None::<Rect>
            } else {
                Some(self@.prompt_area)
            },
            r == self@.cursor(),
    {
        if self.phase == Phase::Waiting {
            None
        } else {
            Some(self.prompt_area)
        }
    }

    /// The name of the component.
    pub fn id(&self) -> (r: Option<&'static str>)
        ensures
            r matches Some(id) && id@ == ID@ && id@ == "ai-chat"@,
    {
        Some(ID)
    }
}

} // verus!
