//! The place of the dialog in an editor. At most one dialog is open at a time;
//! each has a number that no dialog before it had.

use crate::chat::AiChat;
use crate::edit::Range;
use crate::model::{ChatView, SubjectView};
use crate::process::{result_view, PiError, PiErrorView};
use crate::text::option_view;
use vstd::prelude::*;

verus! {

/// The state of a [`DialogSlot`].
pub struct SlotView {
    /// The number of the next conversation.
    pub next: u64,
    /// The conversation that is open.
    pub open: Option<ChatView>,
}

impl SlotView {
    /// What holds of every slot: the number of the open conversation was given
    /// out before.
    pub open spec fn wf(self) -> bool {
        self.open matches Some(chat) ==> chat.wf() && chat.number < self.next
    }

    /// A conversation about `subject` is opened.
    pub open spec fn opened(self, subject: SubjectView) -> SlotView {
        SlotView {
            next: (self.next + 1) as u64,
            open: Some(ChatView::begin(subject, self.next)),
        }
    }

    /// The conversation is closed.
    pub open spec fn closed(self) -> SlotView {
        SlotView { open: None, ..self }
    }

    /// `pi` has answered `request` of the conversation `number`.
    pub open spec fn finish(
        self,
        number: u64,
        request: Seq<char>,
        result: Result<Seq<char>, PiErrorView>,
    ) -> SlotView {
        match self.open {
            Some(chat) => SlotView { open: Some(chat.finish(number, request, result)), ..self },
            None => self,
        }
    }
}

/// The place of the dialog in an editor.
pub struct DialogSlot {
    next: u64,
    chat: Option<AiChat>,
}

impl View for DialogSlot {
    type V = SlotView;

    closed spec fn view(&self) -> SlotView {
        SlotView {
            next: self.next,
            open: match self.chat {
                Some(chat) => Some(chat@),
                None => None,
            },
        }
    }
}

impl DialogSlot {
    /// A slot in which no dialog has been opened yet.
    pub fn new() -> (slot: Self)
        ensures
            slot@ == (SlotView { next: 0, open: None }),
            slot@.wf(),
    {
        DialogSlot { next: 0, chat: None }
    }

    /// Whether there is a number left for another dialog.
    pub fn can_open(&self) -> (r: bool)
        ensures
            r == (self@.next < u64::MAX),
    {
        self.next < u64::MAX
    }

    /// Opens a dialog, in place of the one that is open.
    pub fn open(
        &mut self,
        document_id: u64,
        view_id: u64,
        range: Range,
        document_version: i32,
        original: String,
        language: String,
        file: String,
        cwd: Vec<u8>,
    )
        requires
            old(self)@.next < u64::MAX,
            original@.len() > 0,
            cwd@.len() > 0,
        ensures
            final(self)@ == old(self)@.opened(
                SubjectView {
                    document_id,
                    view_id,
                    range,
                    document_version,
                    original: original@,
                    language: language@,
                    file: file@,
                    cwd: cwd@,
                },
            ),
            final(self)@.wf(),
    {
        let number: u64 = self.next;
        self.next = number + 1;
        self.chat = Some(
            AiChat::new(
                document_id,
                view_id,
                range,
                document_version,
                original,
                language,
                file,
                cwd,
                number,
            ),
        );
    }

    /// Closes the dialog.
    pub fn close(&mut self)
        ensures
            final(self)@ == old(self)@.closed(),
            final(self)@.wf(),
    {
        self.chat = None;
    }

    /// The dialog that is open.
    pub fn chat(&self) -> (r: Option<&AiChat>)
        ensures
            match r {
                Some(chat) => self@.open == Some(chat@),
                None => self@.open is None,
            },
    {
        self.chat.as_ref()
    }

    /// The dialog that is open, to hand events to it and to draw it.
    pub fn chat_mut(&mut self) -> (r: Option<&mut AiChat>)
        ensures
            match r {
                Some(chat) => {
                    &&& old(self)@.open == Some((*chat)@)
                    &&& final(self)@ == (SlotView {
                        open: Some((*final(chat))@),
                        ..old(self)@
                    })
                },
                None => old(self)@.open is None && final(self)@ == old(self)@,
            },
    {
        match &mut self.chat {
            Some(chat) => Some(chat),
            None => None,
        }
    }

    /// Hands the answer of `pi` to `request` of the conversation `number` to
    /// the dialog, if one is open. Returns what to show as an error.
    pub fn finish_request(
        &mut self,
        number: u64,
        request: String,
        result: Result<String, PiError>,
    ) -> (shown: Option<String>)
        requires
            old(self)@.wf(),
        ensures
            final(self)@ == old(self)@.finish(number, request@, result_view(result)),
            option_view(shown) == match final(self)@.open {
                Some(chat) => if number == chat.number && result is Err {
                    chat.error
                } else {
                    None
                },
                None => None,
            },
            final(self)@.wf(),
    {
        match &mut self.chat {
            Some(chat) => chat.finish_request(number, request, result),
            None => None,
        }
    }
}

} // verus!
