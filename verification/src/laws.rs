//! What holds of every conversation.

use crate::edit::{
    edit_replaces_only_the_selection, edit_selects_the_proposal, ActiveView, ApplyError, EditView,
};
use crate::layout::{prompt_area, Rect};
use crate::model::{
    ActionView, ChatView, Event, KeyCode, KeyEvent, Modifiers, Phase, SubjectView,
};
use crate::process::{tells, PiErrorView};
use crate::reader::{a_request_is_read_back, read_all, reads_context};
use crate::request::TurnView;
use crate::slot::SlotView;
use crate::text::{is_whitespace, only_white_space_trims_to_nothing, trimmed};
use vstd::prelude::*;

verus! {

/// Anything that can happen to a conversation.
pub enum Happening {
    /// An event comes while this line stands in the prompt.
    Event(Event, Seq<char>),
    /// A request of the conversation with this number is answered.
    Answer(u64, Seq<char>, Result<Seq<char>, PiErrorView>),
    /// The dialog is drawn, with this area inside its frame.
    Draw(Rect),
}

/// The conversation after `happening`.
pub open spec fn after(chat: ChatView, happening: Happening) -> ChatView {
    match happening {
        Happening::Event(event, line) => chat.step(event, line).0,
        Happening::Answer(number, request, result) => chat.finish(number, request, result),
        Happening::Draw(inner) => ChatView { prompt_area: prompt_area(inner), ..chat },
    }
}

/// The conversation after all of `happenings`, one after the other.
pub open spec fn after_all(chat: ChatView, happenings: Seq<Happening>) -> ChatView
    decreases happenings.len(),
{
    if happenings.len() == 0 {
        chat
    } else {
        after(after_all(chat, happenings.drop_last()), happenings.last())
    }
}

/// The turns that `happenings` add to the conversation `number`: its
/// requests that were answered with a replacement, in order.
pub open spec fn answered_turns(number: u64, happenings: Seq<Happening>) -> Seq<TurnView>
    decreases happenings.len(),
{
    if happenings.len() == 0 {
        Seq::empty()
    } else {
        let before = answered_turns(number, happenings.drop_last());
        match happenings.last() {
            Happening::Answer(n, request, Ok(replacement)) => if n == number {
                before.push(TurnView { request, replacement })
            } else {
                before
            },
            _ => before,
        }
    }
}

/// Whether two states are of a conversation about the same selected code.
pub open spec fn same_subject(a: ChatView, b: ChatView) -> bool {
    &&& a.number == b.number
    &&& a.document_id == b.document_id
    &&& a.view_id == b.view_id
    &&& a.range == b.range
    &&& a.document_version == b.document_version
    &&& a.original == b.original
    &&& a.language == b.language
    &&& a.file == b.file
    &&& a.cwd == b.cwd
}

/// Whatever happens, the invariant holds, the conversation stays about the
/// code that it began with, and its turns are those it had, followed by its
/// requests that were answered with a replacement, in order.
pub proof fn a_conversation_only_grows(chat: ChatView, happenings: Seq<Happening>)
    requires
        chat.wf(),
    ensures
        after_all(chat, happenings).wf(),
        same_subject(chat, after_all(chat, happenings)),
        after_all(chat, happenings).conversation == chat.conversation + answered_turns(
            chat.number,
            happenings,
        ),
    decreases happenings.len(),
{
    if happenings.len() > 0 {
        a_conversation_only_grows(chat, happenings.drop_last());
    }
    assert(after_all(chat, happenings).conversation =~= chat.conversation + answered_turns(
        chat.number,
        happenings,
    ));
}

/// A request carries the number of its conversation, and its answer, whatever
/// it is, changes no other one: what a closed dialog asked for never reaches
/// the dialog that is opened in its place.
pub proof fn an_answer_concerns_only_the_conversation_that_asked(
    asking: ChatView,
    line: Seq<char>,
    other: ChatView,
    result: Result<Seq<char>, PiErrorView>,
)
    requires
        trimmed(line).len() > 0,
        asking.number != other.number,
    ensures
        ({
            let run = asking.submit(line).1->Submit_0;
            &&& asking.submit(line).1 is Submit
            &&& run.number == asking.number
            &&& run.request == trimmed(line)
            &&& other.finish(run.number, run.request, result) == other
        }),
{
}

/// Answers to other conversations, however many there are, leave a
/// conversation as it is.
pub proof fn foreign_answers_change_nothing(chat: ChatView, happenings: Seq<Happening>)
    requires
        forall|i: int|
            0 <= i < happenings.len() ==> (#[trigger] happenings[i] matches Happening::Answer(
                number,
                _,
                _,
            ) && number != chat.number),
    ensures
        after_all(chat, happenings) == chat,
    decreases happenings.len(),
{
    if happenings.len() > 0 {
        assert(happenings.last() == happenings[happenings.len() - 1]);
        assert forall|i: int| 0 <= i < happenings.drop_last().len() implies (
        #[trigger] happenings.drop_last()[i] matches Happening::Answer(number, _, _) && number
            != chat.number) by {
            assert(happenings.drop_last()[i] == happenings[i]);
        }
        foreign_answers_change_nothing(chat, happenings.drop_last());
    }
}

/// Anything that can happen to the place of the dialog.
pub enum SlotHappening {
    /// A dialog is opened.
    Open(SubjectView),
    /// The dialog is closed.
    Close,
    /// Something happens while a dialog may be open; it is for that one.
    Within(Happening),
}

/// The slot after `happening`. When the numbers are used up no dialog is
/// opened any more.
pub open spec fn slot_after(slot: SlotView, happening: SlotHappening) -> SlotView {
    match happening {
        SlotHappening::Open(subject) => if slot.next < u64::MAX {
            slot.opened(subject)
        } else {
            slot
        },
        SlotHappening::Close => slot.closed(),
        SlotHappening::Within(Happening::Answer(number, request, result)) => slot.finish(
            number,
            request,
            result,
        ),
        SlotHappening::Within(happening) => match slot.open {
            Some(chat) => SlotView { open: Some(after(chat, happening)), ..slot },
            None => slot,
        },
    }
}

/// The slot after all of `happenings`, one after the other.
pub open spec fn slot_after_all(slot: SlotView, happenings: Seq<SlotHappening>) -> SlotView
    decreases happenings.len(),
{
    if happenings.len() == 0 {
        slot
    } else {
        slot_after(slot_after_all(slot, happenings.drop_last()), happenings.last())
    }
}

/// Events, answers and drawing keep a slot valid.
pub proof fn what_happens_within_keeps_the_slot_valid(slot: SlotView, happening: Happening)
    requires
        slot.wf(),
    ensures
        slot_after(slot, SlotHappening::Within(happening)).wf(),
{
}

/// Whether the numbers up to `number` belong to the past of `slot`.
spec fn is_past(slot: SlotView, number: u64) -> bool {
    &&& number < slot.next
    &&& slot.open matches Some(chat) ==> number < chat.number
}

proof fn lemma_past_stays_past(slot: SlotView, happenings: Seq<SlotHappening>, number: u64)
    requires
        is_past(slot, number),
    ensures
        is_past(slot_after_all(slot, happenings), number),
    decreases happenings.len(),
{
    if happenings.len() > 0 {
        lemma_past_stays_past(slot, happenings.drop_last(), number);
    }
}

proof fn lemma_numbers_only_grow(slot: SlotView, happenings: Seq<SlotHappening>)
    ensures
        slot.next <= slot_after_all(slot, happenings).next,
    decreases happenings.len(),
{
    if happenings.len() > 0 {
        lemma_numbers_only_grow(slot, happenings.drop_last());
    }
}

/// A conversation ends when its dialog is closed. Where a dialog has sent a
/// request and is closed, and another dialog is opened in its place, the
/// answer to that request changes nothing, whatever it is, whatever happened
/// in between, and whatever has happened since.
pub proof fn a_late_answer_changes_nothing(
    slot: SlotView,
    line: Seq<char>,
    between: Seq<SlotHappening>,
    subject: SubjectView,
    since: Seq<SlotHappening>,
    result: Result<Seq<char>, PiErrorView>,
)
    requires
        slot.wf(),
        slot.open is Some,
        trimmed(line).len() > 0,
        slot_after_all(slot.closed(), between).next < u64::MAX,
    ensures
        ({
            let (asking, action) = slot.open->0.submit(line);
            let run = action->Submit_0;
            let sent = SlotView { open: Some(asking), ..slot };
            let reopened = slot_after_all(sent.closed(), between).opened(subject);
            let now = slot_after_all(reopened, since);
            &&& action is Submit
            &&& now.finish(run.number, run.request, result) == now
        }),
{
    let asking = slot.open->0;
    let sent = SlotView { open: Some(asking.submit(line).0), ..slot };
    assert(sent.closed() == slot.closed());
    let later = slot_after_all(slot.closed(), between);
    lemma_numbers_only_grow(slot.closed(), between);
    let reopened = later.opened(subject);
    assert(is_past(reopened, asking.number));
    lemma_past_stays_past(reopened, since, asking.number);
    let now = slot_after_all(reopened, since);
    if now.open is Some {
        assert(now.open->0.finish(asking.number, trimmed(line), result) == now.open->0);
    }
}

/// The answer to a request of a closed dialog changes nothing while no other
/// is open.
pub proof fn an_answer_without_a_dialog_changes_nothing(
    slot: SlotView,
    number: u64,
    request: Seq<char>,
    result: Result<Seq<char>, PiErrorView>,
)
    ensures
        slot.closed().finish(number, request, result) == slot.closed(),
{
}

/// An event alone changes neither the proposal nor the turns: only an answer
/// of `pi` does.
pub proof fn an_event_keeps_the_proposal(chat: ChatView, event: Event, line: Seq<char>)
    ensures
        chat.step(event, line).0.proposed == chat.proposed,
        chat.step(event, line).0.conversation == chat.conversation,
{
}

/// A request that is answered becomes the latest turn, with the request as it
/// was sent, and its replacement is the proposal under review, shown from the
/// top without an error.
pub proof fn an_answered_request_becomes_a_turn(
    chat: ChatView,
    line: Seq<char>,
    replacement: Seq<char>,
)
    requires
        trimmed(line).len() > 0,
    ensures
        ({
            let sent = chat.submit(line).0;
            let done = sent.finish(chat.number, trimmed(line), Ok(replacement));
            &&& done.conversation == chat.conversation.push(
                TurnView { request: trimmed(line), replacement },
            )
            &&& done.proposed == Some(replacement)
            &&& done.phase == Phase::Review
            &&& done.scroll == 0
            &&& done.error is None
            &&& same_subject(chat, done)
        }),
{
}

/// The next request tells `pi` the latest proposal as the current snippet,
/// beside the selected code and every turn before it.
pub proof fn the_next_request_builds_on_the_proposal(
    chat: ChatView,
    request: Seq<char>,
    replacement: Seq<char>,
    next: Seq<char>,
)
    ensures
        ({
            let context = chat.finish(chat.number, request, Ok(replacement)).context(next);
            &&& context.current == replacement
            &&& context.original == chat.original
            &&& context.conversation == chat.conversation.push(TurnView { request, replacement })
            &&& context.request == next
        }),
{
}

/// A request that fails leaves the conversation as it was before it was sent,
/// but for the error: the same proposal, the same turns, the same phase.
pub proof fn a_failed_request_changes_nothing_else(
    chat: ChatView,
    line: Seq<char>,
    e: PiErrorView,
)
    requires
        chat.wf(),
        chat.phase != Phase::Waiting,
        trimmed(line).len() > 0,
    ensures
        chat.submit(line).0.finish(chat.number, trimmed(line), Err(e)) == (ChatView {
            error: Some("pi failed: "@ + e.message()),
            ..chat
        }),
{
}

/// A line of white space is not sent: the conversation stays as it is.
pub proof fn a_blank_line_is_not_sent(chat: ChatView, line: Seq<char>)
    requires
        forall|i: int| 0 <= i < line.len() ==> is_whitespace(#[trigger] line[i]),
    ensures
        chat.submit(line) == (chat, ActionView::ShowError("Enter a message for pi"@)),
{
    only_white_space_trims_to_nothing(line);
}

/// While `pi` works no second request goes out, nothing reaches the prompt
/// and nothing is applied; all that an event can do is scroll, close the
/// dialog or show an error.
pub proof fn waiting_admits_no_request(chat: ChatView, event: Event, line: Seq<char>)
    requires
        chat.phase == Phase::Waiting,
    ensures
        ({
            let (next, action) = chat.step(event, line);
            &&& next == (ChatView { scroll: next.scroll, ..chat })
            &&& action is Consumed || action is Close || action is ShowError
        }),
{
}

/// Escape and control-C close the dialog, whatever it is doing.
pub proof fn the_dialog_can_always_be_closed(chat: ChatView, line: Seq<char>)
    ensures
        chat.step(
            Event::Key(KeyEvent { code: KeyCode::Esc, modifiers: Modifiers::plain() }),
            line,
        ) == (chat, ActionView::Close),
        chat.step(
            Event::Key(KeyEvent { code: KeyCode::Char('c'), modifiers: Modifiers::only_control() }),
            line,
        ) == (chat, ActionView::Close),
{
}

/// Only control-S applies a proposal, and only while one is under review.
pub proof fn a_proposal_is_applied_from_review_only(chat: ChatView, event: Event, line: Seq<char>)
    requires
        chat.wf(),
    ensures
        chat.step(event, line).1 is Apply <==> chat.phase == Phase::Review && event == Event::Key(
            KeyEvent { code: KeyCode::Char('s'), modifiers: Modifiers::only_control() },
        ),
        chat.step(event, line).1 is Apply ==> chat.proposed is Some,
        !(chat.step(event, line).1 is Replace),
{
}

/// A document is edited exactly where there is a proposal, the view, the
/// document and its version are those that the conversation began with, and
/// the range still holds the selected code. In every other case the user is
/// told why not.
pub proof fn a_changed_document_is_not_edited(chat: ChatView, active: ActiveView)
    ensures
        chat.confirm(active) is Replace <==> chat.proposed is Some && chat.is_about(active)
            && chat.still_selects(active),
        !(chat.confirm(active) is Replace) ==> chat.confirm(active) is ShowError,
{
}

/// An accepted proposal, which is the replacement of the latest turn, takes
/// the place of the selected code in the document; what stands before and
/// after it stays; and the proposal is what is selected then, in the
/// direction of the selection before where it has any characters.
pub proof fn an_accepted_proposal_replaces_the_selected_code(chat: ChatView, active: ActiveView)
    requires
        chat.wf(),
        chat.within(active),
        chat.confirm(active) is Replace,
    ensures
        ({
            let edit = chat.confirm(active)->Replace_0;
            let text = active.text@;
            let proposal = chat.conversation.last().replacement;
            let before = text.subrange(0, chat.range.start());
            let behind = text.subrange(chat.range.end(), text.len() as int);
            &&& text == before + chat.original + behind
            &&& edit.applied_to(text) == before + proposal + behind
            &&& edit.applied_to(text).subrange(edit.selection.start(), edit.selection.end())
                == proposal
            &&& proposal.len() > 0 ==> edit.selection.heading() == chat.range.heading()
        }),
{
    let text = active.text@;
    let proposal = chat.conversation.last().replacement;
    let before = text.subrange(0, chat.range.start());
    let behind = text.subrange(chat.range.end(), text.len() as int);
    edit_replaces_only_the_selection(text, chat.range, proposal);
    edit_selects_the_proposal(text, chat.range, proposal);
    assert(text =~= before + chat.original + behind);
}

/// The error of a failed request is what the last line of the dialog says
/// until a request is sent again.
pub proof fn an_error_stays_until_the_next_request(chat: ChatView, event: Event, line: Seq<char>)
    requires
        chat.error is Some,
    ensures
        ({
            let (next, action) = chat.step(event, line);
            &&& chat.help_text() == chat.error->0
            &&& next.error == if action is Submit {
                None
            } else {
                chat.error
            }
        }),
{
}

/// Page down and page up undo each other, away from the ends of the range of
/// positions.
pub proof fn scrolling_back_returns(chat: ChatView, line: Seq<char>)
    ensures
        ({
            let down = Event::Key(
                KeyEvent { code: KeyCode::PageDown, modifiers: Modifiers::plain() },
            );
            let up = Event::Key(KeyEvent { code: KeyCode::PageUp, modifiers: Modifiers::plain() });
            &&& chat.scroll + 10 <= u16::MAX ==> chat.step(down, line).0.step(up, line).0 == chat
            &&& chat.scroll >= 10 ==> chat.step(up, line).0.step(down, line).0 == chat
        }),
{
}

/// A conversation begins with all that it is about, without a turn, a proposal
/// or an error, at the top of the code and waiting for the first request.
pub proof fn a_conversation_begins_with_its_subject(subject: SubjectView, number: u64)
    ensures
        ({
            let chat = ChatView::begin(subject, number);
            &&& chat.number == number
            &&& chat.document_id == subject.document_id
            &&& chat.view_id == subject.view_id
            &&& chat.range == subject.range
            &&& chat.document_version == subject.document_version
            &&& chat.original == subject.original
            &&& chat.language == subject.language
            &&& chat.file == subject.file
            &&& chat.cwd == subject.cwd
            &&& chat.conversation.len() == 0
            &&& chat.proposed is None
            &&& chat.error is None
            &&& chat.scroll == 0
            &&& chat.phase == Phase::Input
            &&& chat.prompt_area.width == 0 && chat.prompt_area.height == 0
            &&& chat.prompt_area.x == 0 && chat.prompt_area.y == 0
        }),
{
}

/// Whether `line` holds anything but white space.
pub open spec fn says_something(line: Seq<char>) -> bool {
    exists|i: int| 0 <= i < line.len() && !is_whitespace(#[trigger] line[i])
}

proof fn lemma_says_something(line: Seq<char>)
    ensures
        says_something(line) <==> trimmed(line).len() > 0,
{
    only_white_space_trims_to_nothing(line);
}

/// A line that says something is sent. The run is that of the conversation, in
/// its directory, for the line without the white space around it; and its
/// input, read as JSON, names the selected code, the proposal if there is one
/// and else the selected code once more, the language, the file with all of
/// its path, every turn so far in order, and the line.
pub proof fn a_request_tells_the_whole_conversation(chat: ChatView, line: Seq<char>)
    requires
        says_something(line),
    ensures
        chat.submit(line).1 matches ActionView::Submit(run) && {
            &&& run.number == chat.number
            &&& run.cwd == chat.cwd
            &&& run.request == trimmed(line)
            &&& read_all(run.input) matches Some(value) && reads_context(
                value,
                chat.original,
                if chat.proposed is Some {
                    chat.proposed->0
                } else {
                    chat.original
                },
                chat.language,
                chat.file,
                chat.conversation,
                trimmed(line),
            )
        },
{
    lemma_says_something(line);
    a_request_is_read_back(chat.context(trimmed(line)));
}

/// Whatever has happened in a dialog, a request that it sends is about what it
/// was opened with: its run is in that directory, and its input, read as JSON,
/// names that code as the original, that language and that file, with the
/// requests that were answered so far and their replacements in order, and the
/// latest of these replacements as the current snippet, or the original where
/// there is none.
pub proof fn a_request_is_about_what_the_dialog_was_opened_with(
    subject: SubjectView,
    number: u64,
    happenings: Seq<Happening>,
    line: Seq<char>,
)
    requires
        subject.original.len() > 0,
        subject.cwd.len() > 0,
        says_something(line),
    ensures
        ({
            let chat = after_all(ChatView::begin(subject, number), happenings);
            let turns = answered_turns(number, happenings);
            chat.submit(line).1 matches ActionView::Submit(run) && {
                &&& run.number == number
                &&& run.cwd == subject.cwd
                &&& run.request == trimmed(line)
                &&& read_all(run.input) matches Some(value) && reads_context(
                    value,
                    subject.original,
                    if turns.len() > 0 {
                        turns.last().replacement
                    } else {
                        subject.original
                    },
                    subject.language,
                    subject.file,
                    turns,
                    trimmed(line),
                )
            }
        }),
{
    let begun = ChatView::begin(subject, number);
    let chat = after_all(begun, happenings);
    a_conversation_only_grows(begun, happenings);
    assert(chat.conversation =~= answered_turns(number, happenings));
    a_request_tells_the_whole_conversation(chat, line);
}

/// To send a line is to wait for `pi` without an error; nothing else of the
/// conversation changes. A line that says nothing is answered with a message
/// instead, and changes nothing.
pub proof fn sending_only_begins_to_wait(chat: ChatView, line: Seq<char>)
    ensures
        says_something(line) ==> {
            let sent = chat.submit(line).0;
            &&& same_subject(chat, sent)
            &&& sent.proposed == chat.proposed
            &&& sent.conversation == chat.conversation
            &&& sent.scroll == chat.scroll
            &&& sent.prompt_area == chat.prompt_area
            &&& sent.phase == Phase::Waiting
            &&& sent.error is None
        },
        !says_something(line) ==> chat.submit(line) == (
            chat,
            ActionView::ShowError("Enter a message for pi"@),
        ),
{
    lemma_says_something(line);
}

/// Whether `key` is `code` without any modifier.
pub open spec fn is_plain_key(key: KeyEvent, code: KeyCode) -> bool {
    let m = key.modifiers;
    key.code == code && !m.shift && !m.control && !m.alt && !m.super_key
}

/// Whether `key` is the character `c` with control and no other modifier.
pub open spec fn is_control_key(key: KeyEvent, c: char) -> bool {
    let m = key.modifiers;
    key.code == KeyCode::Char(c) && !m.shift && m.control && !m.alt && !m.super_key
}

/// Whether the dialog has a use of its own for `key`.
pub open spec fn is_dialog_key(key: KeyEvent) -> bool {
    ||| is_plain_key(key, KeyCode::Esc)
    ||| is_plain_key(key, KeyCode::Enter)
    ||| is_plain_key(key, KeyCode::PageUp)
    ||| is_plain_key(key, KeyCode::PageDown)
    ||| is_control_key(key, 'c')
    ||| is_control_key(key, 's')
}

/// Whatever the dialog has no use for goes to the prompt, before the first
/// request and under review alike, and leaves the conversation as it is; while
/// `pi` works it goes nowhere. So does a text that is pasted. No other event
/// of the terminal has an effect.
pub proof fn other_keys_go_to_the_prompt(chat: ChatView, key: KeyEvent, line: Seq<char>)
    ensures
        chat.phase != Phase::Waiting && !is_dialog_key(key) ==> chat.step(Event::Key(key), line)
            == (chat, ActionView::Prompt),
        chat.phase == Phase::Waiting && !is_dialog_key(key) ==> chat.step(Event::Key(key), line)
            == (chat, ActionView::Consumed),
        chat.phase != Phase::Waiting ==> chat.step(Event::Paste, line) == (
            chat,
            ActionView::Prompt,
        ),
        chat.phase == Phase::Waiting ==> chat.step(Event::Paste, line) == (
            chat,
            ActionView::Consumed,
        ),
        chat.step(Event::Resize, line) == (chat, ActionView::Consumed),
        chat.step(Event::Mouse, line) == (chat, ActionView::Consumed),
        chat.step(Event::Other, line) == (chat, ActionView::Consumed),
{
}

/// Enter sends the line of the prompt, before the first request and under
/// review alike, exactly where it says something; while `pi` works it does
/// nothing.
pub proof fn enter_sends_the_line(chat: ChatView, key: KeyEvent, line: Seq<char>)
    requires
        is_plain_key(key, KeyCode::Enter),
    ensures
        chat.phase != Phase::Waiting ==> {
            let (next, action) = chat.step(Event::Key(key), line);
            &&& action is Submit <==> says_something(line)
            &&& (next, action) == chat.submit(line)
            &&& next.phase == Phase::Waiting <==> says_something(line)
        },
        chat.phase == Phase::Waiting ==> chat.step(Event::Key(key), line) == (
            chat,
            ActionView::Consumed,
        ),
{
    lemma_says_something(line);
}

/// Nothing but enter sends a request, and it sends the line in the prompt.
pub proof fn only_enter_sends(chat: ChatView, event: Event, line: Seq<char>)
    requires
        chat.step(event, line).1 is Submit,
    ensures
        event matches Event::Key(key) && is_plain_key(key, KeyCode::Enter),
        chat.phase != Phase::Waiting,
        says_something(line),
        chat.step(event, line) == chat.submit(line),
{
    lemma_says_something(line);
}

/// Escape and control-C close the dialog and nothing else does; control-S
/// applies the proposal under review and says otherwise that there is none
/// yet. The conversation stays as it is.
pub proof fn closing_and_applying_have_their_keys(chat: ChatView, event: Event, line: Seq<char>)
    ensures
        chat.step(event, line).1 is Close <==> (event matches Event::Key(key) && (is_plain_key(
            key,
            KeyCode::Esc,
        ) || is_control_key(key, 'c'))),
        chat.step(event, line).1 is Close ==> chat.step(event, line).0 == chat,
        (event matches Event::Key(key) && is_control_key(key, 's')) ==> chat.step(event, line) == (
            chat,
            if chat.phase == Phase::Review {
                ActionView::Apply
            } else {
                ActionView::ShowError("Wait for pi to propose a replacement"@)
            },
        ),
{
}

/// Page down moves ten lines on and page up ten lines back, in every phase, as
/// far as there are positions; nothing else of the conversation changes, and
/// no other event scrolls.
pub proof fn paging_scrolls_by_ten_lines(chat: ChatView, event: Event, line: Seq<char>)
    ensures
        ({
            let (next, action) = chat.step(event, line);
            &&& (event matches Event::Key(key) && is_plain_key(key, KeyCode::PageDown)) ==> {
                &&& action is Consumed
                &&& next == (ChatView { scroll: next.scroll, ..chat })
                &&& chat.scroll <= next.scroll <= chat.scroll + 10
                &&& next.scroll == chat.scroll + 10 || next.scroll == 65535
            }
            &&& (event matches Event::Key(key) && is_plain_key(key, KeyCode::PageUp)) ==> {
                &&& action is Consumed
                &&& next == (ChatView { scroll: next.scroll, ..chat })
                &&& next.scroll <= chat.scroll <= next.scroll + 10
                &&& next.scroll + 10 == chat.scroll || next.scroll == 0
            }
            &&& next.scroll != chat.scroll ==> (event matches Event::Key(key) && (is_plain_key(
                key,
                KeyCode::PageDown,
            ) || is_plain_key(key, KeyCode::PageUp)))
        }),
{
}

/// The answer to a request of a conversation, in whatever phase it comes: a
/// replacement becomes the latest turn, with its request, and the proposal
/// under review, shown from its top without an error. A failure is kept as the
/// error, which tells its message in full; the turns, the proposal and the
/// place in the code stay, and a proposal that there was before is under
/// review again. Neither changes what the conversation is about.
pub proof fn an_answer_is_taken_up(
    chat: ChatView,
    request: Seq<char>,
    replacement: Seq<char>,
    e: PiErrorView,
)
    ensures
        ({
            let done = chat.finish(chat.number, request, Ok(replacement));
            &&& done.conversation.len() == chat.conversation.len() + 1
            &&& chat.conversation.is_prefix_of(done.conversation)
            &&& done.conversation.last().request == request
            &&& done.conversation.last().replacement == replacement
            &&& done.proposed == Some(replacement)
            &&& done.phase == Phase::Review
            &&& done.scroll == 0
            &&& done.error is None
            &&& done.prompt_area == chat.prompt_area
            &&& same_subject(chat, done)
        }),
        ({
            let failed = chat.finish(chat.number, request, Err(e));
            &&& failed.error matches Some(text) && tells(text, "pi failed: "@, e.message())
            &&& failed.conversation == chat.conversation
            &&& failed.proposed == chat.proposed
            &&& failed.scroll == chat.scroll
            &&& failed.prompt_area == chat.prompt_area
            &&& failed.phase == Phase::Review <==> chat.proposed is Some
            &&& failed.phase == Phase::Input <==> chat.proposed is None
            &&& same_subject(chat, failed)
        }),
{
}

/// An answer leaves every other conversation as it is.
pub proof fn an_answer_to_another_conversation_is_ignored(
    chat: ChatView,
    number: u64,
    request: Seq<char>,
    result: Result<Seq<char>, PiErrorView>,
)
    requires
        number != chat.number,
    ensures
        chat.finish(number, request, result) == chat,
{
}

/// Whether `active` is the document, the view and the version that `chat` is
/// about, and holds the selected code between the anchor and the head of its
/// range.
pub open spec fn is_unchanged(chat: ChatView, active: ActiveView) -> bool {
    let (anchor, head) = (chat.range.anchor as int, chat.range.head as int);
    &&& active.document_id == chat.document_id
    &&& active.view_id == chat.view_id
    &&& active.version == chat.document_version
    &&& anchor <= head ==> active.text@.subrange(anchor, head) == chat.original
    &&& head < anchor ==> active.text@.subrange(head, anchor) == chat.original
}

/// A proposal replaces the selected code exactly where the document, the view,
/// the version and that code are as they were when the conversation began. The
/// edit then takes away what stands between the anchor and the head of the
/// range, puts the proposal there and selects it, with the cursor at the end
/// that it was at.
pub proof fn a_proposal_replaces_the_range(chat: ChatView, active: ActiveView)
    requires
        chat.within(active),
    ensures
        ({
            let (anchor, head) = (chat.range.anchor as int, chat.range.head as int);
            &&& chat.confirm(active) is Replace <==> chat.proposed is Some && is_unchanged(
                chat,
                active,
            )
            &&& chat.apply(active) is Ok <==> chat.confirm(active) is Replace
            &&& chat.confirm(active) matches ActionView::Replace(edit) ==> {
                &&& chat.apply(active) == Ok::<EditView, ApplyError>(edit)
                &&& chat.proposed == Some(edit.replacement)
                &&& anchor <= head ==> {
                    &&& edit.from == anchor && edit.to == head
                    &&& edit.selection.anchor == anchor
                    &&& edit.selection.head == anchor + edit.replacement.len()
                }
                &&& head < anchor ==> {
                    &&& edit.from == head && edit.to == anchor
                    &&& edit.selection.head == head
                    &&& edit.selection.anchor == head + edit.replacement.len()
                }
            }
        }),
{
}

/// Where a proposal cannot be applied the user is told the first thing that
/// stands in the way: that there is no proposal, that another view or document
/// is active, that the document has another version, or that the selected code
/// is another.
pub proof fn a_refused_proposal_is_explained(chat: ChatView, active: ActiveView)
    ensures
        ({
            let none = chat.proposed is None;
            let elsewhere = active.document_id != chat.document_id || active.view_id
                != chat.view_id;
            let newer = active.version != chat.document_version;
            let result = chat.apply(active);
            let action = chat.confirm(active);
            &&& none ==> {
                &&& result == Err::<EditView, ApplyError>(ApplyError::NoProposal)
                &&& action == ActionView::ShowError("Wait for pi to propose a replacement"@)
            }
            &&& !none && elsewhere ==> {
                &&& result == Err::<EditView, ApplyError>(ApplyError::ViewChanged)
                &&& action == ActionView::ShowError(
                    "The edited view is no longer active; start the AI edit again"@,
                )
            }
            &&& !none && !elsewhere && newer ==> {
                &&& result == Err::<EditView, ApplyError>(ApplyError::DocumentChanged)
                &&& action == ActionView::ShowError(
                    "The document changed while pi was working; start the AI edit again"@,
                )
            }
            &&& !none && !elsewhere && !newer && !is_unchanged(chat, active) ==> {
                &&& result == Err::<EditView, ApplyError>(ApplyError::SelectionChanged)
                &&& action == ActionView::ShowError(
                    "The selected code changed while pi was working; start the AI edit again"@,
                )
            }
        }),
{
}

/// Accepting a proposal stays within a document exactly where the document is
/// long enough for both ends of the range and, if it is to be edited, there is
/// a position for the end of the proposal. Where the document is not looked at
/// it always does.
pub proof fn a_document_that_is_long_enough_can_be_edited(chat: ChatView, active: ActiveView)
    ensures
        chat.proposed is None ==> chat.within(active),
        active.document_id != chat.document_id || active.view_id != chat.view_id || active.version
            != chat.document_version ==> chat.within(active),
        chat.proposed matches Some(text) ==> active.document_id == chat.document_id
            && active.view_id == chat.view_id && active.version == chat.document_version ==> (
        chat.within(active) <==> {
            &&& chat.range.anchor <= active.text@.len()
            &&& chat.range.head <= active.text@.len()
            &&& is_unchanged(chat, active) ==> chat.range.anchor + text.len() <= usize::MAX
                || chat.range.head + text.len() <= usize::MAX
        }),
{
}

/// A dialog that is opened gets the next number and begins with its subject,
/// whatever was open before; one that is closed is gone, and its number is not
/// given out again.
pub proof fn a_dialog_is_opened_and_closed(slot: SlotView, subject: SubjectView)
    requires
        slot.next < u64::MAX,
    ensures
        slot.opened(subject).next == slot.next + 1,
        slot.opened(subject).open == Some(ChatView::begin(subject, slot.next)),
        slot.closed().open is None,
        slot.closed().next == slot.next,
{
}

/// The answer to a request reaches the dialog that sent it, as long as that
/// one is open: the dialog shows the replacement, or keeps the error. Where
/// another one is open, or none, nothing changes.
pub proof fn an_answer_reaches_the_dialog_that_asked(
    slot: SlotView,
    number: u64,
    request: Seq<char>,
    result: Result<Seq<char>, PiErrorView>,
)
    ensures
        slot.finish(number, request, result).next == slot.next,
        slot.open is None ==> slot.finish(number, request, result) == slot,
        slot.open matches Some(chat) ==> {
            &&& number != chat.number ==> slot.finish(number, request, result) == slot
            &&& slot.finish(number, request, result).open == Some(
                chat.finish(number, request, result),
            )
            &&& number == chat.number ==> (slot.finish(number, request, result).open matches Some(
                now,
            ) && {
                &&& result matches Ok(replacement) ==> {
                    &&& now.proposed == Some(replacement)
                    &&& now.conversation == chat.conversation.push(
                        TurnView { request, replacement },
                    )
                    &&& now.error is None
                }
                &&& result matches Err(e) ==> {
                    &&& now.proposed == chat.proposed
                    &&& now.conversation == chat.conversation
                    &&& now.error matches Some(text) && tells(text, "pi failed: "@, e.message())
                }
            })
        },
{
}

} // verus!
