//! What holds of everything that the dialog shows.

use crate::laws::{after, is_plain_key, Happening};
use crate::layout::{panes_fit, prompt_area, Rect};
use crate::model::{ChatView, Event, KeyCode, KeyEvent, Phase};
use crate::screen::{panes_view, Pane, PaneView, PromptLine, PromptLineView};
use vstd::prelude::*;

verus! {

/// All code is shown from the same line on: every pane, whichever there are,
/// is scrolled to where the conversation is.
pub proof fn every_pane_is_scrolled_alike(chat: ChatView, area: Rect)
    ensures
        forall|i: int|
            0 <= i < chat.panes(area).len() ==> (#[trigger] chat.panes(area)[i]).scroll
                == chat.scroll,
{
}

/// Before there is a proposal one pane shows the selected code in all of the
/// area; with a proposal there are two, the selected code on the left and the
/// proposal on the right of it, side by side within the area. Nothing is shown
/// in an area without cells.
pub proof fn the_panes_show_the_code_and_the_proposal(chat: ChatView, area: Rect)
    ensures
        area.width == 0 || area.height == 0 ==> chat.panes(area).len() == 0,
        area.width > 0 && area.height > 0 && chat.proposed is None ==> {
            let panes = chat.panes(area);
            &&& panes.len() == 1
            &&& panes[0].text == chat.original
            &&& panes[0].area == area
            &&& panes[0].title == " Selected code "@
            &&& panes[0].border == "ui.text"@
            &&& panes[0].style == "ui.text"@
        },
        area.width > 0 && area.height > 0 && panes_fit(area) ==> (
        chat.proposed matches Some(proposal) ==> {
            let panes = chat.panes(area);
            &&& panes.len() == 2
            &&& panes[0].text == chat.original
            &&& panes[0].title == " Old "@
            &&& panes[0].border == "diff.minus"@
            &&& panes[0].style == "ui.text"@
            &&& panes[1].text == proposal
            &&& panes[1].title == " New "@
            &&& panes[1].border == "diff.plus"@
            &&& panes[1].style == "ui.text"@
            &&& panes[0].area.x == area.x
            &&& panes[1].area.x == area.x + panes[0].area.width + 1
            &&& panes[1].area.x + panes[1].area.width == area.x + area.width
            &&& panes[0].area.width <= panes[1].area.width <= panes[0].area.width + 1
            &&& panes[0].area.y == area.y && panes[1].area.y == area.y
            &&& panes[0].area.height == area.height && panes[1].area.height == area.height
        }),
{
}

/// After page down every pane is drawn ten lines further down, and after page
/// up ten lines further up, as far as there are positions; the panes are the
/// same otherwise.
pub proof fn paging_moves_every_pane(chat: ChatView, key: KeyEvent, line: Seq<char>, area: Rect)
    requires
        is_plain_key(key, KeyCode::PageDown) || is_plain_key(key, KeyCode::PageUp),
    ensures
        ({
            let before = chat.panes(area);
            let after = chat.step(Event::Key(key), line).0.panes(area);
            &&& after.len() == before.len()
            &&& forall|i: int|
                0 <= i < before.len() ==> {
                    let (old_pane, new_pane) = (#[trigger] before[i], after[i]);
                    &&& is_plain_key(key, KeyCode::PageDown) ==> new_pane.scroll
                        == old_pane.scroll + 10 || old_pane.scroll + 10 > 65535
                        && new_pane.scroll == 65535
                    &&& is_plain_key(key, KeyCode::PageUp) ==> new_pane.scroll + 10
                        == old_pane.scroll || old_pane.scroll < 10 && new_pane.scroll == 0
                    &&& new_pane == (PaneView { scroll: new_pane.scroll, ..old_pane })
                }
        }),
{
}

/// A new proposal is shown from its top, beside the code that was selected.
pub proof fn a_new_proposal_is_shown_from_its_top(
    chat: ChatView,
    request: Seq<char>,
    replacement: Seq<char>,
    area: Rect,
)
    requires
        area.width > 0,
        area.height > 0,
    ensures
        ({
            let panes = chat.finish(chat.number, request, Ok(replacement)).panes(area);
            &&& panes.len() == 2
            &&& panes[0].text == chat.original && panes[0].scroll == 0
            &&& panes[1].text == replacement && panes[1].scroll == 0
        }),
{
}

/// The title says whether `pi` works.
pub proof fn the_title_tells_whether_pi_works(chat: ChatView)
    ensures
        chat.phase == Phase::Waiting ==> chat.title() == " Pi edit · working… "@,
        chat.phase != Phase::Waiting ==> chat.title() == " Pi edit "@,
{
}

/// The line of the prompt is hidden exactly where it has no cell. Else it is
/// the prompt, in all of its area, except that a text stands at the start of
/// the line while `pi` works.
pub proof fn the_prompt_is_shown_unless_pi_works(chat: ChatView, area: Rect)
    ensures
        chat.prompt_line(area) is Hidden <==> area.width == 0 || area.height == 0,
        area.width > 0 && area.height > 0 && chat.phase != Phase::Waiting ==> chat.prompt_line(area)
            == (PromptLineView::Input { area }),
        area.width > 0 && area.height > 0 && chat.phase == Phase::Waiting ==> (
        chat.prompt_line(area) matches PromptLineView::Waiting { x, y, text, style } && {
            &&& x == area.x && y == area.y
            &&& text == "Waiting for pi…"@
            &&& style == "ui.text.inactive"@
        }),
{
}

/// The last line is the error in full, in the style of errors, for as long as
/// there is one; else it names the keys there are, control-S among them exactly
/// where there is a proposal.
pub proof fn the_last_line_is_the_error_or_the_keys(chat: ChatView)
    ensures
        chat.error matches Some(error) ==> chat.help_text() == error && chat.help_style()
            == "error"@,
        chat.error is None ==> chat.help_style() == "ui.text.inactive"@,
        chat.error is None && chat.proposed is Some ==> chat.help_text()
            == "enter send feedback · ctrl-s apply · page-up/down scroll · esc cancel"@,
        chat.error is None && chat.proposed is None ==> chat.help_text()
            == "enter send · page-up/down scroll · esc cancel"@,
{
}

/// The contents of panes and of the line of the prompt are what they hold.
pub proof fn what_is_drawn_is_seen_as_it_is(panes: Seq<Pane<'_>>, prompt: PromptLine)
    ensures
        panes_view(panes).len() == panes.len(),
        forall|i: int|
            0 <= i < panes.len() ==> {
                let (seen, pane) = (#[trigger] panes_view(panes)[i], panes[i]);
                &&& seen.area == pane.area
                &&& seen.title == pane.title@
                &&& seen.border == pane.border@
                &&& seen.style == pane.style@
                &&& seen.text == pane.text@
                &&& seen.scroll == pane.scroll
            },
        prompt is Hidden <==> prompt@ is Hidden,
        prompt matches PromptLine::Waiting { x, y, text, style } ==> prompt@
            == (PromptLineView::Waiting { x, y, text: text@, style: style@ }),
        prompt matches PromptLine::Input { area } ==> prompt@ == (PromptLineView::Input { area }),
{
}

/// The cursor is hidden exactly while `pi` works. Else it is in the prompt,
/// where the dialog last drew it.
pub proof fn the_cursor_is_where_the_prompt_was_drawn(chat: ChatView, inner: Rect)
    ensures
        chat.cursor() is None <==> chat.phase == Phase::Waiting,
        ({
            let drawn = after(chat, Happening::Draw(inner));
            let prompt = chat.prompt_line(prompt_area(inner));
            &&& drawn == (ChatView { prompt_area: drawn.prompt_area, ..chat })
            &&& prompt matches PromptLineView::Input { area } ==> drawn.cursor() == Some(area)
            &&& prompt is Waiting ==> drawn.cursor() is None
        }),
{
}

} // verus!
