//! The selected range of a document and the edit that replaces it.

use vstd::prelude::*;

verus! {

/// Which end of a range the cursor is at.
#[derive(Clone, Copy, Debug, PartialEq, Eq, Structural)]
pub enum Direction {
    Forward,
    Backward,
}

/// A range of characters between an anchor and a head, in either order.
#[derive(Clone, Copy, Debug, PartialEq, Eq, Structural)]
pub struct Range {
    pub anchor: usize,
    pub head: usize,
}

impl Range {
    /// The lower end.
    pub open spec fn start(self) -> int {
        if self.anchor <= self.head {
            self.anchor as int
        } else {
            self.head as int
        }
    }

    /// The upper end.
    pub open spec fn end(self) -> int {
        if self.anchor <= self.head {
            self.head as int
        } else {
            self.anchor as int
        }
    }

    /// Backward where the head comes before the anchor, else forward.
    pub open spec fn heading(self) -> Direction {
        if self.head < self.anchor {
            Direction::Backward
        } else {
            Direction::Forward
        }
    }

    /// The lower end.
    pub fn from(&self) -> (r: usize)
        ensures
            r == self.start(),
    {
        if self.anchor <= self.head {
            self.anchor
        } else {
            self.head
        }
    }

    /// The upper end.
    pub fn to(&self) -> (r: usize)
        ensures
            r == self.end(),
    {
        if self.anchor <= self.head {
            self.head
        } else {
            self.anchor
        }
    }

    /// Backward where the head comes before the anchor, else forward.
    pub fn direction(&self) -> (r: Direction)
        ensures
            r == self.heading(),
    {
        if self.head < self.anchor {
            Direction::Backward
        } else {
            Direction::Forward
        }
    }

    /// The same characters with the cursor at the end that `direction` says.
    pub fn with_direction(self, direction: Direction) -> (r: Range)
        ensures
            r == if self.heading() == direction {
                self
            } else {
                (Range { anchor: self.head, head: self.anchor })
            },
            r.start() == self.start() && r.end() == self.end(),
            self.anchor != self.head ==> r.heading() == direction,
    {
        if self.direction() == direction {
            self
        } else {
            Range { anchor: self.head, head: self.anchor }
        }
    }
}

/// What is active in the editor: a view, the document in it, the version and
/// the text of that document.
#[derive(Debug, PartialEq, Eq)]
pub struct ActiveView {
    pub document_id: u64,
    pub view_id: u64,
    pub version: i32,
    pub text: String,
}

/// Replaces the characters of a document from `from` up to `to` and selects
/// `selection` afterwards.
#[derive(Debug, PartialEq, Eq)]
pub struct Edit {
    pub from: usize,
    pub to: usize,
    pub replacement: String,
    pub selection: Range,
}

/// The content of an [`Edit`].
pub struct EditView {
    pub from: int,
    pub to: int,
    pub replacement: Seq<char>,
    pub selection: Range,
}

impl View for Edit {
    type V = EditView;

    open spec fn view(&self) -> EditView {
        EditView {
            from: self.from as int,
            to: self.to as int,
            replacement: self.replacement@,
            selection: self.selection,
        }
    }
}

impl EditView {
    /// `text` after the edit.
    pub open spec fn applied_to(self, text: Seq<char>) -> Seq<char> {
        text.subrange(0, self.from) + self.replacement + text.subrange(self.to, text.len() as int)
    }
}

/// The edit that puts `proposal` in place of `range` and keeps the direction
/// of the selection.
pub open spec fn replacing_edit(range: Range, proposal: Seq<char>) -> EditView {
    let start = range.start() as usize;
    let end = (range.start() + proposal.len()) as usize;
    EditView {
        from: range.start(),
        to: range.end(),
        replacement: proposal,
        selection: match range.heading() {
            Direction::Forward => Range { anchor: start, head: end },
            Direction::Backward => Range { anchor: end, head: start },
        },
    }
}

/// Makes the edit that puts `proposal` in place of `range`.
pub(crate) fn make_edit(range: Range, proposal: &String) -> (r: Edit)
    requires
        range.start() + proposal@.len() <= usize::MAX,
    ensures
        r@ == replacing_edit(range, proposal@),
{
    let len: usize = proposal.as_str().unicode_len();
    let selection: Range = Range { anchor: range.from(), head: range.from() + len }.with_direction(
        range.direction(),
    );
    Edit { from: range.from(), to: range.to(), replacement: proposal.clone(), selection }
}

/// Why a proposal cannot be applied.
#[derive(Clone, Copy, Debug, PartialEq, Eq, Structural)]
pub enum ApplyError {
    /// There is no proposal.
    NoProposal,
    /// Another document or another view is active.
    ViewChanged,
    /// The document has another version than when the conversation began.
    DocumentChanged,
    /// The selected range no longer holds the selected code.
    SelectionChanged,
}

impl ApplyError {
    /// What the user is told.
    pub open spec fn text(self) -> Seq<char> {
        match self {
            ApplyError::NoProposal => "Wait for pi to propose a replacement"@,
            ApplyError::ViewChanged =>
                "The edited view is no longer active; start the AI edit again"@,
            ApplyError::DocumentChanged =>
                "The document changed while pi was working; start the AI edit again"@,
            ApplyError::SelectionChanged =>
                "The selected code changed while pi was working; start the AI edit again"@,
        }
    }

    /// What the user is told.
    pub fn message(&self) -> (r: String)
        ensures
            r@ == self.text(),
    {
        match self {
            ApplyError::NoProposal => "Wait for pi to propose a replacement".to_owned(),
            ApplyError::ViewChanged =>
                "The edited view is no longer active; start the AI edit again".to_owned(),
            ApplyError::DocumentChanged =>
                "The document changed while pi was working; start the AI edit again".to_owned(),
            ApplyError::SelectionChanged =>
                "The selected code changed while pi was working; start the AI edit again".to_owned(),
        }
    }
}

/// The edit puts the whole proposal in place of the selected characters and
/// leaves every other character of the document as it was.
pub proof fn edit_replaces_only_the_selection(
    text: Seq<char>,
    range: Range,
    proposal: Seq<char>,
)
    requires
        range.end() <= text.len(),
        range.start() + proposal.len() <= usize::MAX,
    ensures
        ({
            let after = replacing_edit(range, proposal).applied_to(text);
            let behind = range.start() + proposal.len();
            &&& after.len() == text.len() - (range.end() - range.start()) + proposal.len()
            &&& after.subrange(0, range.start()) == text.subrange(0, range.start())
            &&& after.subrange(range.start(), behind) == proposal
            &&& after.subrange(behind, after.len() as int) == text.subrange(
                range.end(),
                text.len() as int,
            )
        }),
{
    let after = replacing_edit(range, proposal).applied_to(text);
    let behind = range.start() + proposal.len();
    assert(after.subrange(0, range.start()) =~= text.subrange(0, range.start()));
    assert(after.subrange(range.start(), behind) =~= proposal);
    assert(after.subrange(behind, after.len() as int) =~= text.subrange(
        range.end(),
        text.len() as int,
    ));
}

/// After the edit exactly the proposal is selected, in the direction that
/// the selection had (a proposal without characters leaves a mere cursor,
/// which counts as forward).
pub proof fn edit_selects_the_proposal(text: Seq<char>, range: Range, proposal: Seq<char>)
    requires
        range.end() <= text.len(),
        range.start() + proposal.len() <= usize::MAX,
    ensures
        ({
            let edit = replacing_edit(range, proposal);
            let selection = edit.selection;
            &&& edit.applied_to(text).subrange(selection.start(), selection.end()) == proposal
            &&& selection.start() == range.start()
            &&& selection.heading() == if proposal.len() > 0 {
                range.heading()
            } else {
                Direction::Forward
            }
        }),
{
    let edit = replacing_edit(range, proposal);
    assert(edit.applied_to(text).subrange(edit.selection.start(), edit.selection.end())
        =~= proposal);
}

/// Proposing what is already selected changes nothing.
pub proof fn edit_with_the_same_code_keeps_the_text(text: Seq<char>, range: Range)
    requires
        range.end() <= text.len(),
    ensures
        replacing_edit(range, text.subrange(range.start(), range.end())).applied_to(text) == text,
{
    let same = text.subrange(range.start(), range.end());
    assert(replacing_edit(range, same).applied_to(text) =~= text);
}

/// The ends of a range are its anchor and its head, the lower one first; it
/// heads backward exactly where the head is the lower one of two.
pub proof fn a_range_lies_between_its_anchor_and_its_head(range: Range)
    ensures
        range.start() <= range.end(),
        range.start() == range.anchor && range.end() == range.head || range.start() == range.head
            && range.end() == range.anchor,
        range.heading() == Direction::Backward <==> range.head < range.anchor,
        range.heading() == Direction::Forward <==> range.anchor <= range.head,
{
}

/// The edit takes away exactly the characters of the range, between its
/// anchor and its head, and puts the proposal there; the cursor is at the same
/// end of the new selection as it was of the range.
pub proof fn an_edit_is_where_the_range_is(range: Range, proposal: Seq<char>)
    requires
        range.anchor + proposal.len() <= usize::MAX || range.head + proposal.len() <= usize::MAX,
    ensures
        ({
            let edit = replacing_edit(range, proposal);
            &&& edit.replacement == proposal
            &&& edit.from <= edit.to
            &&& range.anchor <= range.head ==> {
                &&& edit.from == range.anchor
                &&& edit.to == range.head
                &&& edit.selection.anchor == range.anchor
                &&& edit.selection.head - edit.selection.anchor == proposal.len()
            }
            &&& range.head < range.anchor ==> {
                &&& edit.from == range.head
                &&& edit.to == range.anchor
                &&& edit.selection.head == range.head
                &&& edit.selection.anchor - edit.selection.head == proposal.len()
            }
        }),
{
}

/// The text after an edit is the text with what stands from `from` up to `to`
/// taken away and the replacement in its place.
pub proof fn an_edit_changes_what_it_names(edit: EditView, text: Seq<char>)
    requires
        0 <= edit.from <= edit.to <= text.len(),
    ensures
        ({
            let after = edit.applied_to(text);
            &&& after.len() - edit.replacement.len() == text.len() - (edit.to - edit.from)
            &&& forall|i: int| 0 <= i < edit.from ==> #[trigger] after[i] == text[i]
            &&& forall|i: int|
                0 <= i < edit.replacement.len() ==> #[trigger] edit.replacement[i] == after[edit.from
                    + i]
            &&& forall|i: int|
                edit.to <= i < text.len() ==> #[trigger] text[i] == after[i - edit.to + edit.from
                    + edit.replacement.len()]
        }),
{
}

/// The content of an edit is what it holds.
pub proof fn an_edit_is_seen_as_it_is(edit: Edit)
    ensures
        edit@.from == edit.from,
        edit@.to == edit.to,
        edit@.replacement == edit.replacement@,
        edit@.selection == edit.selection,
{
}

} // verus!
