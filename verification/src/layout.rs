//! Where the parts of the dialog stand on the screen.

use vstd::prelude::*;

verus! {

/// A rectangle of terminal cells.
#[derive(Clone, Copy, Debug, PartialEq, Eq, Structural)]
pub struct Rect {
    pub x: u16,
    pub y: u16,
    pub width: u16,
    pub height: u16,
}

impl Rect {
    /// The rectangle without cells at the origin.
    pub open spec fn zero() -> Rect {
        Rect { x: 0, y: 0, width: 0, height: 0 }
    }

    /// Whether the rectangle holds no cell.
    pub open spec fn empty(self) -> bool {
        self.width == 0 || self.height == 0
    }

    /// Whether the cell in column `x` and row `y` belongs to the rectangle.
    pub open spec fn covers(self, x: int, y: int) -> bool {
        &&& self.x <= x < self.x + self.width
        &&& self.y <= y < self.y + self.height
    }

    /// The row below the last one, or the last row there can be.
    pub open spec fn below(self) -> int {
        if self.y + self.height > u16::MAX {
            u16::MAX as int
        } else {
            self.y + self.height
        }
    }

    /// Whether the rectangle holds no cell.
    pub fn is_empty(&self) -> (r: bool)
        ensures
            r == self.empty(),
    {
        self.width == 0 || self.height == 0
    }

    /// The row below the last one, or the last row there can be.
    pub fn bottom(&self) -> (r: u16)
        ensures
            r == self.below(),
    {
        self.y.saturating_add(self.height)
    }

    /// The rectangle without its last `height` rows.
    pub fn clip_bottom(&self, height: u16) -> (r: Rect)
        ensures
            r == (Rect {
                height: if height >= self.height {
                    0u16
                } else {
                    (self.height - height) as u16
                },
                ..*self
            }),
    {
        Rect { x: self.x, y: self.y, width: self.width, height: self.height.saturating_sub(height) }
    }
}

/// The extent of the dialog in a viewport of extent `available`: four cells
/// less than there are, and no more than `limit`.
pub open spec fn modal_extent(available: int, limit: int) -> int {
    if available < 4 {
        0
    } else if available - 4 < limit {
        available - 4
    } else {
        limit
    }
}

/// The cells before the dialog in a viewport of extent `available`.
pub open spec fn modal_offset(available: int, limit: int) -> int {
    (available - modal_extent(available, limit)) / 2
}

/// The widest dialog.
pub const MODAL_WIDTH: u16 = 140;

/// The highest dialog.
pub const MODAL_HEIGHT: u16 = 42;

/// Whether the origin of the dialog in `viewport` has coordinates.
pub open spec fn modal_fits(viewport: Rect) -> bool {
    &&& viewport.x + modal_offset(viewport.width as int, MODAL_WIDTH as int) <= u16::MAX
    &&& viewport.y + modal_offset(viewport.height as int, MODAL_HEIGHT as int) <= u16::MAX
}

/// The dialog in `viewport`.
pub open spec fn modal(viewport: Rect) -> Rect {
    Rect {
        x: (viewport.x + modal_offset(viewport.width as int, MODAL_WIDTH as int)) as u16,
        y: (viewport.y + modal_offset(viewport.height as int, MODAL_HEIGHT as int)) as u16,
        width: modal_extent(viewport.width as int, MODAL_WIDTH as int) as u16,
        height: modal_extent(viewport.height as int, MODAL_HEIGHT as int) as u16,
    }
}

/// The extent of the dialog in a viewport of extent `available`.
fn extent_within(available: u16, limit: u16) -> (r: u16)
    ensures
        r == modal_extent(available as int, limit as int),
{
    let extent: u16 = available.saturating_sub(4);
    if extent < limit {
        extent
    } else {
        limit
    }
}

/// Whether the origin of the dialog in `viewport` has coordinates.
pub fn fits_modal(viewport: Rect) -> (r: bool)
    ensures
        r == modal_fits(viewport),
{
    let width: u16 = extent_within(viewport.width, MODAL_WIDTH);
    let height: u16 = extent_within(viewport.height, MODAL_HEIGHT);
    viewport.x <= u16::MAX - (viewport.width - width) / 2 && viewport.y <= u16::MAX - (
    viewport.height - height) / 2
}

/// The dialog in `viewport`.
pub fn modal_rect(viewport: Rect) -> (r: Rect)
    requires
        modal_fits(viewport),
    ensures
        r == modal(viewport),
{
    let width: u16 = extent_within(viewport.width, MODAL_WIDTH);
    let height: u16 = extent_within(viewport.height, MODAL_HEIGHT);
    Rect {
        x: viewport.x + viewport.width.saturating_sub(width) / 2,
        y: viewport.y + viewport.height.saturating_sub(height) / 2,
        width,
        height,
    }
}

/// The dialog lies inside the viewport, in the middle of it up to one cell
/// each way, and is no larger than its limits.
pub proof fn modal_is_centered(viewport: Rect)
    requires
        modal_fits(viewport),
    ensures
        ({
            let m = modal(viewport);
            let left = m.x - viewport.x;
            let right = viewport.width - m.width - left;
            let top = m.y - viewport.y;
            let under = viewport.height - m.height - top;
            &&& m.width <= MODAL_WIDTH && m.height <= MODAL_HEIGHT
            &&& 0 <= left <= right <= left + 1
            &&& 0 <= top <= under <= top + 1
            &&& viewport.width >= 4 ==> left >= 2
            &&& viewport.height >= 4 ==> top >= 2
        }),
        forall|x: int, y: int| #[trigger]
            modal(viewport).covers(x, y) ==> viewport.covers(x, y),
{
}

/// The width of the left one of two panes.
pub open spec fn left_width(width: int) -> int {
    if width == 0 {
        0
    } else {
        (width - 1) / 2
    }
}

/// Whether the right one of two panes in `area` has coordinates.
pub open spec fn panes_fit(area: Rect) -> bool {
    area.x + left_width(area.width as int) + 1 <= u16::MAX
}

/// The left one of two panes that share `area`.
pub open spec fn left_pane(area: Rect) -> Rect {
    Rect { width: left_width(area.width as int) as u16, ..area }
}

/// The right one of two panes that share `area`.
pub open spec fn right_pane(area: Rect) -> Rect {
    Rect {
        x: (area.x + left_width(area.width as int) + 1) as u16,
        width: if area.width == 0 {
            0u16
        } else {
            (area.width - left_width(area.width as int) - 1) as u16
        },
        ..area
    }
}

/// Whether the right one of two panes in `area` has coordinates.
pub fn fits_panes(area: Rect) -> (r: bool)
    ensures
        r == panes_fit(area),
{
    area.x < u16::MAX - area.width.saturating_sub(1) / 2
}

/// Two panes side by side in `area`, with one column between them.
pub fn split_panes(area: Rect) -> (r: (Rect, Rect))
    requires
        panes_fit(area),
    ensures
        r == (left_pane(area), right_pane(area)),
{
    let left: u16 = area.width.saturating_sub(1) / 2;
    let right: u16 = area.width.saturating_sub(left + 1);
    (
        Rect { x: area.x, y: area.y, width: left, height: area.height },
        Rect { x: area.x + left + 1, y: area.y, width: right, height: area.height },
    )
}

/// Two panes fill the area but for the one column between them, and neither
/// is more than a column wider than the other.
pub proof fn panes_share_area(area: Rect)
    requires
        panes_fit(area),
        area.width > 0,
    ensures
        left_pane(area).width <= right_pane(area).width <= left_pane(area).width + 1,
        left_pane(area).width + 1 + right_pane(area).width == area.width,
        forall|x: int, y: int| #[trigger]
            area.covers(x, y) <==> {
                ||| left_pane(area).covers(x, y)
                ||| right_pane(area).covers(x, y)
                ||| x == area.x + left_width(area.width as int) && area.y <= y < area.y
                    + area.height
            },
        forall|x: int, y: int| !(#[trigger] left_pane(area).covers(x, y) && right_pane(area).covers(x, y)),
{
}

/// The rows at the foot of the dialog: the prompt and the help below it, as
/// far as there is room.
pub open spec fn footer_height(inner: Rect) -> int {
    if inner.height < 2 {
        inner.height as int
    } else {
        2
    }
}

/// The part of the dialog that shows code.
pub open spec fn code_area(inner: Rect) -> Rect {
    Rect { height: (inner.height - footer_height(inner)) as u16, ..inner }
}

/// The row of the prompt.
pub open spec fn prompt_area(inner: Rect) -> Rect {
    Rect {
        y: if inner.below() < footer_height(inner) {
            0u16
        } else {
            (inner.below() - footer_height(inner)) as u16
        },
        height: if footer_height(inner) > 0 {
            1u16
        } else {
            0u16
        },
        ..inner
    }
}

/// The row of the help, where there is room for it.
pub open spec fn help_row(inner: Rect) -> Option<u16> {
    if footer_height(inner) > 1 {
        Some((inner.below() - 1) as u16)
    } else {
        None
    }
}

/// The rows that the inside of the dialog is divided into.
#[derive(Clone, Copy, Debug, PartialEq, Eq)]
pub struct Rows {
    pub code: Rect,
    pub prompt: Rect,
    pub help: Option<u16>,
}

/// Divides the inside of the dialog.
pub fn divide(inner: Rect) -> (r: Rows)
    ensures
        r.code == code_area(inner),
        r.prompt == prompt_area(inner),
        r.help == help_row(inner),
{
    let footer: u16 = if inner.height < 2 {
        inner.height
    } else {
        2
    };
    let code: Rect = inner.clip_bottom(footer);
    let bottom: u16 = inner.bottom();
    let prompt: Rect = Rect {
        x: inner.x,
        y: bottom.saturating_sub(footer),
        width: inner.width,
        height: if footer > 0 {
            1
        } else {
            0
        },
    };
    let help: Option<u16> = if footer > 1 {
        Some(bottom - 1)
    } else {
        None
    };
    Rows { code, prompt, help }
}

/// Inside a dialog that lies on the screen, code, prompt and help stand
/// below each other without overlap and leave no row over.
pub proof fn rows_fill_inside(inner: Rect)
    requires
        inner.y + inner.height <= u16::MAX,
    ensures
        code_area(inner).y == inner.y,
        prompt_area(inner).y == code_area(inner).y + code_area(inner).height,
        help_row(inner) matches Some(row) ==> row == prompt_area(inner).y + 1 && row + 1 == inner.y
            + inner.height,
        help_row(inner) is Some <==> inner.height >= 2,
        prompt_area(inner).height == 1 <==> inner.height >= 1,
        inner.height == code_area(inner).height + prompt_area(inner).height + if help_row(
            inner,
        ) is Some {
            1int
        } else {
            0
        },
{
}

/// A rectangle is empty exactly where it covers no cell.
pub proof fn an_empty_area_covers_nothing(area: Rect)
    ensures
        area.empty() <==> forall|x: int, y: int| !#[trigger] area.covers(x, y),
{
    if !area.empty() {
        assert(area.covers(area.x as int, area.y as int));
    }
}

/// The row below a rectangle comes right behind its last row, as far as there
/// are rows.
pub proof fn the_row_below_comes_behind_the_last(area: Rect)
    ensures
        area.y + area.height <= u16::MAX ==> area.below() == area.y + area.height,
        area.y + area.height > u16::MAX ==> area.below() == u16::MAX,
{
}

/// Whether a dialog of extent `extent`, that starts `offset` cells into
/// `available` cells, is as large as it may be and stands in the middle: it
/// leaves four cells free, and more only where it is as large as `limit`; where
/// there are fewer than four cells it has none. What is free is on both sides,
/// and the odd cell behind it.
pub open spec fn is_in_the_middle(available: int, offset: int, extent: int, limit: int) -> bool {
    let behind = available - offset - extent;
    &&& available < 4 ==> extent == 0
    &&& available >= 4 ==> extent + 4 <= available && extent <= limit
    &&& available >= 4 && extent < limit ==> extent + 4 == available
    &&& offset <= behind <= offset + 1
}

/// The dialog takes up the viewport but for four columns and four rows, and is
/// never wider than 140 columns nor higher than 42 rows; it stands in the
/// middle. It has coordinates exactly where that place has.
pub proof fn the_dialog_fills_the_viewport_up_to_its_limits(viewport: Rect)
    ensures
        modal_fits(viewport) ==> {
            let m = modal(viewport);
            &&& is_in_the_middle(viewport.width as int, m.x - viewport.x, m.width as int, 140)
            &&& is_in_the_middle(viewport.height as int, m.y - viewport.y, m.height as int, 42)
        },
        forall|left: int, width: int, top: int, height: int|
            #[trigger] is_in_the_middle(viewport.width as int, left, width, 140)
                && #[trigger] is_in_the_middle(viewport.height as int, top, height, 42) ==> (
            modal_fits(viewport) <==> viewport.x + left <= u16::MAX && viewport.y + top
                <= u16::MAX),
{
    let width = modal_extent(viewport.width as int, 140);
    let height = modal_extent(viewport.height as int, 42);
    let left = modal_offset(viewport.width as int, 140);
    let top = modal_offset(viewport.height as int, 42);
    assert(is_in_the_middle(viewport.width as int, left, width, 140));
    assert(is_in_the_middle(viewport.height as int, top, height, 42));
}

/// A viewport that lies on the screen has room for the coordinates of the
/// dialog, and the area of a dialog for those of its panes.
pub proof fn what_lies_on_the_screen_has_coordinates(area: Rect)
    requires
        area.x + area.width <= u16::MAX,
        area.y + area.height <= u16::MAX,
    ensures
        modal_fits(area),
        area.width > 0 ==> panes_fit(area),
{
}

/// Two panes stand side by side at the top of the area and are as high as it:
/// the left one starts where the area starts, one column is free behind it,
/// and the right one ends where the area ends. They are of the same width, but
/// for a column more on the right where the area has an even number of them.
/// Where the area has no column, neither has a pane. The right one has
/// coordinates exactly where that place has.
pub proof fn panes_stand_side_by_side(area: Rect)
    ensures
        panes_fit(area) <==> area.x + (area.width + 1) / 2 <= u16::MAX && area.x + 1 <= u16::MAX,
        panes_fit(area) ==> {
            let left = left_pane(area);
            let right = right_pane(area);
            &&& left.x == area.x
            &&& left.y == area.y && right.y == area.y
            &&& left.height == area.height && right.height == area.height
            &&& right.x == left.x + left.width + 1
            &&& area.width > 0 ==> right.x + right.width == area.x + area.width
            &&& area.width > 0 && area.width % 2 == 1 ==> right.width == left.width
            &&& area.width > 0 && area.width % 2 == 0 ==> right.width == left.width + 1
            &&& area.width == 0 ==> left.width == 0 && right.width == 0
        },
{
}

/// Code, prompt and help have the columns of the inside of the dialog. The
/// last two rows are for the prompt and the help; where there is one row only
/// it is for the prompt, and where there is none there is neither.
pub proof fn the_last_rows_are_for_prompt_and_help(inner: Rect)
    ensures
        code_area(inner).x == inner.x && code_area(inner).width == inner.width,
        prompt_area(inner).x == inner.x && prompt_area(inner).width == inner.width,
        code_area(inner).y == inner.y,
        inner.height >= 2 ==> {
            &&& code_area(inner).height == inner.height - 2
            &&& prompt_area(inner).height == 1
            &&& prompt_area(inner).y + 2 == inner.below()
            &&& help_row(inner) matches Some(row) && row + 1 == inner.below()
        },
        inner.height == 1 ==> {
            &&& code_area(inner).height == 0
            &&& prompt_area(inner).height == 1
            &&& prompt_area(inner).y + 1 == inner.below()
            &&& help_row(inner) is None
        },
        inner.height == 0 ==> {
            &&& code_area(inner).height == 0
            &&& prompt_area(inner).height == 0
            &&& prompt_area(inner).y == inner.y
            &&& help_row(inner) is None
        },
{
}

} // verus!
