//! What a conversation looks like on the screen.

use crate::layout::{left_pane, right_pane, Rect};
use crate::model::{ChatView, Phase};
use vstd::prelude::*;

verus! {

/// The frame of the dialog: its area is cleared in the style named `style`,
/// and its border drawn in the style named `border`.
#[derive(Debug, PartialEq, Eq)]
pub struct Frame {
    pub area: Rect,
    pub title: &'static str,
    pub style: &'static str,
    pub border: &'static str,
}

/// A bordered block of text. `border` names the style of its border, `style`
/// that of its text.
#[derive(Debug, PartialEq, Eq)]
pub struct Pane<'a> {
    pub area: Rect,
    pub title: &'static str,
    pub border: &'static str,
    pub style: &'static str,
    pub text: &'a str,
    pub scroll: u16,
}

/// The content of a [`Pane`].
pub struct PaneView {
    pub area: Rect,
    pub title: Seq<char>,
    pub border: Seq<char>,
    pub style: Seq<char>,
    pub text: Seq<char>,
    pub scroll: u16,
}

impl<'a> View for Pane<'a> {
    type V = PaneView;

    open spec fn view(&self) -> PaneView {
        PaneView {
            area: self.area,
            title: self.title@,
            border: self.border@,
            style: self.style@,
            text: self.text@,
            scroll: self.scroll,
        }
    }
}

/// The contents of a list of panes.
pub open spec fn panes_view(panes: Seq<Pane<'_>>) -> Seq<PaneView> {
    panes.map_values(|p: Pane<'_>| p@)
}

/// What stands in the line of the prompt.
#[derive(Clone, Copy, Debug, PartialEq, Eq)]
pub enum PromptLine {
    /// There is no room for it.
    Hidden,
    /// A text in place of the prompt, in the style named `style`.
    Waiting { x: u16, y: u16, text: &'static str, style: &'static str },
    /// The prompt.
    Input { area: Rect },
}

/// The content of a [`PromptLine`].
pub enum PromptLineView {
    Hidden,
    Waiting { x: u16, y: u16, text: Seq<char>, style: Seq<char> },
    Input { area: Rect },
}

impl View for PromptLine {
    type V = PromptLineView;

    open spec fn view(&self) -> PromptLineView {
        match self {
            PromptLine::Hidden => PromptLineView::Hidden,
            PromptLine::Waiting { x, y, text, style } => PromptLineView::Waiting {
                x: *x,
                y: *y,
                text: text@,
                style: style@,
            },
            PromptLine::Input { area } => PromptLineView::Input { area: *area },
        }
    }
}

/// A line of text, cut to `width` columns. `style` names its style.
#[derive(Debug, PartialEq, Eq)]
pub struct Help {
    pub x: u16,
    pub y: u16,
    pub width: u16,
    pub text: String,
    pub style: &'static str,
}

/// What stands inside the frame of the dialog.
#[derive(Debug, PartialEq, Eq)]
pub struct Content {
    pub code: Rect,
    pub prompt: PromptLine,
    pub help: Option<Help>,
}

impl ChatView {
    /// The title of the dialog.
    pub open spec fn title(self) -> Seq<char> {
        if self.phase == Phase::Waiting {
            " Pi edit · working… "@
        } else {
            " Pi edit "@
        }
    }

    /// The panes that show code in `area`.
    pub open spec fn panes(self, area: Rect) -> Seq<PaneView> {
        if area.empty() {
            Seq::empty()
        } else {
            match self.proposed {
                Some(proposed) => seq![
                    PaneView {
                        area: left_pane(area),
                        title: " Old "@,
                        border: "diff.minus"@,
                        style: "ui.text"@,
                        text: self.original,
                        scroll: self.scroll,
                    },
                    PaneView {
                        area: right_pane(area),
                        title: " New "@,
                        border: "diff.plus"@,
                        style: "ui.text"@,
                        text: proposed,
                        scroll: self.scroll,
                    },
                ],
                None => seq![
                    PaneView {
                        area,
                        title: " Selected code "@,
                        border: "ui.text"@,
                        style: "ui.text"@,
                        text: self.original,
                        scroll: self.scroll,
                    },
                ],
            }
        }
    }

    /// What stands in the line of the prompt when `area` is given to it.
    pub open spec fn prompt_line(self, area: Rect) -> PromptLineView {
        if area.empty() {
            PromptLineView::Hidden
        } else if self.phase == Phase::Waiting {
            PromptLineView::Waiting {
                x: area.x,
                y: area.y,
                text: "Waiting for pi…"@,
                style: "ui.text.inactive"@,
            }
        } else {
            PromptLineView::Input { area }
        }
    }

    /// The area in which the prompt shows its cursor, where it does.
    pub open spec fn cursor(self) -> Option<Rect> {
        if self.phase == Phase::Waiting {
            None
        } else {
            Some(self.prompt_area)
        }
    }

    /// The last line of the dialog.
    pub open spec fn help_text(self) -> Seq<char> {
        match self.error {
            Some(error) => error,
            None => if self.proposed is Some {
                "enter send feedback · ctrl-s apply · page-up/down scroll · esc cancel"@
            } else {
                "enter send · page-up/down scroll · esc cancel"@
            },
        }
    }

    /// The style of the last line.
    pub open spec fn help_style(self) -> Seq<char> {
        if self.error is Some {
            "error"@
        } else {
            "ui.text.inactive"@
        }
    }
}

} // verus!
