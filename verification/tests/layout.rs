use ai_edit::chat::AiChat;
use ai_edit::layout::{divide, fits_modal, fits_panes, split_panes, Rect};

fn rect(x: u16, y: u16, width: u16, height: u16) -> Rect {
    Rect { x, y, width, height }
}

#[test]
fn dialog_is_centered_with_a_margin() {
    assert_eq!(AiChat::modal_area(rect(0, 0, 100, 30)), rect(2, 2, 96, 26));
    assert_eq!(AiChat::modal_area(rect(7, 5, 100, 30)), rect(9, 7, 96, 26));
}

#[test]
fn dialog_has_a_largest_size() {
    assert_eq!(AiChat::modal_area(rect(0, 0, 201, 51)), rect(30, 4, 140, 42));
    assert_eq!(AiChat::modal_area(rect(0, 0, 144, 46)), rect(2, 2, 140, 42));
}

#[test]
fn dialog_has_no_cells_in_a_small_viewport() {
    assert_eq!(AiChat::modal_area(rect(0, 0, 3, 30)), rect(1, 2, 0, 26));
    assert!(AiChat::modal_area(rect(0, 0, 4, 4)).is_empty());
}

#[test]
fn dialog_far_out_has_no_coordinates() {
    assert!(fits_modal(rect(65533, 0, 4, 4)));
    assert!(!fits_modal(rect(65534, 0, 4, 4)));
    assert!(!fits_modal(rect(0, 65534, 4, 4)));
}

#[test]
fn panes_leave_one_column_between_them() {
    assert_eq!(split_panes(rect(3, 4, 11, 5)), (rect(3, 4, 5, 5), rect(9, 4, 5, 5)));
    assert_eq!(split_panes(rect(3, 4, 12, 5)), (rect(3, 4, 5, 5), rect(9, 4, 6, 5)));
    assert_eq!(split_panes(rect(3, 4, 1, 5)), (rect(3, 4, 0, 5), rect(4, 4, 0, 5)));
    assert_eq!(split_panes(rect(3, 4, 0, 5)), (rect(3, 4, 0, 5), rect(4, 4, 0, 5)));
}

#[test]
fn panes_far_out_have_no_coordinates() {
    assert!(fits_panes(rect(65529, 0, 12, 1)));
    assert!(!fits_panes(rect(65530, 0, 12, 1)));
    assert!(!fits_panes(rect(65535, 0, 0, 1)));
}

#[test]
fn inside_is_divided_into_code_prompt_and_help() {
    let rows = divide(rect(3, 4, 20, 10));
    assert_eq!(rows.code, rect(3, 4, 20, 8));
    assert_eq!(rows.prompt, rect(3, 12, 20, 1));
    assert_eq!(rows.help, Some(13));
}

#[test]
fn low_inside_gives_up_code_then_help_then_prompt() {
    let rows = divide(rect(3, 4, 20, 2));
    assert_eq!((rows.code.height, rows.prompt, rows.help), (0, rect(3, 4, 20, 1), Some(5)));
    let rows = divide(rect(3, 4, 20, 1));
    assert_eq!((rows.code.height, rows.prompt, rows.help), (0, rect(3, 4, 20, 1), None));
    let rows = divide(rect(3, 4, 20, 0));
    assert_eq!((rows.code.height, rows.prompt, rows.help), (0, rect(3, 4, 20, 0), None));
}

#[test]
fn inside_beyond_the_last_row_stops_there() {
    let rows = divide(rect(0, 65530, 20, 10));
    assert_eq!(rows.prompt, rect(0, 65533, 20, 1));
    assert_eq!(rows.help, Some(65534));
    assert_eq!(rect(0, 65530, 20, 10).bottom(), 65535);
    assert_eq!(rect(1, 2, 3, 4).clip_bottom(9), rect(1, 2, 3, 0));
}
