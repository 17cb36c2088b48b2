use ai_edit::edit::Range;
use ai_edit::model::{Action, PiRequest};
use ai_edit::process::PiError;
use ai_edit::slot::DialogSlot;

fn open(slot: &mut DialogSlot) {
    assert!(slot.can_open());
    slot.open(
        1,
        2,
        Range { anchor: 0, head: 1 },
        3,
        "a".into(),
        "rust".into(),
        "main.rs".into(),
        b"/work".to_vec(),
    );
}

fn send(slot: &mut DialogSlot, line: &str) -> PiRequest {
    match slot.chat_mut().unwrap().submit(line) {
        Action::Submit(run) => run,
        action => panic!("not sent: {action:?}"),
    }
}

#[test]
fn new_slot_holds_no_dialog() {
    let mut slot = DialogSlot::new();
    assert!(slot.chat().is_none());
    assert!(slot.chat_mut().is_none());
    assert_eq!(slot.finish_request(0, "r".into(), Err(PiError::NoObject)), None);
}

#[test]
fn answer_reaches_the_dialog_that_asked() {
    let mut slot = DialogSlot::new();
    open(&mut slot);
    let run = send(&mut slot, "go");
    assert!(slot.chat().unwrap().cursor().is_none());
    let shown = slot.finish_request(run.number, run.request, Err(PiError::NoObject));
    assert_eq!(shown.as_deref(), Some("pi failed: pi returned no JSON object"));
    assert!(slot.chat().unwrap().cursor().is_some());
    let run = send(&mut slot, "go");
    assert_eq!(slot.finish_request(run.number, run.request, Ok("b".into())), None);
    assert!(send(&mut slot, "on").input.contains("\"current\":\"b\""));
}

#[test]
fn late_answer_changes_nothing() {
    let mut slot = DialogSlot::new();
    open(&mut slot);
    let late = send(&mut slot, "go");
    slot.close();
    assert!(slot.chat().is_none());
    assert_eq!(slot.finish_request(late.number, "go".into(), Err(PiError::NoObject)), None);
    for _ in 0..3 {
        open(&mut slot);
        let run = send(&mut slot, "mine");
        assert_ne!(run.number, late.number);
        assert_eq!(slot.finish_request(late.number, "go".into(), Err(PiError::NoObject)), None);
        assert_eq!(slot.finish_request(late.number, "go".into(), Ok("late".into())), None);
        assert!(slot.chat().unwrap().cursor().is_none());
        slot.finish_request(run.number, run.request, Ok("b".into()));
        assert!(send(&mut slot, "on").input.contains(
            "\"conversation\":[{\"request\":\"mine\",\"replacement\":\"b\"}]"
        ));
        slot.close();
    }
}
