use folder_picker::{resolve_selection, select_folder_reply, DialogOutcome, PickError};

#[test]
fn selected_path_is_returned() {
    let r = select_folder_reply(DialogOutcome::Selected("/home/alice/projects".to_string()));
    assert_eq!(r, Ok("/home/alice/projects".to_string()));
}

#[test]
fn cancelled_dialog_fails_with_message() {
    let r = select_folder_reply(DialogOutcome::Cancelled);
    assert_eq!(r, Err("Folder not chosen".to_string()));
}

#[test]
fn selected_path_is_kept_exactly() {
    let path = "C:\\Users\\bob\\My Documents\\caf\u{e9} \u{fffd}".to_string();
    let r = select_folder_reply(DialogOutcome::Selected(path.clone()));
    assert_eq!(r, Ok(path));
}

#[test]
fn resolve_selection_keeps_path() {
    let r = resolve_selection(DialogOutcome::Selected("/tmp".to_string()));
    assert_eq!(r, Ok("/tmp".to_string()));
}

#[test]
fn resolve_selection_reports_cancellation() {
    let r = resolve_selection(DialogOutcome::Cancelled);
    assert_eq!(r, Err(PickError::SelectionCancelled));
}

#[test]
fn cancellation_message_text() {
    assert_eq!(PickError::SelectionCancelled.message(), "Folder not chosen");
}

#[test]
fn repeated_invocations_are_independent() {
    let first = select_folder_reply(DialogOutcome::Selected("/srv/data".to_string()));
    let second = select_folder_reply(DialogOutcome::Cancelled);
    let third = select_folder_reply(DialogOutcome::Selected("/srv/data".to_string()));
    let fourth = select_folder_reply(DialogOutcome::Cancelled);
    assert_eq!(first, Ok("/srv/data".to_string()));
    assert_eq!(second, Err("Folder not chosen".to_string()));
    assert_eq!(third, first);
    assert_eq!(fourth, second);
}
