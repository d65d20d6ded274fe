use file_open_dialog::linux_adapter::linux_dialog_outcome;
use file_open_dialog::reply::DialogResult;
use file_open_dialog::reply::Reply;
use file_open_dialog::reply::encode_dialog_reply;
use file_open_dialog::value::MessageValue;
use file_open_dialog::windows_adapter::FILE_NAME_BUFFER_LEN;
use file_open_dialog::windows_adapter::make_file_name_buffer;
use file_open_dialog::windows_adapter::windows_dialog_outcome;

#[test]
fn file_name_buffer_is_zero_filled_and_fixed_size() {
    let buffer = make_file_name_buffer();
    assert_eq!(buffer.len(), 4096);
    assert_eq!(buffer.len(), FILE_NAME_BUFFER_LEN);
    assert!(buffer.iter().all(|u| *u == 0));
}

#[test]
fn windows_failed_or_cancelled_call_yields_cancelled() {
    let buffer = make_file_name_buffer();
    assert_eq!(windows_dialog_outcome(false, &buffer), DialogResult::Cancelled);
    assert_eq!(
        encode_dialog_reply(windows_dialog_outcome(false, &buffer)),
        Reply::Success(MessageValue::Null)
    );
}

#[test]
fn windows_selection_decodes_the_buffer_as_utf16() {
    let buffer: Vec<u16> = vec![0x2F, 0x61, 0x2E, 0x74, 0x78, 0x74];
    match windows_dialog_outcome(true, &buffer) {
        DialogResult::Selected(path) => assert_eq!(path, "/a.txt"),
        DialogResult::Cancelled => panic!("expected a selection"),
    }
}

#[test]
fn windows_selection_keeps_the_buffer_tail() {
    // The whole buffer is decoded, trailing NUL padding included.
    let buffer: Vec<u16> = vec![0x61, 0x62, 0, 0];
    match windows_dialog_outcome(true, &buffer) {
        DialogResult::Selected(path) => assert_eq!(path, "ab\u{0}\u{0}"),
        DialogResult::Cancelled => panic!("expected a selection"),
    }
}

#[test]
fn windows_selection_decodes_surrogate_pairs() {
    let buffer: Vec<u16> = vec![0xD83D, 0xDE00];
    match windows_dialog_outcome(true, &buffer) {
        DialogResult::Selected(path) => assert_eq!(path, "\u{1F600}"),
        DialogResult::Cancelled => panic!("expected a selection"),
    }
}

#[test]
fn windows_selection_replaces_invalid_utf16() {
    let buffer: Vec<u16> = vec![0xD800, 0x61];
    match windows_dialog_outcome(true, &buffer) {
        DialogResult::Selected(path) => assert_eq!(path, "\u{FFFD}a"),
        DialogResult::Cancelled => panic!("expected a selection"),
    }
}

#[test]
fn linux_accepting_response_with_selection_yields_the_path() {
    assert_eq!(
        linux_dialog_outcome(true, Some("/tmp/a.txt".to_owned())),
        DialogResult::Selected("/tmp/a.txt".to_owned())
    );
}

#[test]
fn linux_cancel_and_empty_accept_both_yield_cancelled() {
    assert_eq!(linux_dialog_outcome(false, None), DialogResult::Cancelled);
    assert_eq!(
        linux_dialog_outcome(false, Some("/tmp/a.txt".to_owned())),
        DialogResult::Cancelled
    );
    assert_eq!(linux_dialog_outcome(true, None), DialogResult::Cancelled);
    assert_eq!(
        encode_dialog_reply(linux_dialog_outcome(true, None)),
        Reply::Success(MessageValue::Null)
    );
}
