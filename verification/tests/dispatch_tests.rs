use file_open_dialog::reply::ErrorCode;
use file_open_dialog::reply::encode_error;
use file_open_dialog::request::DecodeError;
use file_open_dialog::request::FileOpenRequest;
use file_open_dialog::request::decode_request;
use file_open_dialog::resolver::NativeWindow;
use file_open_dialog::resolver::WindowHandle;
use file_open_dialog::resolver::WindowResolver;
use file_open_dialog::service::CallOutcome;
use file_open_dialog::service::PendingDialog;
use file_open_dialog::service::handle_call;
use file_open_dialog::value::MessageValue;
use file_open_dialog::value::lookup_key;

fn request_args(handle: i64) -> MessageValue {
    MessageValue::Dict(vec![("parentWindow".to_owned(), MessageValue::I64(handle))])
}

fn resolver_with(handle: i64, window: i64) -> WindowResolver {
    WindowResolver { entries: vec![(WindowHandle(handle), NativeWindow(window))] }
}

#[test]
fn decode_accepts_well_typed_payload() {
    let r = decode_request(&request_args(5));
    assert_eq!(r, Ok(FileOpenRequest { parent_window: WindowHandle(5) }));
}

#[test]
fn decode_rejects_non_map_payload() {
    assert_eq!(decode_request(&MessageValue::Null), Err(DecodeError::NotAMap));
    assert_eq!(
        decode_request(&MessageValue::Str("parentWindow".to_owned())),
        Err(DecodeError::NotAMap)
    );
}

#[test]
fn decode_rejects_missing_parent_window() {
    let args = MessageValue::Dict(vec![("window".to_owned(), MessageValue::I64(5))]);
    assert_eq!(decode_request(&args), Err(DecodeError::MissingParentWindow));
    let empty = MessageValue::Dict(vec![]);
    assert_eq!(decode_request(&empty), Err(DecodeError::MissingParentWindow));
}

#[test]
fn decode_rejects_wrong_typed_parent_window() {
    let args = MessageValue::Dict(vec![(
        "parentWindow".to_owned(),
        MessageValue::Str("5".to_owned()),
    )]);
    assert_eq!(decode_request(&args), Err(DecodeError::WrongParentWindowType));
}

#[test]
fn decode_takes_first_parent_window_entry() {
    let args = MessageValue::Dict(vec![
        ("other".to_owned(), MessageValue::Bool(true)),
        ("parentWindow".to_owned(), MessageValue::I64(7)),
        ("parentWindow".to_owned(), MessageValue::I64(8)),
    ]);
    assert_eq!(
        decode_request(&args),
        Ok(FileOpenRequest { parent_window: WindowHandle(7) })
    );
}

#[test]
fn lookup_key_finds_first_match() {
    let entries = vec![
        ("a".to_owned(), MessageValue::I64(1)),
        ("b".to_owned(), MessageValue::I64(2)),
        ("a".to_owned(), MessageValue::I64(3)),
    ];
    assert_eq!(lookup_key(&entries, "a"), Some(&MessageValue::I64(1)));
    assert_eq!(lookup_key(&entries, "b"), Some(&MessageValue::I64(2)));
    assert_eq!(lookup_key(&entries, "c"), None);
}

#[test]
fn bad_payloads_are_rejected_with_argument_error() {
    let resolver = resolver_with(5, 99);
    let missing = MessageValue::Dict(vec![]);
    assert_eq!(
        handle_call(&resolver, "showFileOpenDialog", &missing),
        CallOutcome::Reject(ErrorCode::InvalidArgs(DecodeError::MissingParentWindow))
    );
    let wrong = MessageValue::Dict(vec![(
        "parentWindow".to_owned(),
        MessageValue::Bool(false),
    )]);
    assert_eq!(
        handle_call(&resolver, "showFileOpenDialog", &wrong),
        CallOutcome::Reject(ErrorCode::InvalidArgs(DecodeError::WrongParentWindowType))
    );
    assert_eq!(
        handle_call(&resolver, "showFileOpenDialog", &MessageValue::Null),
        CallOutcome::Reject(ErrorCode::InvalidArgs(DecodeError::NotAMap))
    );
}

#[test]
fn unknown_methods_are_rejected_as_invalid_method() {
    let resolver = resolver_with(5, 99);
    assert_eq!(
        handle_call(&resolver, "showFileSaveDialog", &request_args(5)),
        CallOutcome::Reject(ErrorCode::InvalidMethod)
    );
    assert_eq!(
        handle_call(&resolver, "", &request_args(5)),
        CallOutcome::Reject(ErrorCode::InvalidMethod)
    );
}

#[test]
fn unresolved_windows_are_rejected_as_no_window() {
    let resolver = resolver_with(5, 99);
    assert_eq!(
        handle_call(&resolver, "showFileOpenDialog", &request_args(6)),
        CallOutcome::Reject(ErrorCode::NoWindow)
    );
    let empty = WindowResolver { entries: vec![] };
    assert_eq!(
        handle_call(&empty, "showFileOpenDialog", &request_args(5)),
        CallOutcome::Reject(ErrorCode::NoWindow)
    );
}

#[test]
fn resolved_windows_yield_one_deferred_task() {
    let resolver = resolver_with(5, 99);
    assert_eq!(
        handle_call(&resolver, "showFileOpenDialog", &request_args(5)),
        CallOutcome::ShowDialog(PendingDialog { window: NativeWindow(99) })
    );
}

#[test]
fn resolver_takes_first_entry_for_duplicate_handles() {
    let resolver = WindowResolver {
        entries: vec![
            (WindowHandle(5), NativeWindow(1)),
            (WindowHandle(5), NativeWindow(2)),
        ],
    };
    assert_eq!(resolver.lookup(WindowHandle(5)), Some(NativeWindow(1)));
    assert_eq!(resolver.lookup(WindowHandle(4)), None);
}

#[test]
fn error_replies_carry_fixed_codes_and_messages() {
    let e = encode_error(ErrorCode::InvalidMethod);
    assert_eq!(e.code, "invalid_method");
    assert_eq!(e.message, "Invalid method");
    assert_eq!(e.details, MessageValue::Null);

    let e = encode_error(ErrorCode::NoWindow);
    assert_eq!(e.code, "no_window");
    assert_eq!(e.message, "Platform window not found");
    assert_eq!(e.details, MessageValue::Null);

    let e = encode_error(ErrorCode::InvalidArgs(DecodeError::NotAMap));
    assert_eq!(e.code, "invalid_args");
    assert_eq!(e.message, "Arguments are not a map");

    let e = encode_error(ErrorCode::InvalidArgs(DecodeError::MissingParentWindow));
    assert_eq!(e.code, "invalid_args");
    assert_eq!(e.message, "Missing parentWindow argument");

    let e = encode_error(ErrorCode::InvalidArgs(DecodeError::WrongParentWindowType));
    assert_eq!(e.code, "invalid_args");
    assert_eq!(e.message, "parentWindow argument has the wrong type");
}
