use scut::error::{error_message_with_path, floor_char_boundary, is_utf8_char_boundary};
use scut::file_system::mock_file_system::Status;
use scut::file_system::{MockError, TestError};

#[test]
fn paths_go_before_the_os_error_number() {
    assert_eq!(
        error_message_with_path("No such file or directory (os error 2)", "./path/to/nowhere"),
        "No such file or directory './path/to/nowhere' (os error 2)"
    );
    assert_eq!(error_message_with_path("something odd", "/x"), "something odd: '/x'");
    assert_eq!(error_message_with_path("(os error 5)", "é"), " 'é'(os error 5)");
}

#[test]
fn char_boundaries_of_utf8_text() {
    let text = "aé€😀b";
    let bytes = text.as_bytes();
    for index in 0..bytes.len() + 2 {
        let expected = if index >= bytes.len() {
            bytes.len()
        } else {
            (0..=index).rev().find(|i| text.is_char_boundary(*i)).unwrap()
        };
        assert_eq!(floor_char_boundary(bytes, index), expected, "index {index}");
    }
    assert!(is_utf8_char_boundary(b'a'));
    assert!(!is_utf8_char_boundary(0x80));
    assert!(!is_utf8_char_boundary(0xBF));
    assert!(is_utf8_char_boundary(0xC0));
    assert!(is_utf8_char_boundary(0xFF));
}

#[test]
fn mock_errors_carry_what_failed() {
    let e = MockError::new(Status::Missing);
    assert_eq!(e.0, Status::Missing);
    assert_eq!(TestError, TestError);
}
