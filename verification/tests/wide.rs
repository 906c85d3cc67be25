use wedge::wide::{mount_point_reparse_data, utf16_units, win32_string};

#[test]
fn test_win32_string() {
    assert_eq!(
        vec![
            72, 101, 108, 108, 111, 32, 87, 111, 114, 108, 100, 33, 32, 55358, 56623, 55358,
            56623, 0
        ],
        win32_string("Hello World! \u{1F92F}\u{1F92F}")
    );
}

#[test]
fn test_win32_string_empty() {
    assert_eq!(vec![0], win32_string(""));
}

#[test]
fn test_utf16_units_has_no_terminator() {
    assert_eq!(vec![104, 105], utf16_units("hi"));
    assert_eq!(Vec::<u16>::new(), utf16_units(""));
}

#[test]
fn test_mount_point_reparse_data_layout() {
    // Substitute name is `\??\C:\x`: eight wide characters, sixteen bytes.
    let data = mount_point_reparse_data("C:\\x").expect("short name fits");
    let name: Vec<u16> = "\\??\\C:\\x".encode_utf16().collect();
    let mut expected: Vec<u16> = vec![0x0003, 0xA000, 16 + 12, 0, 0, 16, 16 + 2, 0];
    expected.extend_from_slice(&name);
    expected.push(0);
    expected.push(0);
    assert_eq!(expected, data);
}

#[test]
fn test_mount_point_reparse_data_rejects_overlong_names() {
    let long = "C:\\".repeat(20000);
    assert!(mount_point_reparse_data(&long).is_none());
}
