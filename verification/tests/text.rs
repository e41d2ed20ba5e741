use delta_simple::error::SimpleError;
use delta_simple::text::{
    check_strings_complete, check_strings_small, cloned_c_str, optional_c_string, slice_to_string,
    slices_to_strings, KernelStringSlice,
};

fn slice(bytes: &[u8]) -> KernelStringSlice {
    KernelStringSlice { bytes: bytes.to_vec() }
}

#[test]
fn strings_keep_their_bytes() {
    for text in ["", "plain", "grün", "\u{10ffff}", "a b"] {
        assert_eq!(cloned_c_str(&text.as_bytes().to_vec()).unwrap(), text);
        assert_eq!(slice_to_string(&slice(text.as_bytes())).unwrap(), text);
        let optional = optional_c_string(&Some(text.as_bytes().to_vec())).unwrap();
        assert_eq!(optional, Some(text.to_string()));
    }
    assert_eq!(optional_c_string(&None).unwrap(), None);
}

#[test]
fn bytes_that_are_not_utf8_are_refused() {
    for bytes in [vec![0xff], vec![b'a', 0xc3], vec![0xed, 0xa0, 0x80], vec![0xc0, 0x80]] {
        assert!(matches!(cloned_c_str(&bytes), Err(SimpleError::CString)));
        assert!(matches!(optional_c_string(&Some(bytes.clone())), Err(SimpleError::CString)));
        assert!(matches!(slice_to_string(&slice(&bytes)), Err(SimpleError::Utf8(_))));
        let slices = Some(vec![slice(b"ok"), slice(&bytes)]);
        assert!(matches!(slices_to_strings(&slices, 2), Err(SimpleError::Utf8(_))));
        assert_eq!(slices_to_strings(&slices, 1).unwrap(), vec!["ok"]);
    }
}

#[test]
fn arrays_may_be_null_when_empty() {
    assert_eq!(slices_to_strings(&None, 0).unwrap(), Vec::<String>::new());
    assert_eq!(slices_to_strings(&Some(vec![slice(b"x")]), 0).unwrap(), Vec::<String>::new());
    assert!(matches!(slices_to_strings(&None, 1), Err(SimpleError::NullStrings)));
}

#[test]
fn arrays_keep_their_order() {
    let slices = Some(vec![slice(b"b"), slice(b"a"), slice(b"b")]);
    assert_eq!(slices_to_strings(&slices, 3).unwrap(), vec!["b", "a", "b"]);
}

#[test]
fn arrays_are_complete_up_to_their_length() {
    let slices = Some(vec![slice(b"b"), slice(b"a")]);
    assert!(check_strings_complete(&slices, 0));
    assert!(check_strings_complete(&slices, 2));
    assert!(!check_strings_complete(&slices, 3));
    assert!(check_strings_complete(&None, 3));
    assert!(check_strings_small(&slices, 2));
    assert!(check_strings_small(&None, 3));
}

#[test]
fn the_first_slice_that_fails_is_reported() {
    let slices = Some(vec![slice(b"ok"), slice(b"ab\xff"), slice(b"\xff")]);
    let Err(SimpleError::Utf8(error)) = slices_to_strings(&slices, 3) else {
        panic!("not refused")
    };
    assert_eq!(error.valid_up_to(), 2);
    assert_eq!(error, std::str::from_utf8(b"ab\xff").unwrap_err());
}
