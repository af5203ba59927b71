use calx::string::{NativeString, StringRef};

#[test]
fn test_create_cfstring_ref() {
    let expected1 = "Rustaceans 🦀";
    let native1 = NativeString::new(
        expected1.as_bytes().to_vec(),
        expected1.encode_utf16().count(),
    );
    let stringref1 = StringRef::new(Some(native1));
    assert_eq!(expected1.as_bytes(), stringref1.to_utf8());

    let expected2 = "";
    let native2 = NativeString::new(expected2.as_bytes().to_vec(), 0);
    let stringref2 = StringRef::new(Some(native2));
    assert_eq!(expected2.as_bytes(), stringref2.to_utf8());
}

#[test]
fn test_null_handle_yields_empty() {
    let stringref = StringRef::new(None);
    assert!(stringref.to_utf8().is_empty());
    let defaulted = StringRef::default();
    assert!(defaulted.to_utf8().is_empty());
}

#[test]
fn test_two_phase_string_conversion() {
    // The sizing pass reports the character count and the byte size; the
    // copy pass converts the same number of characters into that many bytes.
    let text = "dégagé";
    let native = NativeString::new(text.as_bytes().to_vec(), text.encode_utf16().count());
    let (converted, size) = native.get_bytes_size();
    assert_eq!(converted, native.get_length());
    assert_eq!(size, text.as_bytes().len());
    let (converted_again, bytes) = native.copy_bytes();
    assert_eq!(converted_again, native.get_length());
    assert_eq!(bytes.len(), size);
    assert_eq!(bytes, text.as_bytes().to_vec());
}
