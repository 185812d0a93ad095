use axvmconfig::{parse_usize, vm_name, wants_absolute_path};

#[test]
fn decimal_numbers() {
    assert_eq!(parse_usize("0"), Some(0));
    assert_eq!(parse_usize("123456"), Some(123456));
    assert_eq!(parse_usize("+42"), Some(42));
    assert_eq!(parse_usize("007"), Some(7));
    assert_eq!(parse_usize(&usize::MAX.to_string()), Some(usize::MAX));
}

#[test]
fn hexadecimal_numbers() {
    assert_eq!(parse_usize("0x80200000"), Some(0x8020_0000));
    assert_eq!(parse_usize("0xdeadBEEF"), Some(0xdead_beef));
    assert_eq!(parse_usize("0x0"), Some(0));
    assert_eq!(parse_usize("0x10"), Some(16));
    assert_eq!(parse_usize("0x+1f"), Some(31));
}

#[test]
fn binary_numbers() {
    assert_eq!(parse_usize("0b10101010"), Some(0b1010_1010));
    assert_eq!(parse_usize("0b0"), Some(0));
    assert_eq!(parse_usize("0b11"), Some(3));
}

#[test]
fn texts_that_write_no_number() {
    for text in [
        "", "+", "-", "-1", "0x", "0b", "0b2", "0xg", "12a", " 12", "12 ", "1_000", "0X10",
        "0o17", "++1", "0x-1", "１２",
    ] {
        assert_eq!(parse_usize(text), None, "{text:?}");
    }
}

#[test]
fn numbers_beyond_the_word_are_rejected() {
    let mut text = usize::MAX.to_string();
    text.push('0');
    assert_eq!(parse_usize(&text), None);
    assert_eq!(parse_usize("0x1ffffffffffffffffffffffff"), None);
}

#[test]
fn generated_vm_names_join_name_and_architecture() {
    assert_eq!(vm_name("GuestVM".to_string(), "aarch64"), "GuestVM-aarch64");
    assert_eq!(vm_name("".to_string(), ""), "-");
}

#[test]
fn only_images_in_memory_want_an_absolute_path() {
    assert!(wants_absolute_path(&"memory".to_string()));
    assert!(!wants_absolute_path(&"fs".to_string()));
    assert!(!wants_absolute_path(&"Memory".to_string()));
    assert!(!wants_absolute_path(&"".to_string()));
}
