use heappy::text::{chars_of, join, push_decimal, push_hex, push_padded, push_repeated, text_of};

#[test]
fn decimal_digits_are_those_of_std() {
    for n in [0u128, 9, 10, 100, 4_294_967_296, u128::MAX] {
        let mut text = "n=".to_string();
        push_decimal(&mut text, n);
        assert_eq!(text, format!("n={}", n));
    }
}

#[test]
fn hex_pairs_are_lower_case() {
    let mut text = String::new();
    for b in [0u8, 9, 10, 0xe3, 255] {
        push_hex(&mut text, b);
    }
    assert_eq!(text, "00090ae3ff");
}

#[test]
fn padding_counts_characters() {
    let mut text = String::new();
    push_padded(&mut text, "ü", 3);
    push_padded(&mut text, "long", 2);
    push_repeated(&mut text, '-', 2);
    push_repeated(&mut text, '-', 0);
    assert_eq!(text, format!("{:3}{:2}--", "ü", "long"));
}

#[test]
fn joining_separates() {
    let none: Vec<String> = Vec::new();
    assert_eq!(join(&none, ","), "");
    assert_eq!(join(&vec!["a".to_string()], ","), "a");
    let three = vec!["a".to_string(), "".to_string(), "c".to_string()];
    assert_eq!(join(&three, "-+-"), "a-+--+-c");
}

#[test]
fn characters_make_up_the_text() {
    let chars = chars_of("aüb");
    assert_eq!(chars, vec!['a', 'ü', 'b']);
    assert_eq!(text_of(&chars, 1, 3), "üb");
    assert_eq!(text_of(&chars, 2, 2), "");
}
