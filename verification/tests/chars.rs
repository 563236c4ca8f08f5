use ezsh::chars::{whitespace, Class, QUOTE};
use ezsh::scan::find;

#[test]
fn whitespace_is_the_unicode_property() {
    let mut code: u32 = 0;
    while code <= 0x10ffff {
        if let Some(c) = char::from_u32(code) {
            assert_eq!(whitespace(c), c.is_whitespace(), "U+{:04X}", code);
        }
        code += 1;
    }
}

#[test]
fn whitespace_on_chosen_characters() {
    assert!(whitespace(' '));
    assert!(whitespace('\t'));
    assert!(whitespace('\n'));
    assert!(whitespace('\r'));
    assert!(whitespace('\u{0b}'));
    assert!(whitespace('\u{0c}'));
    assert!(whitespace('\u{85}'));
    assert!(whitespace('\u{a0}'));
    assert!(whitespace('\u{1680}'));
    assert!(whitespace('\u{2000}'));
    assert!(whitespace('\u{200a}'));
    assert!(whitespace('\u{2028}'));
    assert!(whitespace('\u{2029}'));
    assert!(whitespace('\u{202f}'));
    assert!(whitespace('\u{205f}'));
    assert!(whitespace('\u{3000}'));
    assert!(!whitespace('a'));
    assert!(!whitespace('"'));
    assert!(!whitespace('\u{08}'));
    assert!(!whitespace('\u{0e}'));
    assert!(!whitespace('\u{1f}'));
    assert!(!whitespace('\u{200b}'));
    assert!(!whitespace('\u{180e}'));
    assert!(!whitespace('\u{feff}'));
}

#[test]
fn the_quote_is_the_double_quote() {
    assert_eq!(QUOTE, '"');
}

#[test]
fn classes_part_the_characters() {
    assert!(Class::Space.holds(' '));
    assert!(Class::Space.holds('\u{3000}'));
    assert!(!Class::Space.holds('a'));
    assert!(!Class::Space.holds('"'));
    assert!(Class::Text.holds('a'));
    assert!(Class::Text.holds('"'));
    assert!(!Class::Text.holds('\t'));
    assert!(Class::Quote.holds('"'));
    assert!(!Class::Quote.holds('\''));
    assert!(!Class::Quote.holds(' '));
}

#[test]
fn find_behind_the_end_gives_the_length() {
    assert_eq!(find("ab cd", Class::Space, 9), 5);
    assert_eq!(find("héé", Class::Text, 4), 3);
    assert_eq!(find("", Class::Quote, 1), 0);
}

#[test]
fn find_space_gives_the_first_whitespace_from_an_offset() {
    assert_eq!(find("ab cd ef", Class::Space, 0), 2);
    assert_eq!(find("ab cd ef", Class::Space, 2), 2);
    assert_eq!(find("ab cd ef", Class::Space, 3), 5);
    assert_eq!(find("ab cd ef", Class::Space, 6), 8);
    assert_eq!(find("ab cd ef", Class::Space, 8), 8);
    assert_eq!(find("", Class::Space, 0), 0);
    assert_eq!(find("héé\tx", Class::Space, 0), 3);
}

#[test]
fn find_word_gives_the_first_character_that_is_no_whitespace() {
    assert_eq!(find("  ab", Class::Text, 0), 2);
    assert_eq!(find("  ab", Class::Text, 2), 2);
    assert_eq!(find("ab   ", Class::Text, 2), 5);
    assert_eq!(find("\u{3000}\u{a0}é", Class::Text, 0), 2);
    assert_eq!(find("", Class::Text, 0), 0);
}

#[test]
fn find_quote_gives_the_first_quote_from_an_offset() {
    assert_eq!(find("\"ab\" c", Class::Quote, 0), 0);
    assert_eq!(find("\"ab\" c", Class::Quote, 1), 3);
    assert_eq!(find("\"ab\" c", Class::Quote, 4), 6);
    assert_eq!(find("\"é\"", Class::Quote, 1), 2);
    assert_eq!(find("abc", Class::Quote, 0), 3);
}
