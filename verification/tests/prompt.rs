use ezsh::prompt::{prompt, SLASH};

#[test]
fn prompt_shows_parent_and_directory() {
    assert_eq!(prompt(Some(b"home"), b"user"), b"home/user $ ".to_vec());
    assert_eq!(prompt(Some(b"a b"), b"c"), b"a b/c $ ".to_vec());
}

#[test]
fn prompt_without_parent_shows_the_directory() {
    assert_eq!(prompt(None, b"user"), b"user $ ".to_vec());
}

#[test]
fn prompt_keeps_bytes_as_they_are() {
    assert_eq!(prompt(Some(&[0xff, 0x00]), "é".as_bytes()), vec![0xff, 0x00, b'/', 0xc3, 0xa9, b' ', b'$', b' ']);
    assert_eq!(prompt(Some(b""), b""), b"/ $ ".to_vec());
    assert_eq!(prompt(None, b""), b" $ ".to_vec());
}

#[test]
fn the_slash_is_the_slash() {
    assert_eq!(SLASH, b'/');
}
