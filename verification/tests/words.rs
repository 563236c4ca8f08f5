use ezsh::words::{tokenize, WordIter};

fn iter(input: &str) -> Vec<&str> {
    WordIter::new(input).collect()
}

#[test]
fn basic() {
    assert_eq!(iter(""), Vec::<&str>::new());
    assert_eq!(iter("asdf"), vec!["asdf"]);
    assert_eq!(iter("asdf foo"), vec!["asdf", "foo"]);
    assert_eq!(iter("asdf\t\tfoo"), vec!["asdf", "foo"]);
    assert_eq!(iter("asdf\t\tfoo   bar"), vec!["asdf", "foo", "bar"]);
}

#[test]
fn quoted() {
    assert_eq!(iter("\"\""), vec![""]);
    assert_eq!(iter("\"asdf\""), vec!["asdf"]);
    assert_eq!(iter("asdf \"foo\""), vec!["asdf", "foo"]);
    assert_eq!(iter("asdf \"\" \"foo\""), vec!["asdf", "", "foo"]);
}

#[test]
fn empty_line_has_no_words() {
    assert_eq!(tokenize(""), Vec::<&str>::new());
    let mut it = WordIter::new("");
    assert_eq!(it.next(), None);
    assert_eq!(it.next(), None);
    assert_eq!(it.remaining(), "");
}

#[test]
fn empty_quotes_are_one_empty_word() {
    assert_eq!(tokenize("\"\""), vec![""]);
}

#[test]
fn empty_quotes_between_words() {
    assert_eq!(tokenize("asdf \"\" \"foo\""), vec!["asdf", "", "foo"]);
}

#[test]
fn any_run_of_whitespace_separates() {
    assert_eq!(tokenize("asdf\t\tfoo   bar"), vec!["asdf", "foo", "bar"]);
    assert_eq!(tokenize("a \t\r\n b"), vec!["a", "b"]);
    assert_eq!(tokenize("a\u{3000}b\u{a0}\u{2003}c"), vec!["a", "b", "c"]);
}

#[test]
fn unterminated_quote_runs_to_the_end() {
    assert_eq!(tokenize("\"abc"), vec!["abc"]);
    assert_eq!(tokenize("\"abc def  "), vec!["abc def  "]);
    assert_eq!(tokenize("x \""), vec!["x", ""]);
    assert_eq!(tokenize("\""), vec![""]);
}

#[test]
fn quoted_word_keeps_its_whitespace() {
    assert_eq!(tokenize("say \"hello   world\" twice"), vec!["say", "hello   world", "twice"]);
    assert_eq!(tokenize("\" \""), vec![" "]);
}

#[test]
fn quote_inside_a_word_is_an_ordinary_character() {
    assert_eq!(tokenize("ab\"cd\""), vec!["ab\"cd\""]);
    assert_eq!(tokenize("ab\"cd ef\""), vec!["ab\"cd", "ef\""]);
}

#[test]
fn text_right_after_a_closing_quote_is_the_next_word() {
    assert_eq!(tokenize("\"a\"b c"), vec!["a", "b", "c"]);
    assert_eq!(tokenize("\"a\"\"b\""), vec!["a", "b"]);
}

#[test]
fn trailing_whitespace_gives_no_word() {
    assert_eq!(tokenize("a  "), vec!["a"]);
    assert_eq!(tokenize("\"a\"  "), vec!["a"]);
}

#[test]
fn leading_whitespace_gives_one_empty_word() {
    assert_eq!(tokenize(" a"), vec!["", "a"]);
    assert_eq!(tokenize("   "), vec![""]);
}

#[test]
fn words_may_hold_characters_of_several_bytes() {
    assert_eq!(tokenize("héllo wörld"), vec!["héllo", "wörld"]);
    assert_eq!(tokenize("\"日本 語\" ok"), vec!["日本 語", "ok"]);
    assert_eq!(tokenize("🙂\u{2028}🙃"), vec!["🙂", "🙃"]);
}

#[test]
fn next_takes_one_word_and_the_whitespace_after_it() {
    let mut it = WordIter::new("one  \"two three\"   four");
    assert_eq!(it.remaining(), "one  \"two three\"   four");
    assert_eq!(it.next(), Some("one"));
    assert_eq!(it.remaining(), "\"two three\"   four");
    assert_eq!(it.next(), Some("two three"));
    assert_eq!(it.remaining(), "four");
    assert_eq!(it.next(), Some("four"));
    assert_eq!(it.remaining(), "");
    assert_eq!(it.next(), None);
}

#[test]
fn collect_takes_what_is_left() {
    let mut it = WordIter::new("a b c");
    assert_eq!(it.next(), Some("a"));
    assert_eq!(it.collect(), vec!["b", "c"]);
}
