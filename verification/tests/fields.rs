use ezsh::trim::trim;
use ezsh::words::tokenize;

fn split(text: &str) -> Vec<&str> {
    text.split_whitespace().collect()
}

#[test]
fn words_without_quotes_are_the_split_on_whitespace() {
    let samples = [
        "", "a", "a b", "a  b", "a\tb\nc", "asdf\t\tfoo   bar", "a ", "a   ", "x\u{3000}y",
        "one two three four five", "héllo  wörld ", "a\u{a0}\u{a0}b\r\n",
    ];
    for text in samples {
        assert_eq!(tokenize(text), split(text), "{:?}", text);
    }
}

#[test]
fn words_of_a_stripped_line_are_the_split_on_whitespace() {
    let samples = [
        "", " ", "   ", " a", "  a b  ", "\ta\t", "\n", "echo a b\n", " \u{3000}x  y\u{2003} ",
        "a", "a b c", "\r\n  \t",
    ];
    for text in samples {
        assert_eq!(tokenize(trim(text)), split(text), "{:?}", text);
    }
}

#[test]
fn leading_whitespace_adds_one_empty_word_to_the_split() {
    let samples = [" a", "  a b", "\t", " \u{3000} x y "];
    for text in samples {
        let mut expected = vec![""];
        expected.extend(split(text));
        assert_eq!(tokenize(text), expected, "{:?}", text);
    }
}
