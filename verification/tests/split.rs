use hotkey::split::{split_spans, trim_span};

/// The pieces of `text` that the spans of `split_spans` cut out.
fn pieces(text: &str, sep: char) -> Vec<String> {
    let chars: Vec<char> = text.chars().collect();
    split_spans(&chars, sep).iter().map(|span| chars[span.0..span.1].iter().collect()).collect()
}

/// What `trim_span` leaves of the whole of `text`.
fn trimmed(text: &str) -> String {
    let chars: Vec<char> = text.chars().collect();
    let span = trim_span(&chars, 0, chars.len());
    chars[span.0..span.1].iter().collect()
}

#[test]
fn split_spans_of_examples() {
    assert_eq!(vec![(0, 0)], split_spans(&Vec::new(), '+'));
    assert_eq!(vec![(0, 1)], split_spans(&vec!['a'], '+'));
    assert_eq!(vec![(0, 0), (1, 1)], split_spans(&vec!['+'], '+'));
    assert_eq!(vec![(0, 1), (2, 3)], split_spans(&vec!['a', '+', 'b'], '+'));
    assert_eq!(vec![(0, 0), (1, 1), (2, 3), (4, 4)], split_spans(&vec!['+', '+', 'b', '+'], '+'));
    assert_eq!(vec![(0, 3)], split_spans(&vec!['a', '+', 'b'], '-'));
}

#[test]
fn split_spans_cut_as_std_splits() {
    let texts = ["", "+", "++", "a", "a+b", "+a", "a+", "ctrl + shift + a", "a++b", "é+𝒂+ + ",
        "no separator here", "+++++"];
    for text in texts {
        let expect: Vec<String> = text.split('+').map(String::from).collect();
        assert_eq!(expect, pieces(text, '+'), "{:?}", text);
        assert_eq!(text.matches('+').count() + 1, pieces(text, '+').len());
        assert_eq!(text, pieces(text, '+').join("+"));
    }
    let expect: Vec<String> = "a b  c".split(' ').map(String::from).collect();
    assert_eq!(expect, pieces("a b  c", ' '));
}

#[test]
fn trim_span_trims_as_std_trims() {
    let texts = ["", " ", "   ", "a", " a", "a ", "  a b  ", "\t\na\r\n", "\u{a0}a\u{3000}",
        "\u{2000}\u{2001}\u{2002}x\u{2028}\u{2029}\u{202f}\u{205f}", "\u{200b} a", "a\u{feff}",
        " é 𝒂 "];
    for text in texts {
        assert_eq!(text.trim(), trimmed(text), "{:?}", text);
    }
}

#[test]
fn trim_span_stays_inside_its_span() {
    let chars: Vec<char> = "  ab  +  cd  ".chars().collect();
    assert_eq!((2, 4), trim_span(&chars, 0, 6));
    assert_eq!((2, 4), trim_span(&chars, 2, 4));
    assert_eq!((3, 4), trim_span(&chars, 3, 6));
    assert_eq!((9, 11), trim_span(&chars, 7, 13));
    assert_eq!((6, 7), trim_span(&chars, 6, 7));
    assert_eq!((6, 6), trim_span(&chars, 4, 6));
    assert_eq!((13, 13), trim_span(&chars, 13, 13));
    assert_eq!((0, 0), trim_span(&Vec::new(), 0, 0));
}
