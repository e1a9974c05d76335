use hotkey::text::{
    chars_of, is_ascii_alphanumeric, is_blank, is_whitespace, lowercase_of, spells,
    to_ascii_lowercase, to_ascii_uppercase, uppercase_of,
};

#[test]
fn character_classes_for_every_character() {
    for c in '\0'..=char::MAX {
        assert_eq!(c.is_ascii_alphanumeric(), is_ascii_alphanumeric(c), "{:?}", c);
        assert_eq!(c.is_whitespace(), is_whitespace(c), "{:?}", c);
    }
}

#[test]
fn case_mappings_for_every_character() {
    for c in '\0'..=char::MAX {
        assert_eq!(c.to_ascii_lowercase(), to_ascii_lowercase(c), "{:?}", c);
        assert_eq!(c.to_ascii_uppercase(), to_ascii_uppercase(c), "{:?}", c);
    }
    assert_eq!('a', to_ascii_lowercase('A'));
    assert_eq!('Z', to_ascii_uppercase('z'));
    assert_eq!('é', to_ascii_uppercase('é'));
    assert_eq!('É', to_ascii_lowercase('É'));
}

#[test]
fn chars_and_cases_of_a_string() {
    let text = "Ctrl + É𝒂 z";
    let chars: Vec<char> = text.chars().collect();
    assert_eq!(chars, chars_of(text));
    let lower: Vec<char> = text.to_ascii_lowercase().chars().collect();
    assert_eq!(lower, lowercase_of(text));
    let upper: Vec<char> = text.to_ascii_uppercase().chars().collect();
    assert_eq!(upper, uppercase_of(text));
    assert_eq!(Vec::<char>::new(), chars_of(""));
    assert_eq!(vec!['c', 't', 'r', 'l'], lowercase_of("CtRl"));
    assert_eq!(vec!['F', '1', '0'], uppercase_of("f10"));
}

#[test]
fn spells_compares_whole_words() {
    let word = vec!['c', 't', 'r', 'l'];
    assert!(spells(&word, "ctrl"));
    assert!(!spells(&word, "ctr"));
    assert!(!spells(&word, "ctrll"));
    assert!(!spells(&word, "ctrL"));
    assert!(!spells(&word, ""));
    assert!(spells(&Vec::new(), ""));
    assert!(!spells(&Vec::new(), "a"));
    assert!(spells(&vec!['é', '𝒂'], "é𝒂"));
}

#[test]
fn blank_strings() {
    for blank in ["", " ", "   ", "\t\n\r", "\u{a0}\u{2000}\u{200a}\u{3000}", "\u{0b}\u{0c}\u{85}"] {
        assert!(is_blank(blank), "{:?}", blank);
        assert!(blank.trim().is_empty());
    }
    for text in ["a", " a", "a ", " + ", "\u{200b}", "\u{feff}", "  .  "] {
        assert!(!is_blank(text), "{:?}", text);
        assert!(!text.trim().is_empty());
    }
}
