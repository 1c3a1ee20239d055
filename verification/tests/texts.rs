use meo_wifi::text::{chars_of, contains, equal, lines_of, same, split_chars};

fn strings(pieces: Vec<Vec<char>>) -> Vec<String> {
    pieces.into_iter().map(|piece| piece.into_iter().collect()).collect()
}

fn split(text: &str, separator: char) -> Vec<String> {
    strings(split_chars(&chars_of(text), separator))
}

fn lines(text: &str) -> Vec<String> {
    strings(lines_of(&chars_of(text)))
}

#[test]
fn characters_are_taken_one_by_one() {
    assert_eq!(chars_of("aé\n"), vec!['a', 'é', '\n']);
    assert!(chars_of("").is_empty());
}

#[test]
fn texts_are_compared_by_their_characters() {
    assert!(same("abc", "abc"));
    assert!(!same("abc", "abd"));
    assert!(!same("abc", "ab"));
    assert!(same("", ""));
    assert!(equal(&chars_of("yes"), &chars_of("yes")));
    assert!(!equal(&chars_of("yes"), &chars_of("yes ")));
    assert!(!equal(&chars_of("yes"), &chars_of("yeS")));
}

#[test]
fn needle_is_found_wherever_it_stands() {
    let text = chars_of("802-3-ethernet");
    assert!(contains(&text, &chars_of("ethernet")));
    assert!(contains(&text, &chars_of("802")));
    assert!(contains(&text, &chars_of("-3-")));
    assert!(contains(&text, &chars_of("")));
    assert!(contains(&text, &text));
    assert!(!contains(&text, &chars_of("ethernets")));
    assert!(!contains(&text, &chars_of("wireless")));
    assert!(!contains(&chars_of(""), &chars_of("a")));
    assert!(contains(&chars_of(""), &chars_of("")));
    assert!(contains(&chars_of("aab"), &chars_of("ab")));
}

#[test]
fn separator_cuts_a_text_into_pieces() {
    assert_eq!(split("a:b:c", ':'), vec!["a", "b", "c"]);
    assert_eq!(split("a", ':'), vec!["a"]);
    assert_eq!(split("", ':'), vec![""]);
    assert_eq!(split(":", ':'), vec!["", ""]);
    assert_eq!(split("a::b:", ':'), vec!["a", "", "b", ""]);
    for text in ["a:b:c", "", ":", "::a", "a:", "no separator"] {
        let expected: Vec<String> = text.split(':').map(|piece| piece.to_string()).collect();
        assert_eq!(split(text, ':'), expected);
    }
}

#[test]
fn lines_end_with_line_feeds() {
    assert_eq!(lines("a\nb"), vec!["a", "b"]);
    assert_eq!(lines("a\nb\n"), vec!["a", "b"]);
    assert_eq!(lines("a\r\nb\r\n"), vec!["a", "b"]);
    assert_eq!(lines("\n\na"), vec!["", "", "a"]);
    assert!(lines("").is_empty());
    assert_eq!(lines("\n"), vec![""]);
    for text in ["a\nb", "a\r\nb\r", "\r\n\r\n", "a\r\r\nb", "\r", "x\n\n", "", "one"] {
        let expected: Vec<String> = text.lines().map(|line| line.to_string()).collect();
        assert_eq!(lines(text), expected, "on {:?}", text);
    }
}

#[test]
fn search_agrees_with_the_standard_search() {
    let texts = ["", "a", "ab", "aab", "abab", "ababab", "aaa", "802-3-ethernet", "été", "tr ue"];
    let needles = ["", "a", "b", "ab", "ba", "aba", "abab", "aaaa", "ethernet", "é", "té", "true"];
    for text in texts {
        for needle in needles {
            assert_eq!(
                contains(&chars_of(text), &chars_of(needle)),
                text.contains(needle),
                "{:?} in {:?}",
                needle,
                text
            );
        }
    }
}
