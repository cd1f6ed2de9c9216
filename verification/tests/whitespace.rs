use logid::redaction::whitespace::{collapse_blanks, collapse_newlines, is_blank, is_space, tidy, trim};

fn via(f: fn(&Vec<char>) -> Vec<char>, text: &str) -> String {
    f(&text.chars().collect()).into_iter().collect()
}

#[test]
fn blanks_are_spaces_and_tabs() {
    assert!(is_blank(' '));
    assert!(is_blank('\t'));
    assert!(!is_blank('\n'));
    assert!(!is_blank('a'));
    assert!(!is_blank('\u{a0}'));
}

#[test]
fn whitespace_is_what_unicode_says() {
    for c in ['\t', '\n', '\u{b}', '\u{c}', '\r', ' ', '\u{85}', '\u{a0}', '\u{1680}', '\u{2000}', '\u{200a}', '\u{2028}', '\u{2029}', '\u{202f}', '\u{205f}', '\u{3000}'] {
        assert!(is_space(c));
    }
    for c in ['a', '0', '\u{8}', '\u{e}', '\u{200b}', '\u{feff}', '_'] {
        assert!(!is_space(c));
    }
}

#[test]
fn whitespace_agrees_with_char_is_whitespace() {
    let mut code = 0u32;
    while code <= 0x3100 {
        if let Some(c) = char::from_u32(code) {
            assert_eq!(is_space(c), c.is_whitespace());
        }
        code += 1;
    }
}

#[test]
fn collapse_blanks_shrinks_runs() {
    assert_eq!(via(collapse_blanks, "a  b"), "a b");
    assert_eq!(via(collapse_blanks, "a \t b"), "a b");
    assert_eq!(via(collapse_blanks, "a\t\tb"), "a b");
    assert_eq!(via(collapse_blanks, "a     b   c"), "a b c");
    assert_eq!(via(collapse_blanks, "  a  "), " a ");
}

#[test]
fn collapse_blanks_leaves_single_blanks() {
    assert_eq!(via(collapse_blanks, "a b"), "a b");
    assert_eq!(via(collapse_blanks, "a\tb"), "a\tb");
    assert_eq!(via(collapse_blanks, ""), "");
    assert_eq!(via(collapse_blanks, "a \n b"), "a \n b");
    assert_eq!(via(collapse_blanks, "a\u{a0}\u{a0}b"), "a\u{a0}\u{a0}b");
}

#[test]
fn collapse_newlines_shrinks_three_to_two() {
    assert_eq!(via(collapse_newlines, "a\n\n\nb"), "a\n\nb");
    assert_eq!(via(collapse_newlines, "a\n\n\n\n\nb"), "a\n\nb");
    assert_eq!(via(collapse_newlines, "a\n \n \nb"), "a\n\nb");
    assert_eq!(via(collapse_newlines, "a\n\r\n\r\nb"), "a\n\nb");
    assert_eq!(via(collapse_newlines, "a\n\n\n b"), "a\n\n b");
    assert_eq!(via(collapse_newlines, "a \n\n\nb"), "a \n\nb");
    assert_eq!(via(collapse_newlines, "\n\n\n"), "\n\n");
}

#[test]
fn collapse_newlines_leaves_two_alone() {
    assert_eq!(via(collapse_newlines, "a\n\nb"), "a\n\nb");
    assert_eq!(via(collapse_newlines, "a\n \nb"), "a\n \nb");
    assert_eq!(via(collapse_newlines, "a\nb\nc\nd"), "a\nb\nc\nd");
    assert_eq!(via(collapse_newlines, "a\n\nb\n\nc"), "a\n\nb\n\nc");
    assert_eq!(via(collapse_newlines, ""), "");
}

#[test]
fn trim_removes_both_ends() {
    assert_eq!(via(trim, "  x \n"), "x");
    assert_eq!(via(trim, "x"), "x");
    assert_eq!(via(trim, " a b "), "a b");
    assert_eq!(via(trim, "   "), "");
    assert_eq!(via(trim, ""), "");
    assert_eq!(via(trim, "\u{3000}x\u{a0}"), "x");
}

#[test]
fn tidy_runs_the_three_passes_in_order() {
    assert_eq!(via(tidy, "  a   b\n\n\n\nc  "), "a b\n\nc");
    assert_eq!(via(tidy, "a\n  \n  \nb"), "a\n\nb");
    assert_eq!(via(tidy, "\n\n\na"), "a");
}

#[test]
fn tidy_twice_is_tidy_once() {
    for text in ["  a   b\n\n\n\nc  ", "a\n \t \n\t\nb", "x", "", " \n ", "a\t\t\tb \n \n \n \n c", "a \n\n b"] {
        let once = via(tidy, text);
        assert_eq!(via(tidy, &once), once);
    }
}

#[test]
fn tidy_agrees_with_the_patterns_it_stands_for() {
    let blanks = regex::Regex::new(r"[ \t]{2,}").unwrap();
    let lines = regex::Regex::new(r"\n\s*\n\s*\n").unwrap();
    for text in [
        "  a   b\n\n\n\nc  ",
        "a\n \t \n\t\nb",
        "a\n\n\n\n\n\nb\n\n\nc",
        "a \n \n b \n\n\n",
        "\n\n\n",
        "a\r\n\r\n\r\nb",
        "x\n\u{a0}\n\u{3000}\ny",
        "a\tb  c \t d",
        "",
    ] {
        let first = blanks.replace_all(text, " ").into_owned();
        let second = lines.replace_all(&first, "\n\n").into_owned();
        assert_eq!(via(collapse_blanks, text), first);
        assert_eq!(via(collapse_newlines, &first), second);
        assert_eq!(via(tidy, text), second.trim());
    }
}

#[test]
fn passes_agree_with_the_patterns_on_every_short_text() {
    let blanks = regex::Regex::new(r"[ \t]{2,}").unwrap();
    let lines = regex::Regex::new(r"\n\s*\n\s*\n").unwrap();
    let alphabet = ['a', ' ', '\t', '\n', '\r', '\u{a0}'];
    let mut text = String::new();
    for length in 0..=6usize {
        let mut index = vec![0usize; length];
        loop {
            text.clear();
            for i in &index {
                text.push(alphabet[*i]);
            }
            let chars: Vec<char> = text.chars().collect();
            let blanks_done: String = collapse_blanks(&chars).into_iter().collect();
            assert_eq!(blanks_done, blanks.replace_all(&text, " "));
            let lines_done: String = collapse_newlines(&chars).into_iter().collect();
            assert_eq!(lines_done, lines.replace_all(&text, "\n\n"));
            let trimmed: String = trim(&chars).into_iter().collect();
            assert_eq!(trimmed, text.trim());
            let mut place = 0;
            while place < length {
                index[place] += 1;
                if index[place] < alphabet.len() {
                    break;
                }
                index[place] = 0;
                place += 1;
            }
            if place == length {
                break;
            }
        }
    }
}
