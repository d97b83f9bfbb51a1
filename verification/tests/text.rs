use font_logo::text::{any_token_in, chars_of, contains, is_whitespace};

fn words(alphabet: &[char], max_len: usize) -> Vec<String> {
    let mut all = vec![String::new()];
    let mut last = vec![String::new()];
    for _ in 0..max_len {
        let mut next = Vec::new();
        for word in &last {
            for c in alphabet {
                let mut longer = word.clone();
                longer.push(*c);
                next.push(longer);
            }
        }
        all.extend(next.iter().cloned());
        last = next;
    }
    all
}

#[test]
fn chars_of_gives_the_characters_in_order() {
    assert_eq!(chars_of("pop!_os"), vec!['p', 'o', 'p', '!', '_', 'o', 's']);
    assert_eq!(chars_of(""), Vec::<char>::new());
    assert_eq!(chars_of("\u{f303}a\u{e9}"), vec!['\u{f303}', 'a', '\u{e9}']);
}

#[test]
fn contains_finds_a_part_anywhere() {
    assert!(contains("archlabs gnu/linux", "arch"));
    assert!(contains("archlabs gnu/linux", "labs"));
    assert!(contains("archlabs gnu/linux", "linux"));
    assert!(contains("archlabs gnu/linux", "archlabs gnu/linux"));
    assert!(contains("archlabs gnu/linux", " "));
}

#[test]
fn contains_rejects_what_is_not_a_part() {
    assert!(!contains("archlabs gnu/linux", "arhc"));
    assert!(!contains("arch", "arch linux"));
    assert!(!contains("arch", "archh"));
    assert!(!contains("", "a"));
    assert!(!contains("ab ab", "aba"));
}

#[test]
fn contains_takes_the_empty_string_as_part_of_all() {
    assert!(contains("arch", ""));
    assert!(contains("", ""));
}

#[test]
fn contains_compares_whole_characters() {
    assert!(contains("caf\u{e9} os", "\u{e9} o"));
    assert!(!contains("cafe os", "\u{e9}"));
    assert!(contains("\u{f303}\u{f31e}", "\u{f31e}"));
}

#[test]
fn contains_agrees_with_the_standard_library() {
    let all = words(&['a', 'b', ' '], 4);
    for hay in &all {
        for needle in &all {
            assert_eq!(
                contains(hay, needle),
                hay.contains(needle.as_str()),
                "{:?} in {:?}",
                needle,
                hay
            );
        }
    }
}

#[test]
fn is_whitespace_agrees_with_the_standard_library_on_every_character() {
    for code in 0u32..=0x10FFFF {
        if let Some(c) = char::from_u32(code) {
            assert_eq!(is_whitespace(c), c.is_whitespace(), "U+{:04X}", code);
        }
    }
}

#[test]
fn is_whitespace_knows_the_usual_ones() {
    assert!(is_whitespace(' '));
    assert!(is_whitespace('\t'));
    assert!(is_whitespace('\n'));
    assert!(is_whitespace('\u{a0}'));
    assert!(is_whitespace('\u{3000}'));
    assert!(!is_whitespace('a'));
    assert!(!is_whitespace('_'));
    assert!(!is_whitespace('\u{200b}'));
}

#[test]
fn any_token_in_takes_whole_parts() {
    let name = chars_of("redhat enterprise");
    assert!(any_token_in(&chars_of("red hat"), &name));
    assert!(any_token_in(&chars_of("big hat"), &name));
    assert!(!any_token_in(&chars_of("reds hats"), &name));
    assert!(!any_token_in(&chars_of("parrot os"), &chars_of("o")));
    assert!(any_token_in(&chars_of("parrot os"), &chars_of("xosx")));
}

#[test]
fn any_token_in_skips_runs_of_whitespace() {
    let name = chars_of("plasma");
    assert!(any_token_in(&chars_of("  kde \t\n plasma  "), &name));
    assert!(any_token_in(&chars_of("kde\u{a0}plasma"), &name));
    assert!(!any_token_in(&chars_of("  kde \t neon "), &name));
}

#[test]
fn any_token_in_finds_no_part_in_blank_keys() {
    assert!(!any_token_in(&chars_of(""), &chars_of("arch")));
    assert!(!any_token_in(&chars_of("   "), &chars_of("arch")));
    assert!(!any_token_in(&chars_of(""), &chars_of("")));
    assert!(!any_token_in(&chars_of(" \t "), &chars_of(" \t ")));
}

#[test]
fn any_token_in_agrees_with_the_standard_library() {
    let all = words(&['a', 'b', ' '], 4);
    for key in &all {
        for name in &all {
            let expected = key.split_whitespace().any(|part| name.contains(part));
            assert_eq!(
                any_token_in(&chars_of(key), &chars_of(name)),
                expected,
                "{:?} against {:?}",
                key,
                name
            );
        }
    }
}
