use osu_beatmap::text::{
    char_is_whitespace, chars_of, copy_range, find_char, is_text, remove_char, split_chars,
    split_lines, split_text, string_of, strings_of, trim_chars,
};

fn chars(s: &str) -> Vec<char> {
    s.chars().collect()
}

fn text(cs: &[char]) -> String {
    cs.iter().collect()
}

const SAMPLES: [&str; 16] = [
    "",
    " ",
    ",",
    ",,",
    "a,b,c",
    ",a,,b,",
    "osu file format v14",
    "  padded  ",
    "\t tab and space \r",
    "Title: Some Song",
    "0,0,\"bg.jpg\",0,0",
    "タイトル, ユニコード",
    "a\nb",
    "line one\r\nline two\n\nline three\r",
    "\u{3000}wide\u{a0}",
    "::",
];

#[test]
fn chars_of_gives_every_character_in_order() {
    for s in SAMPLES {
        assert_eq!(chars_of(s), chars(s));
    }
    assert_eq!(chars_of("añ字"), vec!['a', 'ñ', '字']);
}

#[test]
fn string_of_appends_every_character() {
    assert_eq!(string_of(&['s', 'o', 'n', 'g']), "song");
    assert_eq!(string_of(&[]), "");
    for s in SAMPLES {
        assert_eq!(string_of(&chars(s)), s);
    }
}

#[test]
fn find_char_gives_first_position_or_length() {
    assert_eq!(find_char(&chars("a:b:c"), ':'), 1);
    assert_eq!(find_char(&chars(":"), ':'), 0);
    assert_eq!(find_char(&chars("abc"), ':'), 3);
    assert_eq!(find_char(&chars(""), ':'), 0);
    for s in SAMPLES {
        let expected = s.chars().position(|c| c == ',').unwrap_or(s.chars().count());
        assert_eq!(find_char(&chars(s), ','), expected);
    }
}

#[test]
fn copy_range_copies_the_characters_between_two_positions() {
    let cs = chars("beatmap");
    assert_eq!(text(&copy_range(&cs, 0, 4)), "beat");
    assert_eq!(text(&copy_range(&cs, 4, 7)), "map");
    assert_eq!(text(&copy_range(&cs, 3, 3)), "");
}

#[test]
fn split_chars_agrees_with_the_standard_split() {
    for s in SAMPLES {
        for sep in [',', ' ', ':'] {
            let got: Vec<String> = split_chars(&chars(s), sep).iter().map(|p| text(p)).collect();
            let expected: Vec<String> = s.split(sep).map(|p| p.to_string()).collect();
            assert_eq!(got, expected, "splitting {:?} at {:?}", s, sep);
        }
    }
}

#[test]
fn split_chars_keeps_empty_pieces() {
    let got = split_chars(&chars(",a,,b,"), ',');
    assert_eq!(got, vec![chars(""), chars("a"), chars(""), chars("b"), chars("")]);
    assert_eq!(split_chars(&chars(""), ','), vec![chars("")]);
}

#[test]
fn split_text_gives_strings() {
    assert_eq!(split_text(&chars("1,2,3"), ','), vec!["1", "2", "3"]);
    assert_eq!(split_text(&chars("one"), ','), vec!["one"]);
}

#[test]
fn strings_of_turns_each_piece_into_a_string() {
    let pieces = vec![chars("ab"), chars(""), chars("c")];
    assert_eq!(strings_of(&pieces), vec!["ab", "", "c"]);
}

#[test]
fn is_text_compares_whole_sequences() {
    assert!(is_text(&chars("[General]"), "[General]"));
    assert!(!is_text(&chars("[General] "), "[General]"));
    assert!(!is_text(&chars("[General"), "[General]"));
    assert!(!is_text(&chars("[general]"), "[General]"));
    assert!(is_text(&chars(""), ""));
    assert!(!is_text(&chars(""), "a"));
    assert!(!is_text(&chars("a"), ""));
}

#[test]
fn char_is_whitespace_agrees_with_the_standard_library_on_every_character() {
    for n in 0..=0x10FFFFu32 {
        if let Some(c) = char::from_u32(n) {
            assert_eq!(char_is_whitespace(c), c.is_whitespace(), "U+{:04X}", n);
        }
    }
}

#[test]
fn trim_chars_agrees_with_the_standard_trim() {
    for s in SAMPLES {
        assert_eq!(text(&trim_chars(&chars(s))), s.trim(), "trimming {:?}", s);
    }
    assert_eq!(text(&trim_chars(&chars("  a b  "))), "a b");
    assert_eq!(text(&trim_chars(&chars(" \t\r\n "))), "");
}

#[test]
fn remove_char_drops_every_occurrence() {
    assert_eq!(text(&remove_char(&chars("\"bg.jpg\""), '"')), "bg.jpg");
    assert_eq!(text(&remove_char(&chars("a\"b\"\"c"), '"')), "abc");
    assert_eq!(text(&remove_char(&chars("plain"), '"')), "plain");
    for s in SAMPLES {
        assert_eq!(text(&remove_char(&chars(s), '"')), s.replace('"', ""));
    }
}

#[test]
fn split_lines_agrees_with_the_standard_lines_without_empty_ones() {
    let texts = [
        "",
        "\n",
        "\r\n",
        "a",
        "a\n",
        "a\r\n",
        "a\r",
        "a\r\r\n",
        "\ra\n",
        "a\n\nb",
        "a\r\n\r\nb\r\n",
        "a\n\r\nb\r",
        "\n\n\n",
        "one\ntwo\nthree",
        "line one\r\nline two\n\nline three\r",
    ];
    for t in texts {
        let got: Vec<String> = split_lines(&chars(t)).iter().map(|l| text(l)).collect();
        let expected: Vec<String> =
            t.lines().filter(|l| !l.is_empty()).map(|l| l.to_string()).collect();
        assert_eq!(got, expected, "lines of {:?}", t);
    }
}

#[test]
fn split_lines_keeps_a_lone_carriage_return_at_the_end_of_the_text() {
    let got = split_lines(&chars("a\r\nb\r"));
    assert_eq!(got, vec![chars("a"), chars("b\r")]);
}
