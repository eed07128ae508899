use capture_core::text::{
    chars_of, code_after_marker, decimal_string, find_in, holds, is_space, lines_of, parse_u64,
    position_of_char, same_text, second_field_of, slice, string_of, strip_all, text_after,
    text_before, trimmed,
};

fn chars(text: &str) -> Vec<char> {
    text.chars().collect()
}

fn string(chars: &[char]) -> String {
    chars.iter().collect()
}

const SAMPLES: [&str; 16] = [
    "",
    "\n",
    "\r\n",
    "a",
    "a\n",
    "a\r\n",
    "a\r",
    "a\n\nb",
    "a\r\r\nb\r\n\r\nc\r",
    "Name=Intel\r\nDriverVersion=1.2\r\n",
    "  padded \t",
    "\u{a0}\u{2003}x y\u{3000}\u{85}",
    "key=value=more",
    "no delimiter here",
    "=",
    "héllo=wörld\nünï=cödé",
];

#[test]
fn chars_and_strings_convert_both_ways() {
    for sample in SAMPLES {
        assert_eq!(chars_of(sample), chars(sample));
        assert_eq!(string_of(&chars(sample)), sample);
    }
}

#[test]
fn lines_agree_with_the_standard_library() {
    for sample in SAMPLES {
        let expected: Vec<String> = sample.lines().map(|line| line.to_string()).collect();
        let found: Vec<String> = lines_of(&chars(sample)).iter().map(|line| string(line)).collect();
        assert_eq!(found, expected, "lines of {:?}", sample);
    }
}

#[test]
fn trimming_agrees_with_the_standard_library() {
    for sample in SAMPLES {
        assert_eq!(string(&trimmed(&chars(sample))), sample.trim(), "trim of {:?}", sample);
    }
    assert_eq!(string(&trimmed(&chars(" \t\r\n "))), "");
}

#[test]
fn white_space_agrees_with_the_standard_library() {
    for code in 0..=0x10FFFFu32 {
        if let Some(c) = char::from_u32(code) {
            assert_eq!(is_space(c), c.is_whitespace(), "U+{:04X}", code);
        }
    }
}

#[test]
fn numerals_agree_with_the_standard_library() {
    let samples = [
        "0",
        "7",
        "42",
        "007",
        "+5",
        "+",
        "",
        "-1",
        "12a",
        "a12",
        " 12",
        "12 ",
        "18446744073709551615",
        "18446744073709551616",
        "99999999999999999999999",
        "+18446744073709551615",
        "++1",
        "1+",
        "١٢",
    ];
    for sample in samples {
        assert_eq!(parse_u64(&chars(sample)), sample.parse::<u64>().ok(), "parse of {:?}", sample);
    }
    assert_eq!(parse_u64(&chars("17179869184")), Some(17179869184));
}

#[test]
fn decimal_rendering_agrees_with_the_standard_library() {
    for value in [0u64, 1, 9, 10, 11, 99, 100, 16004, 1234567890, u64::MAX] {
        assert_eq!(decimal_string(value), value.to_string());
    }
}

#[test]
fn searching_agrees_with_the_standard_library() {
    let haystacks = ["", "a", "abcabc", "PCI\\VEN_8086&DEV_1234", "aaa", "xxVID_"];
    let needles = ["", "a", "bc", "VEN_", "DEV_", "VID_", "abcabcabc", "aa"];
    for haystack in haystacks {
        for needle in needles {
            assert_eq!(
                find_in(&chars(haystack), &chars(needle)),
                haystack.find(needle),
                "find {:?} in {:?}",
                needle,
                haystack
            );
            assert_eq!(holds(&chars(haystack), &chars(needle)), haystack.contains(needle));
        }
    }
}

#[test]
fn stripping_agrees_with_replacing_by_nothing() {
    let texts = ["16,384 MB", "1,2,3", " MB MB", "MMB", "", "aaa", "abab"];
    let patterns = [",", " MB", "aa", "ab", "xyz"];
    for text in texts {
        for pattern in patterns {
            assert_eq!(
                string(&strip_all(&chars(text), &chars(pattern))),
                text.replace(pattern, ""),
                "strip {:?} from {:?}",
                pattern,
                text
            );
        }
    }
    assert_eq!(string(&strip_all(&chars("abc"), &chars(""))), "abc");
}

#[test]
fn fields_agree_with_splitting() {
    for sample in SAMPLES {
        for delimiter in ['=', ':', '\\'] {
            let text = chars(sample);
            let mut parts = sample.split(delimiter);
            let first = parts.next().unwrap();
            let second = parts.next();
            assert_eq!(string(&text_before(&text, delimiter)), first);
            assert_eq!(second_field_of(&text, delimiter).map(|field| string(&field)), second.map(|field| field.to_string()));
            let rest = sample.split_once(delimiter).map(|(_, rest)| rest.to_string());
            assert_eq!(text_after(&text, delimiter).map(|field| string(&field)), rest);
            assert_eq!(
                position_of_char(&text, delimiter),
                text.iter().position(|c| *c == delimiter).unwrap_or(text.len())
            );
        }
    }
}

#[test]
fn codes_are_the_four_characters_after_the_marker() {
    let marker = chars("VEN_");
    assert_eq!(string(&code_after_marker(&chars("VEN_8086&DEV_1234"), &marker)), "8086");
    assert_eq!(string(&code_after_marker(&chars("xxVEN_10DE"), &marker)), "10DE");
    assert_eq!(string(&code_after_marker(&chars("VEN_10D"), &marker)), "");
    assert_eq!(string(&code_after_marker(&chars("DEV_1234"), &marker)), "");
    assert_eq!(string(&code_after_marker(&chars(""), &marker)), "");
}

#[test]
fn slices_and_comparison() {
    let text = chars("abcdef");
    assert_eq!(string(&slice(&text, 1, 4)), "bcd");
    assert_eq!(string(&slice(&text, 2, 2)), "");
    assert!(same_text(&chars("(null)"), &chars("(null)")));
    assert!(!same_text(&chars("(null)"), &chars("(nul)")));
    assert!(!same_text(&chars("abc"), &chars("abd")));
    assert!(same_text(&chars(""), &chars("")));
}
