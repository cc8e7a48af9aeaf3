use tos_backend::decimal::non_negative_decimal;
use tos_backend::services::edi::tokenizer::{first_component, last_component, split_components};
use tos_backend::services::edi::tokenize;
use tos_backend::text::{
    chars_of, contains_text, copy_range, lines_of, split_chars, text_is, uppercase,
};

fn chars(s: &str) -> Vec<char> {
    s.chars().collect()
}

fn strings(parts: &Vec<Vec<char>>) -> Vec<String> {
    parts.iter().map(|p| p.iter().collect()).collect()
}

#[test]
fn chars_of_gives_every_character() {
    assert_eq!(chars_of("a+\u{e9}\u{1F6A2}"), vec!['a', '+', '\u{e9}', '\u{1F6A2}']);
    assert!(chars_of("").is_empty());
}

#[test]
fn split_agrees_with_std_split() {
    for text in ["", "+", "a", "a+b", "+a+", "a++b", "TDT+20+V123+1++CARRIER+++V:::5", "\u{e9}+\u{e9}"] {
        let expected: Vec<String> = text.split('+').map(|p| p.to_string()).collect();
        assert_eq!(strings(&split_chars(&chars(text), '+')), expected);
    }
    assert_eq!(strings(&split_chars(&chars("a:b"), '+')), vec!["a:b".to_string()]);
}

#[test]
fn lines_agree_with_std_lines() {
    for text in [
        "",
        "\n",
        "a",
        "a\n",
        "a\nb",
        "a\r\nb\r\n",
        "a\r",
        "a\n\r",
        "\r\n",
        "a\n\nb\n\n",
        "a\r\r\nb",
        "\r",
    ] {
        let expected: Vec<String> = text.lines().map(|l| l.to_string()).collect();
        assert_eq!(strings(&lines_of(&chars(text))), expected);
    }
}

#[test]
fn tokenize_yields_one_segment_per_non_empty_line() {
    let segments = tokenize("UNH+1\n\nLOC+9+GATE1:139:6\r\n+\nEQD");
    assert_eq!(segments.len(), 4);
    assert_eq!(strings(&segments[0].fields), vec!["UNH", "1"]);
    assert_eq!(strings(&segments[1].fields), vec!["LOC", "9", "GATE1:139:6"]);
    assert_eq!(strings(&segments[2].fields), vec!["", ""]);
    assert_eq!(strings(&segments[3].fields), vec!["EQD"]);
    assert!(tokenize("").is_empty());
    assert!(tokenize("\n\r\n").is_empty());
}

#[test]
fn components_of_a_composite_field() {
    let field = chars("VESSEL_NAME:::5");
    assert_eq!(strings(&split_components(&field)), vec!["VESSEL_NAME", "", "", "5"]);
    assert_eq!(first_component(&field), chars("VESSEL_NAME"));
    assert_eq!(last_component(&field), chars("5"));
    assert_eq!(first_component(&chars("")), chars(""));
    assert_eq!(last_component(&chars("KGM:")), chars(""));
    assert_eq!(first_component(&chars("45G1")), chars("45G1"));
}

#[test]
fn text_is_compares_whole_texts() {
    assert!(text_is(&chars("EQD"), "EQD"));
    assert!(!text_is(&chars("EQ"), "EQD"));
    assert!(!text_is(&chars("EQDX"), "EQD"));
    assert!(!text_is(&chars("eqd"), "EQD"));
    assert!(text_is(&chars(""), ""));
    assert!(!text_is(&chars(""), "7"));
}

#[test]
fn contains_text_finds_runs() {
    assert!(contains_text(&chars("UNLOADING"), "LOAD"));
    assert!(contains_text(&chars("LOAD"), "LOAD"));
    assert!(contains_text(&chars("xxLOAD"), "LOAD"));
    assert!(!contains_text(&chars("LOA"), "LOAD"));
    assert!(!contains_text(&chars("LO AD"), "LOAD"));
    assert!(!contains_text(&chars(""), "LOAD"));
    assert!(contains_text(&chars("anything"), ""));
    assert!(contains_text(&chars(""), ""));
}

#[test]
fn uppercase_is_that_of_std() {
    for text in ["load", "Gate-In", "stra\u{df}e", "\u{17f}hift", "", "ALREADY", "\u{fb01}"] {
        assert_eq!(uppercase(&chars(text)), chars(&text.to_uppercase()));
    }
    assert_eq!(uppercase(&chars("disch")), chars("DISCH"));
}

#[test]
fn copy_range_copies_a_part() {
    assert_eq!(copy_range(&chars("45G1"), 0, 2), chars("45"));
    assert_eq!(copy_range(&chars("45G1"), 2, 4), chars("G1"));
    assert!(copy_range(&chars("45G1"), 3, 3).is_empty());
}

#[test]
fn non_negative_decimals_are_accepted() {
    for text in [
        "15000", "1200.5", "0", "+5", "5.", ".5", "+.5", "+0.0", "00012", "0.000",
        "9999999999999999999999999999", "3.14159",
    ] {
        assert!(non_negative_decimal(&chars(text)), "on {:?}", text);
        let number: f64 = text.parse().unwrap();
        assert!(number.is_finite() && number >= 0.0 && number.is_sign_positive(), "on {:?}", text);
    }
    assert_eq!("1200.5".parse::<f64>().unwrap(), 1200.5);
}

#[test]
fn negative_numbers_and_words_are_no_weights() {
    for text in [
        "-5", "-0", "-.5", "-1200.5", "inf", "-inf", "+Inf", "INFINITY", "infinity", "nan",
        "NaN", "-nan", "+nan", "1e3", "1E3", "1e+3", "1e-3", "1.5e10", "1e999", "", "+", "-", ".",
        "+.", "e5", "1e", "1.5.2", "1,5", " 1", "1 ", "1_000", "0x10", "--1", "+-1", "++1", "1+",
        "KGM", "\u{661}", "1\u{e9}", "5-", "1..", "..1",
    ] {
        assert!(!non_negative_decimal(&chars(text)), "on {:?}", text);
    }
}
