use pygrab_ll::charset::{scan_charset, token_chars, utf8_chars};
use pygrab_ll::codec::{decode_text, string_of};
use pygrab_ll::text::{
    begins_with, chars_of, drop_spaces, is_space_char, lower_char, lowered, skip_spaces, span_from,
};

fn scan(text: &str) -> String {
    let chars: Vec<char> = text.chars().collect();
    scan_charset(&chars).iter().collect()
}

#[test]
fn chars_of_gives_every_character() {
    assert_eq!(chars_of("héllo"), vec!['h', 'é', 'l', 'l', 'o']);
    assert_eq!(chars_of(""), Vec::<char>::new());
}

#[test]
fn string_of_is_the_inverse_of_chars_of() {
    let text = "grüße, 世界";
    assert_eq!(string_of(&chars_of(text)), text);
}

#[test]
fn white_space_is_the_unicode_property() {
    for c in [' ', '\t', '\n', '\r', '\u{0B}', '\u{0C}', '\u{85}', '\u{A0}', '\u{1680}', '\u{2000}',
        '\u{200A}', '\u{2028}', '\u{2029}', '\u{202F}', '\u{205F}', '\u{3000}']
    {
        assert!(is_space_char(c));
        assert!(c.is_whitespace());
    }
    for c in ['a', '0', '\u{200B}', '\u{180E}', '\u{FEFF}', '\u{1F}', '\u{08}', '\u{0E}'] {
        assert!(!is_space_char(c));
        assert!(!c.is_whitespace());
    }
}

#[test]
fn white_space_agrees_with_std_on_every_character() {
    let mut n: u32 = 0;
    while n <= 0x10FFFF {
        if let Some(c) = char::from_u32(n) {
            assert_eq!(is_space_char(c), c.is_whitespace());
            assert_eq!(lower_char(c), c.to_ascii_lowercase());
        }
        n += 1;
    }
}

#[test]
fn lower_char_touches_ascii_letters_only() {
    assert_eq!(lower_char('A'), 'a');
    assert_eq!(lower_char('Z'), 'z');
    assert_eq!(lower_char('a'), 'a');
    assert_eq!(lower_char('['), '[');
    assert_eq!(lower_char('@'), '@');
    assert_eq!(lower_char('É'), 'É');
}

#[test]
fn span_from_stops_at_either_character() {
    let text = chars_of("ab=cd\"ef");
    assert_eq!(span_from(&text, 0, text.len(), '=', '"'), 2);
    assert_eq!(span_from(&text, 3, text.len(), '=', '"'), 5);
    assert_eq!(span_from(&text, 6, text.len(), '=', '"'), 8);
    assert_eq!(span_from(&text, 0, 1, '=', '"'), 1);
    assert_eq!(span_from(&text, 2, 2, '=', '"'), 2);
}

#[test]
fn skip_and_drop_spaces_trim_a_range() {
    let text = chars_of("  \t x y \n ");
    let to = text.len();
    let a = skip_spaces(&text, 0, to);
    let b = drop_spaces(&text, a, to);
    assert_eq!(a, 4);
    assert_eq!(b, 7);
    let blank = chars_of("   ");
    assert_eq!(skip_spaces(&blank, 0, 3), 3);
    assert_eq!(drop_spaces(&blank, 0, 3), 0);
}

#[test]
fn begins_with_compares_a_prefix() {
    let text = chars_of("xxcharset=utf-8");
    let token = token_chars();
    assert_eq!(string_of(&token), "charset=");
    assert!(begins_with(&text, 2, text.len(), &token));
    assert!(!begins_with(&text, 0, text.len(), &token));
    assert!(!begins_with(&text, 2, 9, &token));
    assert!(begins_with(&text, 2, 10, &token));
}

#[test]
fn lowered_lowers_a_range() {
    let text = chars_of("xUTF-8É");
    assert_eq!(string_of(&lowered(&text, 1, text.len())), "utf-8É");
    assert_eq!(string_of(&lowered(&text, 3, 3)), "");
}

#[test]
fn scan_finds_a_declared_charset() {
    assert_eq!(scan("text/html; charset=UTF-8"), "utf-8");
    assert_eq!(scan("text/html;charset=ISO-8859-1"), "iso-8859-1");
    assert_eq!(scan("charset=latin1"), "latin1");
}

#[test]
fn scan_defaults_to_utf8() {
    assert_eq!(string_of(&utf8_chars()), "utf-8");
    assert_eq!(scan(""), "utf-8");
    assert_eq!(scan("{\"a\": 1}"), "utf-8");
    assert_eq!(scan("a;b;c"), "utf-8");
    assert_eq!(scan("x charset=latin1"), "utf-8");
    assert_eq!(scan("; charset =latin1"), "utf-8");
    assert_eq!(scan("Charset=latin1"), "utf-8");
}

#[test]
fn scan_takes_the_first_declaring_piece() {
    assert_eq!(scan("a; charset=one; charset=two"), "one");
    assert_eq!(scan("charset;charset=two"), "two");
}

#[test]
fn scan_stops_the_label_at_equals_quote_or_semicolon() {
    assert_eq!(scan("charset=utf-16\"> rest"), "utf-16");
    assert_eq!(scan("charset=a=b"), "a");
    assert_eq!(scan("charset=koi8-r;x=y"), "koi8-r");
    assert_eq!(scan("charset=\"utf-8\""), "");
    assert_eq!(scan("charset="), "");
}

#[test]
fn scan_trims_the_label() {
    assert_eq!(scan("\n\t charset=  Latin1 \t"), "latin1");
    assert_eq!(scan("a;\u{3000}charset=\u{A0}X\u{2003}"), "x");
}

#[test]
fn scan_agrees_with_the_iterator_formulation() {
    let samples = [
        "text/html; charset=UTF-8",
        "<meta http-equiv=\"Content-Type\" content=\"text/html; charset=windows-1252\">",
        ";;;",
        "charset=;charset=x",
        " charset=a b ; charset=c",
        "charset==",
        "=charset=x",
        "a=b;  charset=Shift_JIS\"",
        "chars;et=;charset",
    ];
    for text in samples {
        let expected = text
            .split(';')
            .find(|part| part.trim().starts_with("charset="))
            .and_then(|charset| charset.split('=').nth(1))
            .and_then(|charset| charset.split('"').nth(0))
            .unwrap_or("utf-8")
            .trim()
            .to_string()
            .to_ascii_lowercase();
        assert_eq!(scan(text), expected);
    }
}

#[test]
fn decode_text_accepts_exactly_valid_utf8() {
    assert_eq!(decode_text(&"héllo".as_bytes().to_vec()), Some("héllo".to_string()));
    assert_eq!(decode_text(&Vec::new()), Some(String::new()));
    assert_eq!(decode_text(&vec![0xff, 0xfe]), None);
    assert_eq!(decode_text(&vec![0xc3]), None);
    assert_eq!(decode_text(&vec![0xed, 0xa0, 0x80]), None);
}
