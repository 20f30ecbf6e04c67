use typing_practice::ascii_chars::AsciiChars;
use typing_practice::svg_keyboard::{
    map_ascii_to_key_id, shift_key_needed, SvgKeyboard, SHIFT_KEY_ID, SVG_KEYBOARD,
};

fn key_of(c: char) -> String {
    map_ascii_to_key_id(&AsciiChars::from_char(c).unwrap())
}

fn shift_for(c: char) -> bool {
    shift_key_needed(&AsciiChars::from_char(c).unwrap())
}

#[test]
fn letters_map_to_their_lower_case_key() {
    assert_eq!(key_of('a'), "key-a");
    assert_eq!(key_of('z'), "key-z");
    assert_eq!(key_of('A'), "key-a");
    assert_eq!(key_of('Q'), "key-q");
    assert_eq!(key_of('Z'), "key-z");
}

#[test]
fn digits_map_to_their_key() {
    for d in '0'..='9' {
        assert_eq!(key_of(d), format!("key-{}", d));
    }
}

#[test]
fn shifted_digits_map_to_the_digit_key() {
    let pairs = [
        ('!', "key-1"),
        ('@', "key-2"),
        ('#', "key-3"),
        ('$', "key-4"),
        ('%', "key-5"),
        ('^', "key-6"),
        ('&', "key-7"),
        ('*', "key-8"),
        ('(', "key-9"),
        (')', "key-0"),
    ];
    for (c, key) in pairs {
        assert_eq!(key_of(c), key);
        assert!(shift_for(c));
    }
}

#[test]
fn punctuation_maps_to_its_key() {
    let pairs = [
        ('-', "key-minus"),
        ('_', "key-minus"),
        ('=', "key-equals"),
        ('+', "key-equals"),
        ('[', "key-l-bracket"),
        ('{', "key-l-bracket"),
        (']', "key-r-bracket"),
        ('}', "key-r-bracket"),
        ('\\', "key-backslash"),
        ('|', "key-backslash"),
        (';', "key-semicolon"),
        (':', "key-semicolon"),
        ('\'', "key-s-quote"),
        ('"', "key-s-quote"),
        (',', "key-comma"),
        ('<', "key-comma"),
        ('.', "key-period"),
        ('>', "key-period"),
        ('/', "key-slash"),
        ('?', "key-slash"),
        ('`', "key-tilde"),
        ('~', "key-tilde"),
    ];
    for (c, key) in pairs {
        assert_eq!(key_of(c), key);
    }
}

#[test]
fn every_character_has_a_key_in_the_drawing() {
    for c in AsciiChars::list() {
        let id = map_ascii_to_key_id(&c);
        assert!(id.starts_with("key-"), "{:?}", c);
        assert!(id.len() > 4);
        assert!(SVG_KEYBOARD.contains(&format!("<g id=\"{}\">", id)), "{}", id);
    }
}

#[test]
fn shift_is_needed_for_capitals_and_listed_symbols() {
    for c in 'A'..='Z' {
        assert!(shift_for(c));
    }
    for c in "<>?~!@#$%^&*()_+".chars() {
        assert!(shift_for(c), "{}", c);
    }
}

#[test]
fn shift_is_not_needed_for_the_rest() {
    for c in 'a'..='z' {
        assert!(!shift_for(c));
    }
    for c in '0'..='9' {
        assert!(!shift_for(c));
    }
    for c in "-=[]\\;',./`{}|:\"".chars() {
        assert!(!shift_for(c), "{}", c);
    }
}

#[test]
fn css_ids_pair_the_key_with_shift() {
    let upper = AsciiChars::from_char('G').unwrap();
    assert_eq!(SvgKeyboard::get_css_ids(&upper), ("key-g".to_string(), Some("key-shift-left")));
    let lower = AsciiChars::from_char('g').unwrap();
    assert_eq!(SvgKeyboard::get_css_ids(&lower), ("key-g".to_string(), None));
    let question = AsciiChars::from_char('?').unwrap();
    assert_eq!(
        SvgKeyboard::get_css_ids(&question),
        ("key-slash".to_string(), Some(SHIFT_KEY_ID))
    );
    let brace = AsciiChars::from_char('{').unwrap();
    assert_eq!(SvgKeyboard::get_css_ids(&brace), ("key-l-bracket".to_string(), None));
}

#[test]
fn css_ids_agree_with_the_two_lookups() {
    for c in AsciiChars::list() {
        let (id, shift) = SvgKeyboard::get_css_ids(&c);
        assert_eq!(id, map_ascii_to_key_id(&c));
        assert_eq!(shift.is_some(), shift_key_needed(&c));
    }
}

#[test]
fn render_gives_the_drawing() {
    let _keyboard = SvgKeyboard::new();
    let svg = SvgKeyboard::render();
    assert_eq!(svg, SVG_KEYBOARD);
    assert!(svg.trim_start().starts_with("<svg "));
    assert!(svg.trim_end().ends_with("</svg>"));
    assert!(svg.contains("id=\"key-shift-left\""));
    assert_eq!(svg.len(), 13235);
}

#[test]
fn shift_key_is_in_the_drawing() {
    assert!(SVG_KEYBOARD.contains(&format!("<g id=\"{}\">", SHIFT_KEY_ID)));
    assert_eq!(SVG_KEYBOARD.find("<g id=\"key-tilde\">"), Some(328));
}
