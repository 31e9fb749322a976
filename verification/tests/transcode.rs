use brf_codec::codec::{
    dots_of_cell, dots_of_unicode, first_invalid, to_dot_pattern_bytes, to_unicode_braille,
    validate,
};
use brf_codec::{brf, brf_bytes, ControlPolicy, InvalidCharacter};

const PATTERN_ORDER: &str = " A1B'K2L@CIF/MSP\"E3H9O6R^DJG>NTQ,*5<-U8V.%[$+X!&;:4\\0Z7(_?W]#Y)=";

const ALL_PATTERNS: &str =
    "⠀⠁⠂⠃⠄⠅⠆⠇⠈⠉⠊⠋⠌⠍⠎⠏⠐⠑⠒⠓⠔⠕⠖⠗⠘⠙⠚⠛⠜⠝⠞⠟⠠⠡⠢⠣⠤⠥⠦⠧⠨⠩⠪⠫⠬⠭⠮⠯⠰⠱⠲⠳⠴⠵⠶⠷⠸⠹⠺⠻⠼⠽⠾⠿";

fn printable() -> Vec<char> {
    (0x20u8..=0x7E).map(char::from).collect()
}

#[test]
fn hello_to_unicode() {
    assert_eq!(brf("hello"), Ok(String::from("⠓⠑⠇⠇⠕")));
    assert_eq!(
        brf("hello"),
        Ok(String::from("\u{2813}\u{2811}\u{2807}\u{2807}\u{2815}"))
    );
}

#[test]
fn hello_to_dot_bytes() {
    assert_eq!(brf_bytes("hello"), Ok(vec![0x13, 0x11, 0x07, 0x07, 0x15]));
}

#[test]
fn empty_input_gives_empty_output() {
    assert_eq!(brf(""), Ok(String::new()));
    assert_eq!(brf_bytes(""), Ok(Vec::new()));
    assert_eq!(
        to_unicode_braille("", ControlPolicy::PrintableOnly),
        Ok(String::new())
    );
    assert_eq!(
        to_dot_pattern_bytes("", ControlPolicy::PrintableOnly),
        Ok(Vec::new())
    );
}

#[test]
fn control_character_is_rejected() {
    let expected = InvalidCharacter {
        character: '\x01',
        position: 0,
    };
    assert_eq!(brf("\x01"), Err(expected));
    assert_eq!(brf_bytes("\x01"), Err(expected));
    assert_eq!(
        to_unicode_braille("\x01", ControlPolicy::PrintableOnly),
        Err(expected)
    );
}

#[test]
fn every_pattern_in_order() {
    assert_eq!(brf(PATTERN_ORDER), Ok(String::from(ALL_PATTERNS)));
    let expected: Vec<u8> = (0u8..64).collect();
    assert_eq!(brf_bytes(PATTERN_ORDER), Ok(expected));
}

#[test]
fn punctuation_and_digits() {
    assert_eq!(brf(" !\"#"), Ok(String::from("⠀⠮⠐⠼")));
    assert_eq!(brf_bytes(" !\"#"), Ok(vec![0x00, 0x2E, 0x10, 0x3C]));
    assert_eq!(brf("0129"), Ok(String::from("⠴⠂⠆⠔")));
    assert_eq!(brf_bytes("="), Ok(vec![0x3F]));
}

#[test]
fn letter_case_is_not_told_apart() {
    assert_eq!(brf("Hello"), brf("hELLO"));
    assert_eq!(brf("abcxyz"), Ok(String::from("⠁⠃⠉⠭⠽⠵")));
    assert_eq!(brf("ABCXYZ"), Ok(String::from("⠁⠃⠉⠭⠽⠵")));
    assert_eq!(brf("`{|}~"), brf("@[\\]^"));
    assert_eq!(brf_bytes("`{|}~"), Ok(vec![0x08, 0x2A, 0x33, 0x3B, 0x18]));
}

#[test]
fn line_breaks_pass_through() {
    assert_eq!(brf("A\nB"), Ok(String::from("⠁\n⠃")));
    assert_eq!(brf("A\r\nB"), Ok(String::from("⠁\r\n⠃")));
    assert_eq!(brf_bytes("A\r\nB"), Ok(vec![1, 0, 0, 3]));
    assert_eq!(
        to_unicode_braille(",A\n", ControlPolicy::LineBreaks),
        Ok(String::from("⠠⠁\n"))
    );
}

#[test]
fn strict_policy_rejects_line_breaks() {
    assert_eq!(
        to_unicode_braille("A\nB", ControlPolicy::PrintableOnly),
        Err(InvalidCharacter {
            character: '\n',
            position: 1
        })
    );
    assert_eq!(
        to_dot_pattern_bytes("AB\r", ControlPolicy::PrintableOnly),
        Err(InvalidCharacter {
            character: '\r',
            position: 2
        })
    );
    assert_eq!(
        to_unicode_braille("AB", ControlPolicy::PrintableOnly),
        Ok(String::from("⠁⠃"))
    );
    assert_eq!(
        to_dot_pattern_bytes("AB", ControlPolicy::PrintableOnly),
        Ok(vec![1, 3])
    );
}

#[test]
fn other_control_characters_are_rejected() {
    assert_eq!(
        brf("AB\tC"),
        Err(InvalidCharacter {
            character: '\t',
            position: 2
        })
    );
    assert_eq!(
        brf_bytes("\n\0"),
        Err(InvalidCharacter {
            character: '\0',
            position: 1
        })
    );
    assert_eq!(
        brf("~\x7f"),
        Err(InvalidCharacter {
            character: '\x7f',
            position: 1
        })
    );
}

#[test]
fn characters_beyond_ascii_are_rejected() {
    assert_eq!(
        brf("ab\u{e9}c"),
        Err(InvalidCharacter {
            character: '\u{e9}',
            position: 2
        })
    );
    assert_eq!(
        brf_bytes("\u{2801}"),
        Err(InvalidCharacter {
            character: '\u{2801}',
            position: 0
        })
    );
}

#[test]
fn first_refused_character_is_reported() {
    assert_eq!(
        brf("ok\x02then\x03"),
        Err(InvalidCharacter {
            character: '\x02',
            position: 2
        })
    );
    assert_eq!(
        first_invalid("ok\x02then\x03", ControlPolicy::LineBreaks),
        Some(InvalidCharacter {
            character: '\x02',
            position: 2
        })
    );
    assert_eq!(first_invalid("fine\n", ControlPolicy::LineBreaks), None);
    assert_eq!(
        first_invalid("fine\n", ControlPolicy::PrintableOnly),
        Some(InvalidCharacter {
            character: '\n',
            position: 4
        })
    );
}

#[test]
fn validate_follows_the_policy() {
    for c in printable() {
        assert!(validate(c, ControlPolicy::PrintableOnly));
        assert!(validate(c, ControlPolicy::LineBreaks));
    }
    assert!(validate('\n', ControlPolicy::LineBreaks));
    assert!(validate('\r', ControlPolicy::LineBreaks));
    assert!(!validate('\n', ControlPolicy::PrintableOnly));
    assert!(!validate('\r', ControlPolicy::PrintableOnly));
    for policy in [ControlPolicy::PrintableOnly, ControlPolicy::LineBreaks] {
        assert!(!validate('\x1f', policy));
        assert!(!validate('\t', policy));
        assert!(!validate('\0', policy));
        assert!(!validate('\x7f', policy));
        assert!(!validate('\u{80}', policy));
        assert!(!validate('\u{2800}', policy));
    }
}

#[test]
fn every_printable_character_gives_one_cell() {
    for c in printable() {
        let cells = brf(&c.to_string()).unwrap();
        let produced: Vec<char> = cells.chars().collect();
        assert_eq!(produced.len(), 1);
        let code = u32::from(produced[0]);
        assert!((0x2800..0x2840).contains(&code));
    }
}

#[test]
fn table_is_one_to_one_below_the_repeated_rows() {
    let lower: String = (0x20u8..0x60).map(char::from).collect();
    let mut dots = brf_bytes(&lower).unwrap();
    dots.sort();
    let expected: Vec<u8> = (0u8..64).collect();
    assert_eq!(dots, expected);
    let upper: String = (0x60u8..0x7F).map(char::from).collect();
    let folded: String = (0x40u8..0x5F).map(char::from).collect();
    assert_eq!(brf(&upper), brf(&folded));
}

#[test]
fn dot_bytes_are_the_cells_low_bytes() {
    let text: String = printable().into_iter().collect();
    let cells = brf(&text).unwrap();
    let dots = brf_bytes(&text).unwrap();
    let decomposed: Vec<u8> = cells
        .chars()
        .map(|cell| (u32::from(cell) - 0x2800) as u8)
        .collect();
    assert_eq!(dots, decomposed);
    assert_eq!(dots_of_unicode(&cells), dots);
}

#[test]
fn length_is_preserved() {
    for text in ["", "A", "hello world", ",! QUICK BR[N FOX\r\nJUMPS"] {
        assert_eq!(brf(text).unwrap().chars().count(), text.chars().count());
        assert_eq!(brf_bytes(text).unwrap().len(), text.chars().count());
    }
}

#[test]
fn dots_are_read_off_cells() {
    assert_eq!(dots_of_cell('\u{2800}'), 0);
    assert_eq!(dots_of_cell('\u{283F}'), 0x3F);
    assert_eq!(dots_of_cell('⠓'), 0x13);
    assert_eq!(dots_of_cell('\n'), 0);
    assert_eq!(dots_of_cell('\r'), 0);
    assert_eq!(dots_of_cell(' '), 0x20);
    assert_eq!(dots_of_unicode("⠓⠑\n⠇"), vec![0x13, 0x11, 0, 0x07]);
    assert_eq!(dots_of_unicode(""), Vec::<u8>::new());
}

#[test]
fn a_line_of_contracted_braille() {
    let ascii = "  ,,! ,,ADV5TURES ,,( ,,TOM ,,SAWY] \n  ,,BY \n";
    let braille = "⠀⠀⠠⠠⠮⠀⠠⠠⠁⠙⠧⠢⠞⠥⠗⠑⠎⠀⠠⠠⠷⠀⠠⠠⠞⠕⠍⠀⠠⠠⠎⠁⠺⠽⠻⠀\n⠀⠀⠠⠠⠃⠽⠀\n";
    assert_eq!(brf(ascii), Ok(String::from(braille)));
}
