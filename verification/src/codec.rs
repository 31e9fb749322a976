//! The cell codec: which characters are accepted, and the two encodings that
//! accepted text is transcoded into.

use crate::table::{ascii_cell, fold_rows, is_six_dot_cell};
use crate::table::{lemma_cell_is_six_dot, lemma_cells_equal_iff_folded_equal};
use braille_ascii::ascii::AsciiString;
use braille_ascii::BrailleAsciiString;
use vstd::prelude::*;
use vstd::std_specs::iter::IteratorSpec;
use vstd::string::group_string_axioms;

verus! {

broadcast use group_string_axioms;

/// What the codec does with control characters.
///
/// Neither policy accepts a control character other than a line break: the
/// transcoders report it as invalid.
#[derive(Clone, Copy, Debug, PartialEq, Eq, Structural)]
pub enum ControlPolicy {
    /// Only the printable characters `0x20..=0x7E` are accepted.
    PrintableOnly,
    /// Carriage return and line feed are accepted as well. They pass into
    /// Unicode output unchanged and become an empty cell in dot-pattern bytes.
    LineBreaks,
}

/// The character that made a transcoding fail, and where it stands.
#[derive(Clone, Copy, Debug, PartialEq, Eq, Structural)]
pub struct InvalidCharacter {
    /// The offending character.
    pub character: char,
    /// Its zero-based index in the input, counted in characters.
    pub position: usize,
}

/// True if `c` is a printable character of Braille ASCII.
pub open spec fn is_printable(c: char) -> bool {
    0x20 <= (c as u32) <= 0x7E
}

/// True if `c` is a carriage return or a line feed.
pub open spec fn is_line_break(c: char) -> bool {
    c == '\r' || c == '\n'
}

/// True if `policy` accepts the character `c`.
pub open spec fn is_permitted(c: char, policy: ControlPolicy) -> bool {
    is_printable(c) || (policy == ControlPolicy::LineBreaks && is_line_break(c))
}

/// True if `policy` accepts every character of `text`.
pub open spec fn all_permitted(text: Seq<char>, policy: ControlPolicy) -> bool {
    forall|i: int| 0 <= i < text.len() ==> is_permitted(#[trigger] text[i], policy)
}

/// True if `e` names the first character of `text` that `policy` refuses.
pub open spec fn is_first_invalid(
    text: Seq<char>,
    policy: ControlPolicy,
    e: InvalidCharacter,
) -> bool {
    &&& e.position < text.len()
    &&& e.character == text[e.position as int]
    &&& !is_permitted(e.character, policy)
    &&& forall|j: int| 0 <= j < e.position ==> is_permitted(#[trigger] text[j], policy)
}

/// True if every character of `text` is below `0x80`.
pub open spec fn is_seven_bit(text: Seq<char>) -> bool {
    forall|i: int| 0 <= i < text.len() ==> (#[trigger] text[i] as u32) < 0x80
}

/// The character that stands for `c` in Unicode Braille: a character below
/// the space is kept, any other is looked up in the table.
pub open spec fn unicode_cell(c: char) -> char
    recommends
        (c as u32) < 0x80,
{
    if (c as u32) < 0x20 {
        c
    } else {
        ascii_cell(c as u8)
    }
}

/// The dot pattern held by one character of Unicode Braille output: the low
/// byte of a cell's code point, and no dots for a control character.
pub open spec fn cell_dots(cell: char) -> u8 {
    if (cell as u32) < 0x20 {
        0u8
    } else {
        ((cell as u32) & 0xFF) as u8
    }
}

/// The dot pattern that stands for the Braille ASCII character `c`.
pub open spec fn dot_byte(c: char) -> u8 {
    cell_dots(unicode_cell(c))
}

/// `text` in Unicode Braille, character by character.
pub open spec fn unicode_cells(text: Seq<char>) -> Seq<char> {
    text.map_values(|c: char| unicode_cell(c))
}

/// The dot patterns of Unicode Braille output, character by character.
pub open spec fn dots_of_cells(cells: Seq<char>) -> Seq<u8> {
    cells.map_values(|cell: char| cell_dots(cell))
}

/// `text` as dot patterns, character by character.
pub open spec fn dot_bytes(text: Seq<char>) -> Seq<u8> {
    text.map_values(|c: char| dot_byte(c))
}

/// Tells whether `policy` accepts the character `c`.
pub fn validate(c: char, policy: ControlPolicy) -> (ok: bool)
    ensures
        ok == is_permitted(c, policy),
{
    if ' ' <= c && c <= '~' {
        true
    } else {
        match policy {
            ControlPolicy::PrintableOnly => false,
            ControlPolicy::LineBreaks => c == '\r' || c == '\n',
        }
    }
}

/// Finds the first character of `text` that `policy` refuses.
pub fn first_invalid(text: &str, policy: ControlPolicy) -> (found: Option<InvalidCharacter>)
    ensures
        found is None <==> all_permitted(text@, policy),
        found matches Some(e) ==> is_first_invalid(text@, policy, e),
{
    let n: usize = text.unicode_len();
    let mut rest = text.chars();
    let mut i: usize = 0;
    loop
        invariant
            n == text@.len(),
            i <= n,
            rest.remaining() == text@.skip(i as int),
            forall|j: int| 0 <= j < i ==> is_permitted(#[trigger] text@[j], policy),
        decreases n - i,
    {
        match rest.next() {
            None => {
                return None;
            },
            Some(c) => {
                if !validate(c, policy) {
                    return Some(InvalidCharacter { character: c, position: i });
                }
                assert(text@.skip(i as int).drop_first() == text@.skip(i + 1));
                i += 1;
            },
        }
    }
}

/// Calls `BrailleAsciiString::to_unicode_braille` of the crate `braille_ascii`,
/// on `text` converted by `AsciiString::from_ascii` of the crate `ascii` and
/// by `BrailleAsciiString::from_ascii`.
///
/// Trusted, not proved: on text of characters below `0x80`, which the
/// conversion needs, the result has one character for each character of
/// `text`, in order: a character below `0x20` itself, any other the entry of
/// that crate's table at its byte less `0x20`, which `ascii_cell` restates.
#[verifier::external_body]
fn ascii_to_unicode_braille(text: &str) -> (cells: String)
    requires
        is_seven_bit(text@),
    ensures
        cells@ == unicode_cells(text@),
{
    let ascii = AsciiString::from_ascii(text).unwrap();
    BrailleAsciiString::from_ascii(ascii).to_unicode_braille()
}

/// Reads the dot pattern off one character of Unicode Braille output.
pub fn dots_of_cell(cell: char) -> (dots: u8)
    ensures
        dots == cell_dots(cell),
{
    if cell >= ' ' {
        let code: u32 = cell as u32;
        let low: u32 = code & 0xFF;
        assert(low <= 0xFF) by (bit_vector)
            requires
                low == code & 0xFF,
        ;
        low as u8
    } else {
        0
    }
}

/// Reads the dot patterns off Unicode Braille output, one byte per character.
pub fn dots_of_unicode(cells: &str) -> (dots: Vec<u8>)
    ensures
        dots@ == dots_of_cells(cells@),
{
    let n: usize = cells.unicode_len();
    let mut dots: Vec<u8> = Vec::with_capacity(n);
    let mut rest = cells.chars();
    let ghost mut i: int = 0;
    loop
        invariant
            n == cells@.len(),
            0 <= i <= n,
            rest.remaining() == cells@.skip(i),
            dots@ == dots_of_cells(cells@.take(i)),
        decreases n - i,
    {
        match rest.next() {
            None => {
                assert(cells@.take(i) == cells@);
                return dots;
            },
            Some(cell) => {
                dots.push(dots_of_cell(cell));
                proof {
                    assert(cells@.skip(i).drop_first() == cells@.skip(i + 1));
                    assert(cells@.take(i + 1) == cells@.take(i).push(cell));
                    assert(dots@ == dots_of_cells(cells@.take(i + 1)));
                    i = i + 1;
                }
            },
        }
    }
}

/// Transcodes Braille ASCII `text` into Unicode Braille under `policy`.
///
/// Succeeds exactly when `policy` accepts every character; otherwise nothing
/// is produced and the first refused character is reported.
pub fn to_unicode_braille(text: &str, policy: ControlPolicy) -> (r: Result<String, InvalidCharacter>)
    ensures
        r is Ok <==> all_permitted(text@, policy),
        r matches Ok(cells) ==> {
            &&& cells@ == unicode_cells(text@)
            &&& cells@.len() == text@.len()
            &&& forall|i: int|
                0 <= i < text@.len() ==> if is_printable(text@[i]) {
                    is_six_dot_cell(#[trigger] cells@[i])
                } else {
                    cells@[i] == text@[i]
                }
        },
        r matches Err(e) ==> is_first_invalid(text@, policy, e),
{
    match first_invalid(text, policy) {
        Some(e) => Err(e),
        None => {
            let cells = ascii_to_unicode_braille(text);
            proof {
                lemma_unicode_cells_in_block(text@, policy);
            }
            Ok(cells)
        },
    }
}

/// Transcodes Braille ASCII `text` into dot-pattern bytes under `policy`.
///
/// Succeeds exactly when `policy` accepts every character; otherwise nothing
/// is produced and the first refused character is reported.
pub fn to_dot_pattern_bytes(text: &str, policy: ControlPolicy) -> (r: Result<Vec<u8>, InvalidCharacter>)
    ensures
        r is Ok <==> all_permitted(text@, policy),
        r matches Ok(dots) ==> {
            &&& dots@ == dot_bytes(text@)
            &&& dots@.len() == text@.len()
            &&& forall|i: int| 0 <= i < text@.len() ==> #[trigger] dots@[i] < 64
        },
        r matches Err(e) ==> is_first_invalid(text@, policy, e),
{
    match to_unicode_braille(text, policy) {
        Err(e) => Err(e),
        Ok(cells) => {
            let dots = dots_of_unicode(cells.as_str());
            proof {
                lemma_dot_bytes_decompose_unicode(text@, policy);
            }
            Ok(dots)
        },
    }
}

/// Unicode Braille for Braille ASCII `text`; line breaks pass through.
pub fn brf(text: &str) -> (r: Result<String, InvalidCharacter>)
    ensures
        r is Ok <==> all_permitted(text@, ControlPolicy::LineBreaks),
        r matches Ok(cells) ==> cells@ == unicode_cells(text@) && cells@.len() == text@.len(),
        r matches Err(e) ==> is_first_invalid(text@, ControlPolicy::LineBreaks, e),
{
    to_unicode_braille(text, ControlPolicy::LineBreaks)
}

/// Dot-pattern bytes for Braille ASCII `text`; a line break is an empty cell.
pub fn brf_bytes(text: &str) -> (r: Result<Vec<u8>, InvalidCharacter>)
    ensures
        r is Ok <==> all_permitted(text@, ControlPolicy::LineBreaks),
        r matches Ok(dots) ==> dots@ == dot_bytes(text@) && dots@.len() == text@.len(),
        r matches Err(e) ==> is_first_invalid(text@, ControlPolicy::LineBreaks, e),
{
    to_dot_pattern_bytes(text, ControlPolicy::LineBreaks)
}

/// A printable character becomes a six-dot cell, and its dot pattern is the
/// cell's offset in the Braille Patterns block.
pub proof fn lemma_printable_cell(c: char)
    requires
        is_printable(c),
    ensures
        is_six_dot_cell(unicode_cell(c)),
        dot_byte(c) < 64,
        dot_byte(c) == (unicode_cell(c) as u32) - 0x2800,
{
    lemma_cell_is_six_dot(c as u8);
    let code: u32 = unicode_cell(c) as u32;
    assert((code & 0xFF) == code - 0x2800) by (bit_vector)
        requires
            0x2800 <= code < 0x2840,
    ;
}

/// A permitted line break stays itself in Unicode Braille and has no dots.
pub proof fn lemma_line_break_cell(c: char)
    requires
        is_line_break(c),
    ensures
        unicode_cell(c) == c,
        dot_byte(c) == 0,
{
}

/// A printable character alone is accepted under either policy and
/// transcodes to exactly one character, a six-dot Braille Pattern.
pub proof fn lemma_single_printable_transcodes(c: char, policy: ControlPolicy)
    requires
        is_printable(c),
    ensures
        all_permitted(seq![c], policy),
        unicode_cells(seq![c]).len() == 1,
        is_six_dot_cell(unicode_cells(seq![c])[0]),
{
    lemma_printable_cell(c);
}

/// Two printable characters get the same cell exactly when they fold to the
/// same byte: the table is one-to-one but for the rows that it repeats.
pub proof fn lemma_cells_distinct_up_to_fold(a: char, b: char)
    requires
        is_printable(a),
        is_printable(b),
    ensures
        unicode_cell(a) == unicode_cell(b) <==> fold_rows(a as u8) == fold_rows(b as u8),
        dot_byte(a) == dot_byte(b) <==> fold_rows(a as u8) == fold_rows(b as u8),
{
    lemma_cells_equal_iff_folded_equal(a as u8, b as u8);
    lemma_printable_cell(a);
    lemma_printable_cell(b);
}

/// In the Unicode Braille of accepted text every printable character has
/// become a six-dot cell and every other character is unchanged.
pub proof fn lemma_unicode_cells_in_block(text: Seq<char>, policy: ControlPolicy)
    requires
        all_permitted(text, policy),
    ensures
        is_seven_bit(text),
        unicode_cells(text).len() == text.len(),
        forall|i: int|
            0 <= i < text.len() ==> if is_printable(text[i]) {
                is_six_dot_cell(#[trigger] unicode_cells(text)[i])
            } else {
                unicode_cells(text)[i] == text[i]
            },
{
    assert forall|i: int| 0 <= i < text.len() implies if is_printable(text[i]) {
        is_six_dot_cell(#[trigger] unicode_cells(text)[i])
    } else {
        unicode_cells(text)[i] == text[i]
    } by {
        assert(is_permitted(text[i], policy));
        if is_printable(text[i]) {
            lemma_printable_cell(text[i]);
        }
    }
    assert forall|i: int| 0 <= i < text.len() implies (#[trigger] text[i] as u32) < 0x80 by {
        assert(is_permitted(text[i], policy));
    }
}

/// The dot-pattern bytes of accepted text are what comes of decomposing its
/// Unicode Braille: at a printable character the cell's code point less
/// `0x2800`, at a line break zero.
pub proof fn lemma_dot_bytes_decompose_unicode(text: Seq<char>, policy: ControlPolicy)
    requires
        all_permitted(text, policy),
    ensures
        dot_bytes(text) == dots_of_cells(unicode_cells(text)),
        dot_bytes(text).len() == text.len(),
        forall|i: int| 0 <= i < text.len() ==> #[trigger] dot_bytes(text)[i] < 64,
        forall|i: int|
            0 <= i < text.len() ==> #[trigger] dot_bytes(text)[i] == if is_printable(text[i]) {
                (unicode_cells(text)[i] as u32) - 0x2800
            } else {
                0
            },
{
    assert(dot_bytes(text) =~= dots_of_cells(unicode_cells(text)));
    assert forall|i: int| 0 <= i < text.len() implies #[trigger] dot_bytes(text)[i] == if is_printable(
        text[i],
    ) {
        (unicode_cells(text)[i] as u32) - 0x2800
    } else {
        0
    } by {
        assert(is_permitted(text[i], policy));
        if is_printable(text[i]) {
            lemma_printable_cell(text[i]);
        }
    }
}

} // verus!
