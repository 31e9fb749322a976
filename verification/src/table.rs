//! The North American Braille ASCII code as a table from bytes to Unicode
//! Braille Patterns, with the facts about the table that the codec relies on.

use vstd::prelude::*;

verus! {

/// First code point of the Unicode Braille Patterns block.
pub const BRAILLE_BLOCK_START: u32 = 0x2800;

/// Number of six-dot patterns; they open the Braille Patterns block.
pub const SIX_DOT_PATTERNS: u32 = 64;

/// The Braille cell assigned to the byte `code`, for `0x20 <= code <= 0x7F`.
///
/// The rows `0x60..=0x7F` repeat the rows `0x40..=0x5F`: Braille ASCII does not
/// tell letter case apart. The entries are those of the table in the crate
/// `braille_ascii`, in its order; the codec's call into that crate is trusted
/// to follow them.
pub open spec fn ascii_cell(code: u8) -> char
    recommends
        0x20 <= code <= 0x7F,
{
    match code {
        0x20 => '⠀',  // U+2800
        0x21 => '⠮',  // U+282E
        0x22 => '⠐',  // U+2810
        0x23 => '⠼',  // U+283C
        0x24 => '⠫',  // U+282B
        0x25 => '⠩',  // U+2829
        0x26 => '⠯',  // U+282F
        0x27 => '⠄',  // U+2804
        0x28 => '⠷',  // U+2837
        0x29 => '⠾',  // U+283E
        0x2A => '⠡',  // U+2821
        0x2B => '⠬',  // U+282C
        0x2C => '⠠',  // U+2820
        0x2D => '⠤',  // U+2824
        0x2E => '⠨',  // U+2828
        0x2F => '⠌',  // U+280C
        0x30 => '⠴',  // U+2834
        0x31 => '⠂',  // U+2802
        0x32 => '⠆',  // U+2806
        0x33 => '⠒',  // U+2812
        0x34 => '⠲',  // U+2832
        0x35 => '⠢',  // U+2822
        0x36 => '⠖',  // U+2816
        0x37 => '⠶',  // U+2836
        0x38 => '⠦',  // U+2826
        0x39 => '⠔',  // U+2814
        0x3A => '⠱',  // U+2831
        0x3B => '⠰',  // U+2830
        0x3C => '⠣',  // U+2823
        0x3D => '⠿',  // U+283F
        0x3E => '⠜',  // U+281C
        0x3F => '⠹',  // U+2839
        0x40 => '⠈',  // U+2808
        0x41 => '⠁',  // U+2801
        0x42 => '⠃',  // U+2803
        0x43 => '⠉',  // U+2809
        0x44 => '⠙',  // U+2819
        0x45 => '⠑',  // U+2811
        0x46 => '⠋',  // U+280B
        0x47 => '⠛',  // U+281B
        0x48 => '⠓',  // U+2813
        0x49 => '⠊',  // U+280A
        0x4A => '⠚',  // U+281A
        0x4B => '⠅',  // U+2805
        0x4C => '⠇',  // U+2807
        0x4D => '⠍',  // U+280D
        0x4E => '⠝',  // U+281D
        0x4F => '⠕',  // U+2815
        0x50 => '⠏',  // U+280F
        0x51 => '⠟',  // U+281F
        0x52 => '⠗',  // U+2817
        0x53 => '⠎',  // U+280E
        0x54 => '⠞',  // U+281E
        0x55 => '⠥',  // U+2825
        0x56 => '⠧',  // U+2827
        0x57 => '⠺',  // U+283A
        0x58 => '⠭',  // U+282D
        0x59 => '⠽',  // U+283D
        0x5A => '⠵',  // U+2835
        0x5B => '⠪',  // U+282A
        0x5C => '⠳',  // U+2833
        0x5D => '⠻',  // U+283B
        0x5E => '⠘',  // U+2818
        0x5F => '⠸',  // U+2838
        0x60 => '⠈',  // U+2808
        0x61 => '⠁',  // U+2801
        0x62 => '⠃',  // U+2803
        0x63 => '⠉',  // U+2809
        0x64 => '⠙',  // U+2819
        0x65 => '⠑',  // U+2811
        0x66 => '⠋',  // U+280B
        0x67 => '⠛',  // U+281B
        0x68 => '⠓',  // U+2813
        0x69 => '⠊',  // U+280A
        0x6A => '⠚',  // U+281A
        0x6B => '⠅',  // U+2805
        0x6C => '⠇',  // U+2807
        0x6D => '⠍',  // U+280D
        0x6E => '⠝',  // U+281D
        0x6F => '⠕',  // U+2815
        0x70 => '⠏',  // U+280F
        0x71 => '⠟',  // U+281F
        0x72 => '⠗',  // U+2817
        0x73 => '⠎',  // U+280E
        0x74 => '⠞',  // U+281E
        0x75 => '⠥',  // U+2825
        0x76 => '⠧',  // U+2827
        0x77 => '⠺',  // U+283A
        0x78 => '⠭',  // U+282D
        0x79 => '⠽',  // U+283D
        0x7A => '⠵',  // U+2835
        0x7B => '⠪',  // U+282A
        0x7C => '⠳',  // U+2833
        0x7D => '⠻',  // U+283B
        0x7E => '⠘',  // U+2818
        0x7F => '⠸',  // U+2838
        _ => '\u{2800}',
    }
}

/// True if `cell` is one of the 64 six-dot Braille Patterns.
pub open spec fn is_six_dot_cell(cell: char) -> bool {
    BRAILLE_BLOCK_START <= (cell as u32) < BRAILLE_BLOCK_START + SIX_DOT_PATTERNS
}

/// The byte that shares its cell with `code` and lies below `0x60`.
pub open spec fn fold_rows(code: u8) -> u8 {
    if 0x60 <= code <= 0x7F {
        (code - 0x20) as u8
    } else {
        code
    }
}

/// Every entry of the table is a six-dot Braille Pattern.
pub proof fn lemma_cell_is_six_dot(code: u8)
    requires
        0x20 <= code <= 0x7F,
    ensures
        is_six_dot_cell(ascii_cell(code)),
{
}

/// The two upper rows of the table repeat the two before them.
pub proof fn lemma_upper_rows_repeat(code: u8)
    requires
        0x20 <= code <= 0x7F,
    ensures
        ascii_cell(code) == ascii_cell(fold_rows(code)),
{
}

/// On the bytes `0x20..=0x5F` the table is one-to-one.
pub proof fn lemma_cell_injective_below_fold(a: u8, b: u8)
    requires
        0x20 <= a <= 0x5F,
        0x20 <= b <= 0x5F,
        ascii_cell(a) == ascii_cell(b),
    ensures
        a == b,
{
}

/// Two bytes of the table share a cell exactly when they fold to the same
/// byte: distinct bytes collide only as `0x40 + k` and `0x60 + k`.
pub proof fn lemma_cells_equal_iff_folded_equal(a: u8, b: u8)
    requires
        0x20 <= a <= 0x7F,
        0x20 <= b <= 0x7F,
    ensures
        ascii_cell(a) == ascii_cell(b) <==> fold_rows(a) == fold_rows(b),
{
    lemma_upper_rows_repeat(a);
    lemma_upper_rows_repeat(b);
    if ascii_cell(a) == ascii_cell(b) {
        lemma_cell_injective_below_fold(fold_rows(a), fold_rows(b));
    }
}

} // verus!
