//! The Swiss-style palette and the small decisions of the drawing code:
//! line tones of diffs, the token gauge and output previews.
use vstd::prelude::*;
use crate::text::{self, chars_of, string_of};

verus! {

/// A color of the palette.
#[derive(Debug, Clone, Copy, PartialEq, Eq)]
pub enum ThemeColor {
    Rgb(u8, u8, u8),
    White,
    Black,
}

/// A text style: foreground, background and boldness.
#[derive(Debug, Clone, Copy, PartialEq, Eq)]
pub struct StyleSpec {
    pub fg: Option<ThemeColor>,
    pub bg: Option<ThemeColor>,
    pub bold: bool,
}

/// The Swiss International Typographic palette.
pub struct SwissTheme;

impl SwissTheme {
    pub fn bg_base() -> (c: ThemeColor)
        ensures
            c == ThemeColor::Rgb(13, 14, 18),
    {
        ThemeColor::Rgb(13, 14, 18)
    }

    pub fn bg_panel() -> (c: ThemeColor)
        ensures
            c == ThemeColor::Rgb(17, 19, 24),
    {
        ThemeColor::Rgb(17, 19, 24)
    }

    pub fn bg_subtle() -> (c: ThemeColor)
        ensures
            c == ThemeColor::Rgb(22, 24, 33),
    {
        ThemeColor::Rgb(22, 24, 33)
    }

    pub fn border_line() -> (c: ThemeColor)
        ensures
            c == ThemeColor::Rgb(43, 47, 56),
    {
        ThemeColor::Rgb(43, 47, 56)
    }

    /// The focused border is Swiss red.
    pub fn border_focused() -> (c: ThemeColor)
        ensures
            c == ThemeColor::Rgb(235, 0, 41),
    {
        ThemeColor::Rgb(235, 0, 41)
    }

    pub fn swiss_red() -> (c: ThemeColor)
        ensures
            c == ThemeColor::Rgb(235, 0, 41),
    {
        ThemeColor::Rgb(235, 0, 41)
    }

    pub fn stark_white() -> (c: ThemeColor)
        ensures
            c == ThemeColor::Rgb(245, 247, 250),
    {
        ThemeColor::Rgb(245, 247, 250)
    }

    pub fn muted_text() -> (c: ThemeColor)
        ensures
            c == ThemeColor::Rgb(120, 125, 138),
    {
        ThemeColor::Rgb(120, 125, 138)
    }

    pub fn subtle_text() -> (c: ThemeColor)
        ensures
            c == ThemeColor::Rgb(80, 84, 96),
    {
        ThemeColor::Rgb(80, 84, 96)
    }

    pub fn emerald() -> (c: ThemeColor)
        ensures
            c == ThemeColor::Rgb(52, 211, 153),
    {
        ThemeColor::Rgb(52, 211, 153)
    }

    pub fn amber() -> (c: ThemeColor)
        ensures
            c == ThemeColor::Rgb(251, 191, 36),
    {
        ThemeColor::Rgb(251, 191, 36)
    }

    /// Bold stark white.
    pub fn title() -> (s: StyleSpec)
        ensures
            s == (StyleSpec { fg: Some(ThemeColor::Rgb(245, 247, 250)), bg: None, bold: true }),
    {
        StyleSpec { fg: Some(Self::stark_white()), bg: None, bold: true }
    }

    /// Bold white on Swiss red.
    pub fn badge_red() -> (s: StyleSpec)
        ensures
            s == (StyleSpec { fg: Some(ThemeColor::White), bg: Some(ThemeColor::Rgb(235, 0, 41)), bold: true }),
    {
        StyleSpec { fg: Some(ThemeColor::White), bg: Some(Self::swiss_red()), bold: true }
    }

    /// Bold black on stark white.
    pub fn badge_white() -> (s: StyleSpec)
        ensures
            s == (StyleSpec { fg: Some(ThemeColor::Black), bg: Some(ThemeColor::Rgb(245, 247, 250)), bold: true }),
    {
        StyleSpec { fg: Some(ThemeColor::Black), bg: Some(Self::stark_white()), bold: true }
    }

    /// Bold muted text.
    pub fn header_label() -> (s: StyleSpec)
        ensures
            s == (StyleSpec { fg: Some(ThemeColor::Rgb(120, 125, 138)), bg: None, bold: true }),
    {
        StyleSpec { fg: Some(Self::muted_text()), bg: None, bold: true }
    }

    /// Emerald on dark green.
    pub fn code_diff_add() -> (s: StyleSpec)
        ensures
            s == (StyleSpec { fg: Some(ThemeColor::Rgb(52, 211, 153)), bg: Some(ThemeColor::Rgb(9, 26, 19)), bold: false }),
    {
        StyleSpec { fg: Some(Self::emerald()), bg: Some(ThemeColor::Rgb(9, 26, 19)), bold: false }
    }

    /// Rose on dark red.
    pub fn code_diff_remove() -> (s: StyleSpec)
        ensures
            s == (StyleSpec { fg: Some(ThemeColor::Rgb(253, 164, 175)), bg: Some(ThemeColor::Rgb(31, 9, 13)), bold: false }),
    {
        StyleSpec { fg: Some(ThemeColor::Rgb(253, 164, 175)), bg: Some(ThemeColor::Rgb(31, 9, 13)), bold: false }
    }
}

// ---------------------------------------------------------------------------
// Line tones
// ---------------------------------------------------------------------------

/// How a line of tool or system output is colored.
#[derive(Debug, Clone, Copy, PartialEq, Eq)]
pub enum LineTone {
    /// `+` but not `+++`.
    Added,
    /// `-` but not `---`.
    Removed,
    /// A hunk header `@@` (tool output).
    Hunk,
    /// A `===` heading (system messages).
    Heading,
    /// Anything else.
    Plain,
}

/// The tone of a line of tool output.
pub open spec fn result_tone_spec(l: Seq<char>) -> LineTone {
    if text::starts_with(l, "+"@) && !text::starts_with(l, "+++"@) {
        LineTone::Added
    } else if text::starts_with(l, "-"@) && !text::starts_with(l, "---"@) {
        LineTone::Removed
    } else if text::starts_with(l, "@@"@) {
        LineTone::Hunk
    } else {
        LineTone::Plain
    }
}

/// The tone of a line of a system message.
pub open spec fn system_tone_spec(l: Seq<char>) -> LineTone {
    if text::starts_with(l, "+"@) && !text::starts_with(l, "+++"@) {
        LineTone::Added
    } else if text::starts_with(l, "-"@) && !text::starts_with(l, "---"@) {
        LineTone::Removed
    } else if text::starts_with(l, "==="@) {
        LineTone::Heading
    } else {
        LineTone::Plain
    }
}

fn starts(l: &[char], p: &str) -> (b: bool)
    ensures
        b == text::starts_with(l@, p@),
{
    let pv = chars_of(p);
    text::starts_with_chars(l, pv.as_slice())
}

/// Colors a line of tool output.
pub fn result_line_tone(line: &str) -> (t: LineTone)
    ensures
        t == result_tone_spec(line@),
{
    let l = chars_of(line);
    if starts(l.as_slice(), "+") && !starts(l.as_slice(), "+++") {
        LineTone::Added
    } else if starts(l.as_slice(), "-") && !starts(l.as_slice(), "---") {
        LineTone::Removed
    } else if starts(l.as_slice(), "@@") {
        LineTone::Hunk
    } else {
        LineTone::Plain
    }
}

/// Colors a line of a system message.
pub fn system_line_tone(line: &str) -> (t: LineTone)
    ensures
        t == system_tone_spec(line@),
{
    let l = chars_of(line);
    if starts(l.as_slice(), "+") && !starts(l.as_slice(), "+++") {
        LineTone::Added
    } else if starts(l.as_slice(), "-") && !starts(l.as_slice(), "---") {
        LineTone::Removed
    } else if starts(l.as_slice(), "===") {
        LineTone::Heading
    } else {
        LineTone::Plain
    }
}

// ---------------------------------------------------------------------------
// Gauge and previews
// ---------------------------------------------------------------------------

/// Filled cells of the token gauge: one per thousand tokens, at most 20.
pub open spec fn gauge_filled(tokens: nat) -> nat {
    if tokens / 1000 < 20 { tokens / 1000 } else { 20 }
}

/// The token gauge of the sidebar: 20 cells, filled from the left.
pub open spec fn token_bar_spec(tokens: nat) -> Seq<char> {
    Seq::new(gauge_filled(tokens), |i: int| '■') + Seq::new((20 - gauge_filled(tokens)) as nat, |i: int| '□')
}

/// Draws the token gauge.
pub fn token_bar(tokens: usize) -> (s: String)
    ensures
        s@ == token_bar_spec(tokens as nat),
{
    let filled: usize = if tokens / 1000 < 20 { tokens / 1000 } else { 20 };
    let mut v: Vec<char> = Vec::new();
    let mut i: usize = 0;
    while i < 20
        invariant
            i <= 20,
            filled <= 20,
            filled == gauge_filled(tokens as nat),
            v@ == token_bar_spec(tokens as nat).take(i as int),
        decreases 20 - i,
    {
        if i < filled {
            v.push('■');
        } else {
            v.push('□');
        }
        i = i + 1;
        assert(v@ =~= token_bar_spec(tokens as nat).take(i as int));
    }
    assert(token_bar_spec(tokens as nat).take(20) =~= token_bar_spec(tokens as nat));
    string_of(v.as_slice())
}

/// The first `n` lines of a text and whether it has more.
pub fn preview_lines(output: &str, n: usize) -> (r: (Vec<String>, bool))
    ensures
        r.0@.map_values(|l: String| l@) == text::lines(output@).take(
            if text::lines(output@).len() < n { text::lines(output@).len() as int } else { n as int },
        ),
        r.1 == (text::lines(output@).len() > n),
{
    let v = chars_of(output);
    let ls = text::split_lines(v.as_slice());
    let ghost lsv = text::lines(output@);
    let k: usize = if ls.len() < n { ls.len() } else { n };
    let mut out: Vec<String> = Vec::new();
    let mut i: usize = 0;
    while i < k
        invariant
            i <= k <= ls@.len(),
            ls@.len() == lsv.len(),
            forall|j: int| 0 <= j < ls@.len() ==> (#[trigger] ls@[j])@ == lsv[j],
            out@.len() == i,
            forall|j: int| 0 <= j < i ==> (#[trigger] out@[j])@ == lsv[j],
        decreases k - i,
    {
        out.push(string_of(ls[i].as_slice()));
        i = i + 1;
    }
    assert(out@.map_values(|l: String| l@) =~= lsv.take(k as int));
    (out, ls.len() > n)
}

/// The gauge always has 20 cells, one filled per thousand tokens up to
/// all of them.
pub proof fn lemma_token_bar_cells(tokens: nat)
    ensures
        token_bar_spec(tokens).len() == 20,
        forall|i: int| 0 <= i < 20 ==> (#[trigger] token_bar_spec(tokens)[i] == '■') == (i < tokens / 1000),
{
    assert forall|i: int| 0 <= i < 20 implies (#[trigger] token_bar_spec(tokens)[i] == '■') == (i < tokens / 1000) by {
        if i < gauge_filled(tokens) {
        } else {
            assert(token_bar_spec(tokens)[i] == '□');
        }
    }
}

} // verus!
