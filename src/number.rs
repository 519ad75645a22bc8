//! Rendering a string of digits and colons as rows of block glyphs.
use vstd::prelude::*;
use vstd::string::StrSliceExecFns;
use vstd::string::StringExecFns;
use ratatui::style::Color;
use crate::table::{glyph_row, variant_of, NumberVariant, PointsToString, GLYPH_COLS};
use crate::text::{pop_char, push_char};

verus! {

#[verifier::external_type_specification]
#[verifier::external_body]
pub struct ExColor(Color);

/// Whether `c` has the Unicode `Alphabetic` property.
pub uninterp spec fn alphabetic(c: char) -> bool;

/// Whether `c` is a letter: among ASCII characters exactly `a` to `z` and
/// `A` to `Z`; beyond ASCII, the Unicode `Alphabetic` property.
pub open spec fn alphabetic_char(c: char) -> bool {
    if (c as u32) < 128 {
        ('a' <= c && c <= 'z') || ('A' <= c && c <= 'Z')
    } else {
        alphabetic(c)
    }
}

/// Relies on `char::is_alphabetic`, which tells letters (including the
/// letters of an AM/PM marker) from digits and punctuation; among ASCII
/// characters only `a` to `z` and `A` to `Z` are alphabetic.
#[verifier::external_body]
fn is_alphabetic(c: char) -> (r: bool)
    ensures
        r == alphabetic_char(c),
        (c as u32) >= 128 ==> r == alphabetic(c),
{
    c.is_alphabetic()
}

/// `s` with its alphabetic characters removed, the others kept in order.
pub open spec fn strip_alphabetic(s: Seq<char>) -> Seq<char>
    decreases s.len(),
{
    if s.len() == 0 {
        seq![]
    } else if alphabetic_char(s.last()) {
        strip_alphabetic(s.drop_last())
    } else {
        strip_alphabetic(s.drop_last()).push(s.last())
    }
}

/// Appends the row of one character to the row built so far. A character
/// without a glyph adds nothing. A colon first takes back the separator cell
/// that the symbol before it left, if there is any cell to take; every other
/// glyph is followed by one separator cell.
pub open spec fn render_step(acc: Seq<char>, c: char, line: int) -> Seq<char> {
    match variant_of(c) {
        None => acc,
        Some(NumberVariant::Colon) => (if acc.len() > 0 {
            acc.drop_last()
        } else {
            acc
        }) + glyph_row(NumberVariant::Colon, line),
        Some(v) => acc + glyph_row(v, line).push(' '),
    }
}

/// Row `line` of the glyph block for `s`, built left to right.
pub open spec fn render_row(s: Seq<char>, line: int) -> Seq<char>
    decreases s.len(),
{
    if s.len() == 0 {
        seq![]
    } else {
        render_step(render_row(s.drop_last(), line), s.last(), line)
    }
}

/// Printable width of the block for `s`: six cells and one separator per
/// character.
pub open spec fn block_width(s: Seq<char>) -> int {
    s.len() * GLYPH_COLS + s.len()
}

/// A string of digits and colons to be drawn in block glyphs.
pub struct BigNumber<'a> {
    num: String,
    color: &'a Color,
}

impl<'a> BigNumber<'a> {
    /// The color the glyphs are drawn in.
    pub closed spec fn color_spec(&self) -> Color {
        *self.color
    }

    /// The characters that are drawn: the given text without its letters.
    pub closed spec fn digits(&self) -> Seq<char> {
        self.num@
    }

    /// Keeps `num` without its alphabetic characters, to be drawn in `color`.
    pub fn new(num: &str, color: &'a Color) -> (r: BigNumber<'a>)
        ensures
            r.digits() == strip_alphabetic(num@),
            r.color_spec() == *color,
    {
        let mut kept = String::new();
        let n = num.unicode_len();
        let mut i: usize = 0;
        while i < n
            invariant
                n == num@.len(),
                i <= n,
                kept@ == strip_alphabetic(num@.take(i as int)),
            decreases n - i,
        {
            let c = num.get_char(i);
            if !is_alphabetic(c) {
                push_char(&mut kept, c);
            }
            assert(num@.take(i as int + 1).drop_last() =~= num@.take(i as int));
            i = i + 1;
        }
        assert(num@.take(n as int) =~= num@);
        BigNumber { num: kept, color }
    }

    /// The color the glyphs are drawn in.
    pub fn color(&self) -> (r: &'a Color)
        ensures
            *r == self.color_spec(),
    {
        self.color
    }

    /// The printable width of the block in cells: `len * 6 + len` for a
    /// text of `len` characters.
    pub fn width(&self) -> (r: usize)
        requires
            block_width(self.digits()) <= usize::MAX,
        ensures
            r == block_width(self.digits()),
    {
        let len = self.num.as_str().unicode_len();
        len * 6 + len
    }

    /// Row `line` of the block, for rows `0..5`; on any other row every glyph
    /// is blank.
    pub fn draw_line(&self, line: u8) -> (r: String)
        ensures
            r@ == render_row(self.digits(), line as int),
    {
        let s = self.num.as_str();
        let n = s.unicode_len();
        let mut buffer = String::new();
        let mut i: usize = 0;
        while i < n
            invariant
                s@ == self.digits(),
                n == s@.len(),
                i <= n,
                buffer@ == render_row(s@.take(i as int), line as int),
            decreases n - i,
        {
            let c = s.get_char(i);
            assert(s@.take(i as int + 1).drop_last() =~= s@.take(i as int));
            if let Some(num) = NumberVariant::from_char(c) {
                let is_colon = num == NumberVariant::Colon;
                if is_colon {
                    pop_char(&mut buffer);
                }
                let points = num.get_points(line as usize);
                let row = String::from_points(points);
                buffer.append(row.as_str());
                if !is_colon {
                    push_char(&mut buffer, ' ');
                }
            }
            i = i + 1;
        }
        assert(s@.take(n as int) =~= s@);
        buffer
    }
}

/// A character without a glyph contributes no cell and no separator to any
/// row, wherever it stands in the text.
pub proof fn lemma_unknown_char_draws_nothing(a: Seq<char>, c: char, b: Seq<char>, line: int)
    requires
        variant_of(c) is None,
    ensures
        render_row(a + seq![c] + b, line) == render_row(a + b, line),
    decreases b.len(),
{
    if b.len() == 0 {
        assert((a + seq![c] + b).drop_last() =~= a);
        assert(a + b =~= a);
    } else {
        lemma_unknown_char_draws_nothing(a, c, b.drop_last(), line);
        assert((a + seq![c] + b).drop_last() =~= a + seq![c] + b.drop_last());
        assert((a + b).drop_last() =~= a + b.drop_last());
    }
}

/// A colon that follows a digit takes back the separator cell after that
/// digit: the row is the digit's six cells directly followed by the colon's.
pub proof fn lemma_colon_takes_separator(p: Seq<char>, d: char, line: int)
    requires
        variant_of(d) is Some,
        variant_of(d) != Some(NumberVariant::Colon),
    ensures
        render_row(p.push(d).push(':'), line) == render_row(p, line) + glyph_row(
            variant_of(d).unwrap(),
            line,
        ) + glyph_row(NumberVariant::Colon, line),
{
    let before = render_row(p, line);
    let v = variant_of(d).unwrap();
    assert(p.push(d).push(':').drop_last() =~= p.push(d));
    assert(p.push(d).drop_last() =~= p);
    assert(render_row(p.push(d), line) == before + glyph_row(v, line).push(' '));
    assert((before + glyph_row(v, line).push(' ')).drop_last() =~= before + glyph_row(v, line));
}

/// A colon with nothing drawn before it has no separator to take back: its
/// row is the colon's own six cells.
pub proof fn lemma_leading_colon(line: int)
    ensures
        render_row(seq![':'], line) == glyph_row(NumberVariant::Colon, line),
{
    assert(seq![':'].drop_last() =~= Seq::<char>::empty());
    assert(seq![':'].last() == ':');
    assert(render_row(Seq::<char>::empty(), line) == Seq::<char>::empty());
    assert(Seq::<char>::empty() + glyph_row(NumberVariant::Colon, line) =~= glyph_row(
        NumberVariant::Colon,
        line,
    ));
}

/// Whether every character of `s` has a glyph.
pub open spec fn all_glyphs(s: Seq<char>) -> bool {
    forall|i: int| 0 <= i < s.len() ==> variant_of(#[trigger] s[i]) is Some
}

/// A text of digits and colons loses nothing when its letters are stripped,
/// so its block is seven cells wide per character.
pub proof fn lemma_glyph_text_kept(s: Seq<char>)
    requires
        all_glyphs(s),
    ensures
        strip_alphabetic(s) == s,
        block_width(strip_alphabetic(s)) == 7 * s.len(),
    decreases s.len(),
{
    if s.len() > 0 {
        let init = s.drop_last();
        assert forall|i: int| 0 <= i < init.len() implies variant_of(#[trigger] init[i]) is Some by {
            assert(init[i] == s[i]);
        }
        lemma_glyph_text_kept(init);
        assert(variant_of(s[s.len() - 1]) is Some);
        assert(init.push(s.last()) =~= s);
    }
}

/// Whether, in `s`, every colon comes after some digit.
pub open spec fn digit_before_each_colon(s: Seq<char>) -> bool {
    forall|i: int|
        0 <= i < s.len() && variant_of(#[trigger] s[i]) == Some(NumberVariant::Colon) ==> exists|
            j: int,
        |
            0 <= j < i && variant_of(#[trigger] s[j]) is Some && variant_of(s[j]) != Some(
                NumberVariant::Colon,
            )
}

/// A text that starts with a colon draws the colon's six cells in full at
/// the start of every row: there is no separator before it to take back,
/// and a later colon takes back a cell only after a digit.
pub proof fn lemma_leading_colon_kept(s: Seq<char>, line: int)
    requires
        digit_before_each_colon(s),
    ensures
        render_row(seq![':'] + s, line).len() >= GLYPH_COLS,
        render_row(seq![':'] + s, line).subrange(0, GLYPH_COLS as int) == glyph_row(
            NumberVariant::Colon,
            line,
        ),
        render_row(seq![':'] + s, line).len() == GLYPH_COLS ==> forall|j: int|
            0 <= j < s.len() ==> variant_of(#[trigger] s[j]) is None,
    decreases s.len(),
{
    let colon = glyph_row(NumberVariant::Colon, line);
    if s.len() == 0 {
        lemma_leading_colon(line);
        assert(seq![':'] + s =~= seq![':']);
        assert(colon.subrange(0, GLYPH_COLS as int) =~= colon);
    } else {
        let init = s.drop_last();
        let c = s.last();
        assert forall|i: int|
            0 <= i < init.len() && variant_of(#[trigger] init[i]) == Some(
                NumberVariant::Colon,
            ) implies exists|j: int|
            0 <= j < i && variant_of(#[trigger] init[j]) is Some && variant_of(init[j]) != Some(
                NumberVariant::Colon,
            ) by {
            assert(s[i] == init[i]);
            let j = choose|j: int|
                0 <= j < i && variant_of(#[trigger] s[j]) is Some && variant_of(s[j]) != Some(
                    NumberVariant::Colon,
                );
            assert(init[j] == s[j]);
        }
        lemma_leading_colon_kept(init, line);
        let whole = seq![':'] + s;
        assert(whole.drop_last() =~= seq![':'] + init);
        assert(whole.last() == c);
        let before = render_row(seq![':'] + init, line);
        let after = render_row(whole, line);
        assert(after == render_step(before, c, line));
        match variant_of(c) {
            None => {
                assert forall|j: int| 0 <= j < s.len() && after.len() == GLYPH_COLS implies variant_of(
                    #[trigger] s[j],
                ) is None by {
                    if j < init.len() {
                        assert(s[j] == init[j]);
                    }
                }
            },
            Some(NumberVariant::Colon) => {
                assert(variant_of(s[s.len() - 1]) == Some(NumberVariant::Colon));
                let j = choose|j: int|
                    0 <= j < s.len() - 1 && variant_of(#[trigger] s[j]) is Some && variant_of(s[j])
                        != Some(NumberVariant::Colon);
                assert(init[j] == s[j]);
                assert(before.len() > GLYPH_COLS);
                assert(after =~= before.drop_last() + colon);
                assert(after.subrange(0, GLYPH_COLS as int) =~= before.subrange(
                    0,
                    GLYPH_COLS as int,
                ));
            },
            Some(v) => {
                assert(after =~= before + glyph_row(v, line).push(' '));
                assert(after.subrange(0, GLYPH_COLS as int) =~= before.subrange(
                    0,
                    GLYPH_COLS as int,
                ));
            },
        }
    }
}

} // verus!
