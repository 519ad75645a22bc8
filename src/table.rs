//! The glyph table: a 5-row by 6-column bitmap for each digit and the colon.
use vstd::prelude::*;
use crate::text::{push_char, push_spaces, spaces};

verus! {

/// Number of rows in every glyph.
pub const GLYPH_ROWS: usize = 5;

/// Number of cells in one glyph row.
pub const GLYPH_COLS: usize = 6;

/// The character that fills an "on" cell.
pub const FILLED: char = '█';

/// One "on" column of a glyph row.
#[derive(Clone, Copy, Debug, PartialEq, Eq, Structural)]
pub struct Point(pub u16);

/// The shapes a glyph row can take.
#[derive(Clone, Copy, Debug, PartialEq, Eq, Structural)]
pub enum Stroke {
    /// `xxxxxx`
    Full,
    /// `xx    `
    Left,
    /// `    xx`
    Right,
    /// `xx  xx`
    Sides,
    /// `  xx  `
    Middle,
    /// `      `
    Blank,
}

/// The symbols that have a glyph.
#[derive(Clone, Copy, Debug, PartialEq, Eq, Structural)]
pub enum NumberVariant {
    Zero,
    One,
    Two,
    Three,
    Four,
    Five,
    Six,
    Seven,
    Eight,
    Nine,
    Colon,
}

/// The "on" columns of each stroke, in increasing order.
pub open spec fn stroke_points(s: Stroke) -> Seq<Point> {
    match s {
        Stroke::Full => seq![Point(0), Point(1), Point(2), Point(3), Point(4), Point(5)],
        Stroke::Left => seq![Point(0), Point(1)],
        Stroke::Right => seq![Point(4), Point(5)],
        Stroke::Sides => seq![Point(0), Point(1), Point(4), Point(5)],
        Stroke::Middle => seq![Point(2), Point(3)],
        Stroke::Blank => seq![],
    }
}

/// The bitmaps, row by row (`line` 0 is the top row):
///
/// ```text
///  0       1       2       3       4       5       6       7       8       9       :
/// xxxxxx      xx  xxxxxx  xxxxxx  xx  xx  xxxxxx  xxxxxx  xxxxxx  xxxxxx  xxxxxx
/// xx  xx      xx      xx      xx  xx  xx  xx      xx          xx  xx  xx  xx  xx    xx
/// xx  xx      xx  xxxxxx  xxxxxx  xxxxxx  xxxxxx  xxxxxx      xx  xxxxxx  xxxxxx
/// xx  xx      xx  xx          xx      xx      xx  xx  xx      xx  xx  xx      xx    xx
/// xxxxxx      xx  xxxxxx  xxxxxx      xx  xxxxxx  xxxxxx      xx  xxxxxx  xxxxxx
/// ```
pub open spec fn glyph_stroke(v: NumberVariant, line: int) -> Stroke {
    match v {
        NumberVariant::Zero => if line == 0 || line == 4 { Stroke::Full } else { Stroke::Sides },
        NumberVariant::One => Stroke::Right,
        NumberVariant::Two => if line == 1 {
            Stroke::Right
        } else if line == 3 {
            Stroke::Left
        } else {
            Stroke::Full
        },
        NumberVariant::Three => if line == 1 || line == 3 { Stroke::Right } else { Stroke::Full },
        NumberVariant::Four => if line <= 1 {
            Stroke::Sides
        } else if line == 2 {
            Stroke::Full
        } else {
            Stroke::Right
        },
        NumberVariant::Five => if line == 1 {
            Stroke::Left
        } else if line == 3 {
            Stroke::Right
        } else {
            Stroke::Full
        },
        NumberVariant::Six => if line == 1 {
            Stroke::Left
        } else if line == 3 {
            Stroke::Sides
        } else {
            Stroke::Full
        },
        NumberVariant::Seven => if line == 0 { Stroke::Full } else { Stroke::Right },
        NumberVariant::Eight => if line == 1 || line == 3 { Stroke::Sides } else { Stroke::Full },
        NumberVariant::Nine => if line == 1 {
            Stroke::Sides
        } else if line == 3 {
            Stroke::Right
        } else {
            Stroke::Full
        },
        NumberVariant::Colon => if line == 1 || line == 3 { Stroke::Middle } else { Stroke::Blank },
    }
}

/// The "on" columns of row `line` of a glyph; rows outside `0..5` are empty.
pub open spec fn glyph_points(v: NumberVariant, line: int) -> Seq<Point> {
    if 0 <= line < GLYPH_ROWS {
        stroke_points(glyph_stroke(v, line))
    } else {
        seq![]
    }
}

/// The symbol that a character stands for, if it has a glyph.
pub open spec fn variant_of(c: char) -> Option<NumberVariant> {
    if c == '0' {
        Some(NumberVariant::Zero)
    } else if c == '1' {
        Some(NumberVariant::One)
    } else if c == '2' {
        Some(NumberVariant::Two)
    } else if c == '3' {
        Some(NumberVariant::Three)
    } else if c == '4' {
        Some(NumberVariant::Four)
    } else if c == '5' {
        Some(NumberVariant::Five)
    } else if c == '6' {
        Some(NumberVariant::Six)
    } else if c == '7' {
        Some(NumberVariant::Seven)
    } else if c == '8' {
        Some(NumberVariant::Eight)
    } else if c == '9' {
        Some(NumberVariant::Nine)
    } else if c == ':' {
        Some(NumberVariant::Colon)
    } else {
        None
    }
}

/// Whether column `col` is among the points.
pub open spec fn is_lit(points: Seq<Point>, col: int) -> bool {
    exists|j: int| 0 <= j < points.len() && points[j].0 == col
}

/// Points that can be drawn in one row: strictly increasing and inside the row.
pub open spec fn points_well_formed(points: Seq<Point>) -> bool {
    &&& forall|j: int| 0 <= j < points.len() ==> points[j].0 < GLYPH_COLS
    &&& forall|j: int, k: int| 0 <= j < k < points.len() ==> points[j].0 < points[k].0
}

/// The six cells of a row: filled where a point is, blank elsewhere.
pub open spec fn row_cells(points: Seq<Point>) -> Seq<char> {
    Seq::new(GLYPH_COLS as nat, |col: int| if is_lit(points, col) { FILLED } else { ' ' })
}

/// The six cells of row `line` of a glyph.
pub open spec fn glyph_row(v: NumberVariant, line: int) -> Seq<char> {
    row_cells(glyph_points(v, line))
}

/// The points of a full row.
pub fn fill_line() -> (r: Vec<Point>)
    ensures
        r@ == stroke_points(Stroke::Full),
{
    vec![Point(0), Point(1), Point(2), Point(3), Point(4), Point(5)]
}

impl Stroke {
    /// The "on" columns of this stroke.
    pub fn points(&self) -> (r: Vec<Point>)
        ensures
            r@ == stroke_points(*self),
    {
        match self {
            Stroke::Full => fill_line(),
            Stroke::Left => vec![Point(0), Point(1)],
            Stroke::Right => vec![Point(4), Point(5)],
            Stroke::Sides => vec![Point(0), Point(1), Point(4), Point(5)],
            Stroke::Middle => vec![Point(2), Point(3)],
            Stroke::Blank => Vec::new(),
        }
    }
}

impl NumberVariant {
    /// The symbol for `c`, or `None` when `c` has no glyph.
    pub fn from_char(c: char) -> (r: Option<NumberVariant>)
        ensures
            r == variant_of(c),
    {
        match c {
            '0' => Some(NumberVariant::Zero),
            '1' => Some(NumberVariant::One),
            '2' => Some(NumberVariant::Two),
            '3' => Some(NumberVariant::Three),
            '4' => Some(NumberVariant::Four),
            '5' => Some(NumberVariant::Five),
            '6' => Some(NumberVariant::Six),
            '7' => Some(NumberVariant::Seven),
            '8' => Some(NumberVariant::Eight),
            '9' => Some(NumberVariant::Nine),
            ':' => Some(NumberVariant::Colon),
            _ => None,
        }
    }

    /// The stroke of row `line`, for `line` in `0..5`.
    pub fn stroke(&self, line: usize) -> (r: Stroke)
        requires
            line < GLYPH_ROWS,
        ensures
            r == glyph_stroke(*self, line as int),
    {
        match self {
            NumberVariant::Zero => if line == 0 || line == 4 { Stroke::Full } else { Stroke::Sides },
            NumberVariant::One => Stroke::Right,
            NumberVariant::Two => if line == 1 {
                Stroke::Right
            } else if line == 3 {
                Stroke::Left
            } else {
                Stroke::Full
            },
            NumberVariant::Three => if line == 1 || line == 3 { Stroke::Right } else { Stroke::Full },
            NumberVariant::Four => if line <= 1 {
                Stroke::Sides
            } else if line == 2 {
                Stroke::Full
            } else {
                Stroke::Right
            },
            NumberVariant::Five => if line == 1 {
                Stroke::Left
            } else if line == 3 {
                Stroke::Right
            } else {
                Stroke::Full
            },
            NumberVariant::Six => if line == 1 {
                Stroke::Left
            } else if line == 3 {
                Stroke::Sides
            } else {
                Stroke::Full
            },
            NumberVariant::Seven => if line == 0 { Stroke::Full } else { Stroke::Right },
            NumberVariant::Eight => if line == 1 || line == 3 { Stroke::Sides } else { Stroke::Full },
            NumberVariant::Nine => if line == 1 {
                Stroke::Sides
            } else if line == 3 {
                Stroke::Right
            } else {
                Stroke::Full
            },
            NumberVariant::Colon => if line == 1 || line == 3 {
                Stroke::Middle
            } else {
                Stroke::Blank
            },
        }
    }

    /// The "on" columns of row `line`, in increasing order; empty when `line`
    /// is not a row of the glyph.
    pub fn get_points(&self, line: usize) -> (r: Vec<Point>)
        ensures
            r@ == glyph_points(*self, line as int),
            points_well_formed(r@),
    {
        if line < GLYPH_ROWS {
            self.stroke(line).points()
        } else {
            Vec::new()
        }
    }
}

impl TryFrom<char> for NumberVariant {
    type Error = ();

    fn try_from(value: char) -> (r: Result<NumberVariant, ()>) {
        match NumberVariant::from_char(value) {
            Some(v) => Ok(v),
            None => Err(()),
        }
    }
}

impl vstd::std_specs::convert::TryFromSpecImpl<char> for NumberVariant {
    open spec fn obeys_try_from_spec() -> bool {
        true
    }

    open spec fn try_from_spec(v: char) -> Result<NumberVariant, ()> {
        match variant_of(v) {
            Some(n) => Ok(n),
            None => Err(()),
        }
    }
}

/// Turns the "on" columns of a row into its six printable cells.
pub trait PointsToString {
    fn from_points(value: Vec<Point>) -> (r: String)
        requires
            points_well_formed(value@),
        ensures
            r@ == row_cells(value@),
    ;
}

impl PointsToString for String {
    fn from_points(value: Vec<Point>) -> (r: String) {
        let mut buf = String::new();
        if value.len() == 0 {
            push_spaces(&mut buf, GLYPH_COLS);
            assert(buf@ =~= row_cells(value@));
            return buf;
        }
        let ghost ps = value@;
        let mut last_x: u16 = 0;
        let mut i: usize = 0;
        while i < value.len()
            invariant
                ps == value@,
                points_well_formed(ps),
                0 < ps.len(),
                i <= ps.len(),
                i == 0 ==> buf@.len() == 0,
                i > 0 ==> last_x == ps[i - 1].0,
                i > 0 ==> buf@ =~= Seq::new(
                    last_x as nat + 1,
                    |col: int| if is_lit(ps.take(i as int), col) { FILLED } else { ' ' },
                ),
            decreases ps.len() - i,
        {
            let x = value[i].0;
            let ghost before = buf@;
            if i == 0 {
                push_spaces(&mut buf, x as usize);
            } else {
                let fill = x - last_x - 1;
                if fill > 0 {
                    push_spaces(&mut buf, fill as usize);
                }
            }
            push_char(&mut buf, FILLED);
            proof {
                let next = ps.take(i as int + 1);
                assert(next[i as int] == ps[i as int]);
                assert forall|col: int| 0 <= col <= x implies buf@[col] == (if is_lit(next, col) {
                    FILLED
                } else {
                    ' '
                }) by {
                    if col == x {
                        assert(next[i as int].0 == col);
                    } else {
                        if is_lit(next, col) {
                            let j = choose|j: int| 0 <= j < next.len() && next[j].0 == col;
                            assert(j < i);
                            assert(ps[j].0 <= last_x || i == 0) by {
                                if i > 0 && j < i - 1 {
                                    assert(ps[j].0 < ps[i - 1].0);
                                }
                            }
                            assert(ps.take(i as int)[j].0 == col);
                        } else if i > 0 && col <= last_x {
                            if is_lit(ps.take(i as int), col) {
                                let j = choose|j: int|
                                    0 <= j < ps.take(i as int).len() && ps.take(i as int)[j].0
                                        == col;
                                assert(next[j].0 == col);
                            }
                        }
                    }
                }
            }
            last_x = x;
            i = i + 1;
        }
        assert(ps.take(ps.len() as int) =~= ps);
        if last_x < 5 {
            let rest = 5 - last_x;
            let ghost before = buf@;
            push_spaces(&mut buf, rest as usize);
            assert forall|col: int| last_x < col < GLYPH_COLS implies !is_lit(ps, col) by {
                if is_lit(ps, col) {
                    let j = choose|j: int| 0 <= j < ps.len() && ps[j].0 == col;
                    if j < ps.len() - 1 {
                        assert(ps[j].0 < ps[ps.len() - 1].0);
                    }
                }
            }
        }
        assert(buf@ =~= row_cells(ps));
        buf
    }
}

} // verus!
