//! The time shown by the clock, and its time and date text.
use vstd::prelude::*;
use std::sync::{Arc, RwLock};
use chrono::{Datelike, Timelike};
use crate::config::{date_pattern, time_pattern, DisplayConfig};
use crate::shared::read_shared;
use crate::number::{all_glyphs, block_width, lemma_glyph_text_kept, strip_alphabetic};
use crate::table::variant_of;

verus! {

/// Smallest year that a calendar date can have.
pub const MIN_YEAR: i32 = -262143;

/// Largest year that a calendar date can have.
pub const MAX_YEAR: i32 = 262142;

/// A local calendar date and wall-clock time, to the second.
#[derive(Clone, Copy, Debug, PartialEq, Eq, Structural)]
pub struct Moment {
    pub year: i32,
    pub month: u32,
    pub day: u32,
    pub hour: u32,
    pub minute: u32,
    pub second: u32,
}

/// Whether `y` is a leap year of the Gregorian calendar.
pub open spec fn is_leap_year(y: int) -> bool {
    y % 4 == 0 && (y % 100 != 0 || y % 400 == 0)
}

/// Number of days in month `m` (1 to 12) of year `y`.
pub open spec fn days_in_month(y: int, m: int) -> int {
    if m == 2 {
        if is_leap_year(y) { 29 } else { 28 }
    } else if m == 4 || m == 6 || m == 9 || m == 11 {
        30
    } else {
        31
    }
}

impl Moment {
    /// An existing date within the calendar's range, and a time of day.
    pub open spec fn wf(&self) -> bool {
        &&& MIN_YEAR <= self.year <= MAX_YEAR
        &&& 1 <= self.month <= 12
        &&& 1 <= self.day <= days_in_month(self.year as int, self.month as int)
        &&& self.hour < 24
        &&& self.minute < 60
        &&& self.second < 60
    }

    /// The moment with these fields, or `None` when they name no date or
    /// time of day.
    pub fn new(year: i32, month: u32, day: u32, hour: u32, minute: u32, second: u32) -> (r: Option<
        Moment,
    >)
        ensures
            r matches Some(m) ==> m == (Moment { year, month, day, hour, minute, second }),
            r is Some <==> (Moment { year, month, day, hour, minute, second }).wf(),
    {
        if year < MIN_YEAR || year > MAX_YEAR || month < 1 || month > 12 || day < 1 || hour >= 24
            || minute >= 60 || second >= 60 {
            return None;
        }
        let leap = year % 4 == 0 && (year % 100 != 0 || year % 400 == 0);
        let days: u32 = if month == 2 {
            if leap { 29 } else { 28 }
        } else if month == 4 || month == 6 || month == 9 || month == 11 {
            30
        } else {
            31
        };
        if day > days {
            None
        } else {
            Some(Moment { year, month, day, hour, minute, second })
        }
    }
}

/// The decimal digit `d` (0 to 9).
pub open spec fn digit(d: int) -> char {
    seq!['0', '1', '2', '3', '4', '5', '6', '7', '8', '9'][d]
}

/// `n` (0 to 99) in two digits, with a leading zero.
pub open spec fn two_digits(n: int) -> Seq<char> {
    seq![digit(n / 10), digit(n % 10)]
}

/// `n` in decimal, without leading zeros.
pub open spec fn decimal(n: nat) -> Seq<char>
    decreases n,
{
    if n < 10 {
        seq![digit(n as int)]
    } else {
        decimal(n / 10).push(digit((n % 10) as int))
    }
}

/// `n` in at least four digits, padded with leading zeros.
pub open spec fn four_digits(n: nat) -> Seq<char> {
    if n < 10000 {
        seq![digit((n / 1000) as int), digit((n / 100 % 10) as int), digit((n / 10 % 10) as int), digit((n % 10) as int)]
    } else {
        decimal(n)
    }
}

/// A year: four digits from 0 to 9999, otherwise a sign and at least four
/// digits.
pub open spec fn year_text(y: int) -> Seq<char> {
    if 0 <= y < 10000 {
        four_digits(y as nat)
    } else if y < 0 {
        seq!['-'] + four_digits((-y) as nat)
    } else {
        seq!['+'] + four_digits(y as nat)
    }
}

/// The hour on a twelve-hour clock: 12, then 1 to 11.
pub open spec fn hour12(h: int) -> int {
    if h % 12 == 0 { 12 } else { h % 12 }
}

/// The strftime directives the clock uses.
pub open spec fn known_directive(c: char) -> bool {
    c == 'H' || c == 'I' || c == 'M' || c == 'S' || c == 'p' || c == 'F'
}

/// What directive `%c` writes for `t`.
pub open spec fn directive_text(t: Moment, c: char) -> Seq<char> {
    if c == 'H' {
        two_digits(t.hour as int)
    } else if c == 'I' {
        two_digits(hour12(t.hour as int))
    } else if c == 'M' {
        two_digits(t.minute as int)
    } else if c == 'S' {
        two_digits(t.second as int)
    } else if c == 'p' {
        if t.hour < 12 { seq!['A', 'M'] } else { seq!['P', 'M'] }
    } else {
        year_text(t.year as int) + seq!['-'] + two_digits(t.month as int) + seq!['-']
            + two_digits(t.day as int)
    }
}

/// A pattern whose every `%` starts one of the known directives.
pub open spec fn pattern_ok(p: Seq<char>) -> bool
    decreases p.len(),
{
    if p.len() == 0 {
        true
    } else if p[0] == '%' {
        p.len() >= 2 && known_directive(p[1]) && pattern_ok(p.skip(2))
    } else {
        pattern_ok(p.skip(1))
    }
}

/// `t` written after the pattern `p`: each directive replaced by its text,
/// every other character kept.
pub open spec fn format_text(t: Moment, p: Seq<char>) -> Seq<char>
    decreases p.len(),
{
    if p.len() == 0 {
        seq![]
    } else if p[0] == '%' && p.len() >= 2 {
        directive_text(t, p[1]) + format_text(t, p.skip(2))
    } else {
        seq![p[0]] + format_text(t, p.skip(1))
    }
}

/// Relies on chrono's `Local::now` and its `Datelike` and `Timelike`
/// accessors: the current local date and time, whose date exists and whose
/// second is below 60. chrono panics when the system clock reads a time
/// before 1970; that depends on the machine, not on any input.
#[verifier::external_body]
fn local_now() -> (r: Moment)
    ensures
        r.wf(),
{
    let now = chrono::Local::now();
    Moment {
        year: now.year(),
        month: now.month(),
        day: now.day(),
        hour: now.hour(),
        minute: now.minute(),
        second: now.second(),
    }
}

/// Relies on chrono's `NaiveDateTime::format` with the directives `%H`,
/// `%I`, `%M`, `%S` (two zero-padded digits), `%p` (`AM` or `PM`) and `%F`
/// (`%Y-%m-%d`), every other character copied.
#[verifier::external_body]
fn format_moment(t: &Moment, pattern: &str) -> (r: String)
    requires
        t.wf(),
        pattern_ok(pattern@),
    ensures
        r@ == format_text(*t, pattern@),
{
    let date = chrono::NaiveDate::from_ymd_opt(t.year, t.month, t.day).unwrap();
    date.and_hms_opt(t.hour, t.minute, t.second).unwrap().format(pattern).to_string()
}

/// The time of `now` under the settings `config`.
pub fn time_text(now: &Moment, config: &DisplayConfig) -> (r: String)
    requires
        now.wf(),
    ensures
        r@ == format_text(*now, time_pattern(*config)),
{
    let pattern = config.time_pattern();
    proof {
        reveal_strlit("%I:%M:%S [%p]");
        reveal_strlit("%I:%M [%p]");
        reveal_strlit("%H:%M:%S");
        reveal_strlit("%H:%M");
        reveal_with_fuel(pattern_ok, 14);
    }
    format_moment(now, pattern)
}

/// The date of `now` under the settings `config`.
pub fn date_text(now: &Moment, config: &DisplayConfig) -> (r: String)
    requires
        now.wf(),
    ensures
        r@ == format_text(*now, date_pattern(*config)),
{
    let pattern = config.date_pattern();
    proof {
        reveal_strlit("%F [%p]");
        reveal_strlit("%F");
        reveal_with_fuel(pattern_ok, 8);
    }
    format_moment(now, pattern)
}

/// The clock's current time, read under the shared display settings.
pub struct DisplayClock {
    config: Arc<RwLock<DisplayConfig>>,
    now: Moment,
}

impl DisplayClock {
    #[verifier::type_invariant]
    spec fn inv(&self) -> bool {
        self.now.wf()
    }

    /// The handle on the display settings that the clock reads.
    pub closed spec fn settings(&self) -> Arc<RwLock<DisplayConfig>> {
        self.config
    }

    /// The time the clock shows.
    pub closed spec fn moment(&self) -> Moment {
        self.now
    }

    /// A clock showing the current local time.
    pub fn new(config: Arc<RwLock<DisplayConfig>>) -> (r: DisplayClock)
        ensures
            r.settings() == config,
            r.moment().wf(),
    {
        let now = local_now();
        DisplayClock { config, now }
    }

    /// A clock showing `now`.
    pub fn at(config: Arc<RwLock<DisplayConfig>>, now: Moment) -> (r: DisplayClock)
        requires
            now.wf(),
        ensures
            r.settings() == config,
            r.moment() == now,
    {
        DisplayClock { config, now }
    }

    /// Moves the clock to the current local time.
    pub fn update(&mut self)
        ensures
            final(self).settings() == old(self).settings(),
            final(self).moment().wf(),
    {
        self.now = local_now();
    }

    /// The time text under the settings read now, or an empty text when the
    /// settings cannot be read.
    pub fn time(&self) -> (r: String)
        ensures
            r@.len() == 0 || exists|c: DisplayConfig|
                r@ == format_text(self.moment(), time_pattern(c)),
    {
        proof {
            use_type_invariant(self);
        }
        match read_shared(&self.config) {
            Some(config) => time_text(&self.now, &config),
            None => String::new(),
        }
    }

    /// The date text under the settings read now, or an empty text when the
    /// settings cannot be read.
    pub fn date(&self) -> (r: String)
        ensures
            r@.len() == 0 || exists|c: DisplayConfig|
                r@ == format_text(self.moment(), date_pattern(c)),
    {
        proof {
            use_type_invariant(self);
        }
        match read_shared(&self.config) {
            Some(config) => date_text(&self.now, &config),
            None => String::new(),
        }
    }
}

/// A digit of `n` (below 100) has a glyph.
proof fn lemma_two_digits_drawn(n: int)
    requires
        0 <= n < 100,
    ensures
        all_glyphs(two_digits(n)),
{
    let d = two_digits(n);
    assert forall|i: int| 0 <= i < d.len() implies variant_of(#[trigger] d[i]) is Some by {
        let k = if i == 0 { n / 10 } else { n % 10 };
        assert(0 <= k < 10);
        assert(d[i] == digit(k));
    }
}

/// On the twenty-four-hour clock the time is all digits and colons, so its
/// block is 35 cells wide without seconds and 56 with them, whatever the
/// centering and date switches say.
pub proof fn lemma_time_block_width(t: Moment, c: DisplayConfig)
    requires
        t.wf(),
        !c.standard_time,
    ensures
        block_width(strip_alphabetic(format_text(t, time_pattern(c)))) == (if c.show_seconds {
            56int
        } else {
            35int
        }),
{
    reveal_strlit("%H:%M:%S");
    reveal_strlit("%H:%M");
    reveal_with_fuel(format_text, 9);
    let hh = two_digits(t.hour as int);
    let mm = two_digits(t.minute as int);
    let ss = two_digits(t.second as int);
    lemma_two_digits_drawn(t.hour as int);
    lemma_two_digits_drawn(t.minute as int);
    lemma_two_digits_drawn(t.second as int);
    let f = format_text(t, time_pattern(c));
    let p = time_pattern(c);
    if c.show_seconds {
        assert(p.skip(2) =~= seq![':', '%', 'M', ':', '%', 'S']);
        assert(p.skip(3) =~= seq!['%', 'M', ':', '%', 'S']);
        assert(p.skip(5) =~= seq![':', '%', 'S']);
        assert(p.skip(6) =~= seq!['%', 'S']);
        assert(p.skip(8) =~= Seq::<char>::empty());
        assert(f =~= hh + seq![':'] + mm + seq![':'] + ss);
    } else {
        assert(p.skip(2) =~= seq![':', '%', 'M']);
        assert(p.skip(3) =~= seq!['%', 'M']);
        assert(p.skip(5) =~= Seq::<char>::empty());
        assert(f =~= hh + seq![':'] + mm);
    }
    assert forall|i: int| 0 <= i < f.len() implies variant_of(#[trigger] f[i]) is Some by {
        if i < 2 {
            assert(f[i] == hh[i]);
        } else if i == 2 || i == 5 {
            assert(f[i] == ':');
        } else if i < 5 {
            assert(f[i] == mm[i - 3]);
        } else {
            assert(f[i] == ss[i - 6]);
        }
    }
    lemma_glyph_text_kept(f);
}

} // verus!
