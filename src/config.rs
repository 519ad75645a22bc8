//! Display settings, and the configuration that carries them to the clock.
use vstd::prelude::*;
use std::sync::{Arc, RwLock};
use ratatui::style::Color;
use vstd::string::StrSliceExecFns;
use vstd::string::StringExecFns;
use crate::text::push_char;

verus! {

/// The four display switches. Each one is toggled on its own.
#[derive(Clone, Copy, Debug, PartialEq, Eq, Structural)]
pub struct DisplayConfig {
    /// Shows seconds alongside minutes.
    pub show_seconds: bool,
    /// Keeps the clock at the center of the terminal.
    pub centerize_text: bool,
    /// Twelve-hour time with an AM/PM marker.
    pub standard_time: bool,
    /// Hides today's date below the clock.
    pub hide_date: bool,
}

/// One of the four display switches.
#[derive(Clone, Copy, Debug, PartialEq, Eq, Structural)]
pub enum Toggle {
    Seconds,
    Centerize,
    StandardTime,
    HideDate,
}

/// `c` with exactly the switch `t` flipped.
pub open spec fn toggled(c: DisplayConfig, t: Toggle) -> DisplayConfig {
    match t {
        Toggle::Seconds => DisplayConfig { show_seconds: !c.show_seconds, ..c },
        Toggle::Centerize => DisplayConfig { centerize_text: !c.centerize_text, ..c },
        Toggle::StandardTime => DisplayConfig { standard_time: !c.standard_time, ..c },
        Toggle::HideDate => DisplayConfig { hide_date: !c.hide_date, ..c },
    }
}

/// The strftime pattern of the time: hours and minutes, seconds when they
/// are shown, and a twelve-hour clock with its AM/PM marker in standard time.
pub open spec fn time_pattern(c: DisplayConfig) -> Seq<char> {
    if c.standard_time {
        if c.show_seconds {
            "%I:%M:%S [%p]"@
        } else {
            "%I:%M [%p]"@
        }
    } else {
        if c.show_seconds {
            "%H:%M:%S"@
        } else {
            "%H:%M"@
        }
    }
}

/// The strftime pattern of the date: the ISO date, followed by the AM/PM
/// marker in standard time.
pub open spec fn date_pattern(c: DisplayConfig) -> Seq<char> {
    if c.standard_time {
        "%F [%p]"@
    } else {
        "%F"@
    }
}

impl Default for DisplayConfig {
    /// Every switch off.
    fn default() -> (r: DisplayConfig)
        ensures
            r == (DisplayConfig {
                show_seconds: false,
                centerize_text: false,
                standard_time: false,
                hide_date: false,
            }),
    {
        DisplayConfig {
            show_seconds: false,
            centerize_text: false,
            standard_time: false,
            hide_date: false,
        }
    }
}

impl DisplayConfig {
    /// Flips the switch `t` and leaves the other three as they were.
    pub fn toggle(&mut self, t: Toggle)
        ensures
            *final(self) == toggled(*old(self), t),
    {
        match t {
            Toggle::Seconds => self.show_seconds = !self.show_seconds,
            Toggle::Centerize => self.centerize_text = !self.centerize_text,
            Toggle::StandardTime => self.standard_time = !self.standard_time,
            Toggle::HideDate => self.hide_date = !self.hide_date,
        }
    }

    /// These settings with each switch that is given replaced by the given
    /// value; a switch given as `None` keeps its value.
    pub fn with_overrides(
        self,
        show_seconds: Option<bool>,
        centerize_text: Option<bool>,
        standard_time: Option<bool>,
        hide_date: Option<bool>,
    ) -> (r: DisplayConfig)
        ensures
            r.show_seconds == show_seconds.unwrap_or(self.show_seconds),
            r.centerize_text == centerize_text.unwrap_or(self.centerize_text),
            r.standard_time == standard_time.unwrap_or(self.standard_time),
            r.hide_date == hide_date.unwrap_or(self.hide_date),
    {
        let mut r = self;
        if let Some(v) = show_seconds {
            r.show_seconds = v;
        }
        if let Some(v) = centerize_text {
            r.centerize_text = v;
        }
        if let Some(v) = standard_time {
            r.standard_time = v;
        }
        if let Some(v) = hide_date {
            r.hide_date = v;
        }
        r
    }

    /// The strftime pattern of the time under these settings.
    pub fn time_pattern(&self) -> (r: &'static str)
        ensures
            r@ == time_pattern(*self),
    {
        if self.standard_time {
            if self.show_seconds {
                "%I:%M:%S [%p]"
            } else {
                "%I:%M [%p]"
            }
        } else {
            if self.show_seconds {
                "%H:%M:%S"
            } else {
                "%H:%M"
            }
        }
    }

    /// The strftime pattern of the date under these settings.
    pub fn date_pattern(&self) -> (r: &'static str)
        ensures
            r@ == date_pattern(*self),
    {
        if self.standard_time {
            "%F [%p]"
        } else {
            "%F"
        }
    }
}

/// Toggling one switch leaves the other three as they were; the time's
/// pattern (and so the glyphs and their width) does not depend on the
/// centering or date switches, and the date's pattern depends on the
/// twelve-hour switch alone.
pub proof fn lemma_toggles_are_independent(c: DisplayConfig, t: Toggle)
    ensures
        (toggled(c, t).show_seconds != c.show_seconds) <==> t == Toggle::Seconds,
        (toggled(c, t).centerize_text != c.centerize_text) <==> t == Toggle::Centerize,
        (toggled(c, t).standard_time != c.standard_time) <==> t == Toggle::StandardTime,
        (toggled(c, t).hide_date != c.hide_date) <==> t == Toggle::HideDate,
        t == Toggle::Centerize || t == Toggle::HideDate ==> time_pattern(toggled(c, t))
            == time_pattern(c),
        t != Toggle::StandardTime ==> date_pattern(toggled(c, t)) == date_pattern(c),
{
}

/// Toggling the same switch twice gives back the settings one started from.
pub proof fn lemma_toggle_twice(c: DisplayConfig, t: Toggle)
    ensures
        toggled(toggled(c, t), t) == c,
{
}

/// `s` with every `0x` replaced by `#`, read from left to right.
pub open spec fn hex_marks_replaced(s: Seq<char>) -> Seq<char>
    decreases s.len(),
{
    if s.len() == 0 {
        seq![]
    } else if s.len() >= 2 && s[0] == '0' && s[1] == 'x' {
        seq!['#'] + hex_marks_replaced(s.skip(2))
    } else {
        seq![s[0]] + hex_marks_replaced(s.skip(1))
    }
}

/// A color given as `0xRRGGBB`, `#RRGGBB` or `RRGGBB`, written as `#RRGGBB`:
/// `0x` becomes `#`, and a `#` is put in front when the text does not start
/// with one.
pub open spec fn color_code_text(s: Seq<char>) -> Seq<char> {
    let r = hex_marks_replaced(s);
    if r.len() > 0 && r[0] == '#' {
        r
    } else {
        seq!['#'] + r
    }
}

/// The text of a color in `#RRGGBB` form (see [`color_code_text`]).
pub fn color_code(s: &str) -> (r: String)
    ensures
        r@ == color_code_text(s@),
{
    let n = s.unicode_len();
    let mut replaced = String::new();
    let mut i: usize = 0;
    assert(s@.skip(0) =~= s@);
    assert(replaced@ + hex_marks_replaced(s@) =~= hex_marks_replaced(s@));
    while i < n
        invariant
            n == s@.len(),
            i <= n,
            replaced@ + hex_marks_replaced(s@.skip(i as int)) == hex_marks_replaced(s@),
        decreases n - i,
    {
        let ghost rest = s@.skip(i as int);
        let ghost before = replaced@;
        let c = s.get_char(i);
        if c == '0' && i + 1 < n && s.get_char(i + 1) == 'x' {
            push_char(&mut replaced, '#');
            assert(rest.skip(2) =~= s@.skip(i as int + 2));
            assert(rest[0] == '0' && rest[1] == 'x');
            assert(replaced@ + hex_marks_replaced(s@.skip(i as int + 2)) =~= before
                + hex_marks_replaced(rest));
            i = i + 2;
        } else {
            push_char(&mut replaced, c);
            assert(rest.skip(1) =~= s@.skip(i as int + 1));
            assert(rest[0] == c);
            assert(!(rest.len() >= 2 && rest[0] == '0' && rest[1] == 'x'));
            assert(replaced@ + hex_marks_replaced(s@.skip(i as int + 1)) =~= before
                + hex_marks_replaced(rest));
            i = i + 1;
        }
    }
    assert(s@.skip(n as int) =~= Seq::<char>::empty());
    assert(replaced@ + Seq::<char>::empty() =~= replaced@);
    let starts_with_hash = replaced.as_str().unicode_len() > 0 && replaced.as_str().get_char(0)
        == '#';
    if starts_with_hash {
        replaced
    } else {
        let mut r = String::new();
        push_char(&mut r, '#');
        r.append(replaced.as_str());
        r
    }
}

/// The color settings.
#[derive(Clone, Copy, Debug)]
pub struct ColorConfig {
    /// Text color.
    pub foreground_color: Color,
}

/// Settings gathered before the clock starts.
#[derive(Clone, Copy, Debug)]
pub struct ConfigBuilder {
    pub colors: ColorConfig,
    pub display: DisplayConfig,
}

/// The settings the clock runs with: a color, and display switches shared
/// between the render path and the input path.
pub struct Config {
    colors: ColorConfig,
    display: Arc<RwLock<DisplayConfig>>,
}

impl ConfigBuilder {
    /// Settings from a color and display switches.
    pub fn from_parts(colors: ColorConfig, display: DisplayConfig) -> (r: ConfigBuilder)
        ensures
            r.colors == colors,
            r.display == display,
    {
        ConfigBuilder { colors, display }
    }

    /// Puts the display switches behind a lock to be shared.
    pub fn build(self) -> (r: Config)
        ensures
            r.fg_spec() == self.colors.foreground_color,
    {
        Config { colors: self.colors, display: Arc::new(RwLock::new(self.display)) }
    }
}

impl Config {
    /// The text color.
    pub closed spec fn fg_spec(&self) -> Color {
        self.colors.foreground_color
    }

    /// The text color.
    pub fn fg(&self) -> (r: &Color)
        ensures
            *r == self.fg_spec(),
    {
        &self.colors.foreground_color
    }

    /// The handle on the shared display switches.
    pub closed spec fn shared_spec(&self) -> Arc<RwLock<DisplayConfig>> {
        self.display
    }

    /// Another handle on the shared display switches: the same lock, so a
    /// change made through one handle is seen through every other.
    pub fn display_config(&self) -> (r: Arc<RwLock<DisplayConfig>>)
        ensures
            r == self.shared_spec(),
    {
        self.display.clone()
    }
}

} // verus!
