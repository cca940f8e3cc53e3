//! What the user has configured.

use vstd::prelude::*;

verus! {

/// How much colour the terminal takes.
#[derive(Debug, Clone, Copy, PartialEq, Eq, Structural)]
pub enum ColorOption {
    TrueColor,
    Ansi,
    No,
}

/// The user's settings.
#[derive(Debug)]
pub struct Config {
    pub color_option: ColorOption,
    /// The station to ask for where none is given.
    pub default_station: Option<String>,
}

/// Whether `pattern` stands somewhere in `text`.
pub open spec fn occurs(pattern: Seq<char>, text: Seq<char>) -> bool {
    exists|i: int|
        0 <= i <= text.len() - pattern.len() && #[trigger] text.subrange(i, i + pattern.len())
            == pattern
}

/// `str::contains` with a `&str` pattern: whether the pattern is a substring.
#[verifier::external_body]
fn contains(text: &str, pattern: &str) -> (r: bool)
    ensures
        r == occurs(pattern@, text@),
{
    text.contains(pattern)
}

impl ColorOption {
    /// The colour that a terminal takes by what it says of itself: true
    /// colour where that names `truecolor` or `24bit`, and else the ANSI
    /// palette.
    pub open spec fn told_by(value: Seq<char>) -> ColorOption {
        if occurs("truecolor"@, value) || occurs("24bit"@, value) {
            ColorOption::TrueColor
        } else {
            ColorOption::Ansi
        }
    }

    pub fn from_colorterm(value: &str) -> (r: ColorOption)
        ensures
            r == ColorOption::told_by(value@),
    {
        if contains(value, "truecolor") || contains(value, "24bit") {
            ColorOption::TrueColor
        } else {
            ColorOption::Ansi
        }
    }
}

impl Config {
    /// The settings of a user who has set nothing.
    pub fn from_colorterm(value: &str) -> (r: Config)
        ensures
            r.color_option == ColorOption::told_by(value@),
            r.default_station is None,
    {
        Config { color_option: ColorOption::from_colorterm(value), default_station: None }
    }

    /// The station to ask for: the one given, and else the configured one.
    pub fn station<'a>(&'a self, given: &'a Option<String>) -> (r: Option<&'a String>)
        ensures
            match (given, self.default_station) {
                (Some(s), _) => r == Some(s),
                (None, Some(d)) => r matches Some(s) && *s == d,
                (None, None) => r is None,
            },
    {
        match given {
            Some(s) => Some(s),
            None => match &self.default_station {
                Some(d) => Some(d),
                None => None,
            },
        }
    }
}

} // verus!
