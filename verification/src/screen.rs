//! What a request for the screen asks of the session.

use crate::range;
use std::ops::Range;
use vstd::prelude::*;

verus! {

/// Query parameters for screen endpoint.
#[derive(Debug, PartialEq)]
pub struct ScreenParams {
    /// Row range, 1-indexed (e.g. "1:5", "5:", ":10", "5").
    pub rows: Option<String>,
    /// Column range, 1-indexed.
    pub cols: Option<String>,
    /// Character to show at cursor position.
    pub cursor: Option<char>,
    /// Output format: "text" (default), "styled", "html".
    pub format: Option<String>,
    /// Include trailing empty lines.
    pub full: Option<bool>,
}

/// How the session is to draw the screen.
#[derive(Debug, PartialEq)]
pub struct ScreenOpts {
    /// Rows to show, all of them where there is no range.
    pub rows: Option<Range<usize>>,
    /// Columns to show, all of them where there is no range.
    pub cols: Option<Range<usize>>,
    /// Character to show at cursor position.
    pub cursor_char: Option<char>,
    /// Include trailing empty lines.
    pub include_empty: bool,
}

/// The form in which the screen is handed out.
#[derive(Debug, Clone, Copy, PartialEq, Eq, Structural)]
pub enum ScreenFormat {
    Text,
    Styled,
    Html,
}

impl Default for ScreenParams {
    fn default() -> (params: Self)
        ensures
            params.rows is None,
            params.cols is None,
            params.cursor is None,
            params.format is None,
            params.full is None,
    {
        ScreenParams { rows: None, cols: None, cursor: None, format: None, full: None }
    }
}

/// The range that an optional parameter denotes; a text that is no range counts
/// as none.
pub open spec fn optional_range(s: Option<String>) -> Option<Range<usize>> {
    match s {
        Some(s) => range::range_value(s@),
        None => None,
    }
}

/// The range in an optional parameter, if there is one, ends at a `usize`.
pub open spec fn optional_fits(s: Option<String>) -> bool {
    s matches Some(s) ==> range::range_fits(s@)
}

impl ScreenParams {
    /// Both ranges end at a `usize`.
    pub open spec fn ranges_fit(self) -> bool {
        optional_fits(self.rows) && optional_fits(self.cols)
    }

    /// Whether the ranges can be handed to [`build_screen_opts`].
    pub fn fits(&self) -> (ok: bool)
        ensures
            ok == self.ranges_fit(),
    {
        let rows = match &self.rows {
            Some(s) => range::fits(s.as_str()),
            None => true,
        };
        let cols = match &self.cols {
            Some(s) => range::fits(s.as_str()),
            None => true,
        };
        rows && cols
    }

    /// The format that the parameters ask for: text unless they name another one.
    pub open spec fn asked_format(self) -> ScreenFormat {
        match self.format {
            Some(name) => if name@ == "styled"@ {
                ScreenFormat::Styled
            } else if name@ == "html"@ {
                ScreenFormat::Html
            } else {
                ScreenFormat::Text
            },
            None => ScreenFormat::Text,
        }
    }

    /// The options that the parameters denote.
    pub open spec fn asked_opts(self) -> ScreenOpts {
        ScreenOpts {
            rows: optional_range(self.rows),
            cols: optional_range(self.cols),
            cursor_char: self.cursor,
            include_empty: self.full == Some(true),
        }
    }
}

fn parse_optional_range(s: &Option<String>) -> (range: Option<Range<usize>>)
    requires
        optional_fits(*s),
    ensures
        range == optional_range(*s),
{
    match s {
        Some(s) => range::parse_range(s.as_str()),
        None => None,
    }
}

/// The session's options for a request.
pub fn build_screen_opts(params: &ScreenParams) -> (opts: ScreenOpts)
    requires
        params.ranges_fit(),
    ensures
        opts == params.asked_opts(),
{
    ScreenOpts {
        rows: parse_optional_range(&params.rows),
        cols: parse_optional_range(&params.cols),
        cursor_char: params.cursor,
        include_empty: match params.full {
            Some(full) => full,
            None => false,
        },
    }
}

/// The format that a request asks for.
pub fn screen_format(params: &ScreenParams) -> (format: ScreenFormat)
    ensures
        format == params.asked_format(),
{
    match &params.format {
        Some(name) => {
            let styled = "styled".to_string();
            let html = "html".to_string();
            if name.eq(&styled) {
                ScreenFormat::Styled
            } else if name.eq(&html) {
                ScreenFormat::Html
            } else {
                ScreenFormat::Text
            }
        },
        None => ScreenFormat::Text,
    }
}

/// Asking for "text" and asking for no format are the same.
pub proof fn law_text_is_the_default(params: ScreenParams)
    requires
        params.format matches Some(name) ==> name@ == "text"@,
    ensures
        params.asked_format() == ScreenFormat::Text,
{
    reveal_strlit("text");
    reveal_strlit("styled");
    reveal_strlit("html");
    assert("text"@[0] == 't');
    assert("html"@[0] == 'h');
}

/// Each option comes from its own parameter alone: the rows from `rows` and the columns
/// from `cols`, the whole screen where the parameter is missing or no range; the
/// character at the cursor from `cursor`; and trailing empty lines are shown where
/// `full` says so.
pub proof fn law_options_come_from_their_parameters(params: ScreenParams)
    ensures
        params.rows matches Some(s) ==> params.asked_opts().rows == range::range_value(s@),
        params.rows is None ==> params.asked_opts().rows is None,
        params.cols matches Some(s) ==> params.asked_opts().cols == range::range_value(s@),
        params.cols is None ==> params.asked_opts().cols is None,
        params.asked_opts().cursor_char == params.cursor,
        params.asked_opts().include_empty <==> params.full == Some(true),
{
}

/// Two requests that differ in one parameter differ in its option alone, and the format
/// bears on no option.
pub proof fn law_options_are_independent(a: ScreenParams, b: ScreenParams)
    ensures
        a.rows == b.rows ==> a.asked_opts().rows == b.asked_opts().rows,
        a.cols == b.cols ==> a.asked_opts().cols == b.asked_opts().cols,
        a.cursor == b.cursor ==> a.asked_opts().cursor_char == b.asked_opts().cursor_char,
        a.full == b.full ==> a.asked_opts().include_empty == b.asked_opts().include_empty,
        a.format == b.format ==> a.asked_format() == b.asked_format(),
{
}

/// The screen is styled where the format is named "styled", a page where it is named
/// "html", and text in all other cases.
pub proof fn law_format_is_named(params: ScreenParams)
    ensures
        params.asked_format() == ScreenFormat::Styled <==> params.format is Some
            && params.format.unwrap()@ == "styled"@,
        params.asked_format() == ScreenFormat::Html <==> params.format is Some
            && params.format.unwrap()@ == "html"@,
{
    reveal_strlit("styled");
    reveal_strlit("html");
    assert("styled"@.len() == 6);
    assert("html"@.len() == 4);
}

/// A request can be served where each range that it has can be read.
pub proof fn law_what_fits(params: ScreenParams)
    ensures
        params.ranges_fit() <==> (params.rows is Some ==> range::range_fits(
            params.rows.unwrap()@,
        )) && (params.cols is Some ==> range::range_fits(params.cols.unwrap()@)),
{
}

} // verus!
