//! One terminal row: its content string, the filled flag, and the styled
//! flag. Holds the row-level fill (padding) and merge (compositing) engine.

use crate::enums::{Color, Container, LineFillMode, Style, TuiError};
use crate::strutil::{push_char, spaces, spaces_seq};
use crate::styling;
use vstd::prelude::*;
use vstd::string::{StrSliceExecFns, StringExecFns};

verus! {

/// Styled content carries invisible styling bytes; padding adds this fixed
/// correction so that the visible columns still reach the terminal width.
pub const STYLED_PAD_CORRECTION: usize = 17;

/// How many pad columns a row of visible length `len` needs to reach `width`,
/// clamped to zero when the content is already wide enough.
pub open spec fn line_pad(width: nat, styled: bool, len: nat) -> nat {
    let target: nat = if styled {
        (width + STYLED_PAD_CORRECTION) as nat
    } else {
        width
    };
    if target >= len {
        (target - len) as nat
    } else {
        0
    }
}

/// How much of the pad goes on the leading side: half for `Center`, the
/// margin (clamped to the pad) for `Right`, the remainder for `Left`.
pub open spec fn lead_pad(pad: nat, mode: LineFillMode) -> nat {
    match mode {
        LineFillMode::Center => pad / 2,
        LineFillMode::Left(m) => (pad - if m as nat <= pad {
            m as nat
        } else {
            pad
        }) as nat,
        LineFillMode::Right(m) => if m as nat <= pad {
            m as nat
        } else {
            pad
        },
    }
}

/// The content after filling: the pad distributed around the content per mode.
pub open spec fn row_fill_spec(content: Seq<char>, pad: nat, mode: LineFillMode) -> Seq<char> {
    spaces_seq(lead_pad(pad, mode)) + content + spaces_seq((pad - lead_pad(pad, mode)) as nat)
}

/// The transparency rule, per column of the top row `a`: a non-space glyph of
/// `a` wins; under a space, the bottom row `b` shows through where it has a
/// column, and the space stays where it has none.
pub open spec fn row_merge_spec(a: Seq<char>, b: Seq<char>) -> Seq<char> {
    Seq::new(
        a.len(),
        |i: int|
            if a[i] != ' ' {
                a[i]
            } else if i < b.len() {
                b[i]
            } else {
                a[i]
            },
    )
}

/// A row of nothing but spaces, already filled and unstyled: what layer
/// padding inserts.
pub open spec fn is_blank_line(l: Line, width: nat) -> bool {
    &&& l@ == spaces_seq(width)
    &&& l.is_filled
    &&& !l.is_colored
}

#[derive(Debug)]
pub struct Line {
    pub line_content: Container<String>,
    pub is_filled: bool,
    pub is_colored: bool,
}

impl View for Line {
    type V = Seq<char>;

    open spec fn view(&self) -> Seq<char> {
        self.line_content.spec_value()@
    }
}

impl Clone for Line {
    fn clone(&self) -> (res: Self)
        ensures
            res@ == self@,
            res.is_filled == self.is_filled,
            res.is_colored == self.is_colored,
    {
        Line {
            line_content: Container::Ref(self.line_content.get_value().clone()),
            is_filled: self.is_filled,
            is_colored: self.is_colored,
        }
    }
}

impl Line {
    /// A fresh, unfilled, unstyled row.
    pub fn new(line_content: String) -> (res: Self)
        ensures
            res@ == line_content@,
            !res.is_filled,
            !res.is_colored,
    {
        Self { line_content: Container::Ref(line_content), is_filled: false, is_colored: false }
    }

    /// A fresh, unfilled row whose content already carries styling bytes, so
    /// that filling applies the styled-width correction.
    pub fn from_colored_string(line_content: String) -> (res: Self)
        ensures
            res@ == line_content@,
            !res.is_filled,
            res.is_colored,
    {
        Self { line_content: Container::Ref(line_content), is_filled: false, is_colored: true }
    }

    /// Pads the content with spaces up to the terminal width (plus the styled
    /// correction), distributed per `fill_mode`; a no-op on an already-filled
    /// row, and the content stays as given when it is already wide enough.
    pub fn fill(&mut self, terminal_size: &(u16, u16), fill_mode: &LineFillMode)
        ensures
            old(self).is_filled ==> *final(self) == *old(self),
            !old(self).is_filled ==> {
                &&& final(self)@ == row_fill_spec(
                    old(self)@,
                    line_pad(terminal_size.0 as nat, old(self).is_colored, old(self)@.len()),
                    *fill_mode,
                )
                &&& final(self).is_filled
                &&& final(self).is_colored == old(self).is_colored
            },
    {
        if self.is_filled {
            return ;
        }
        let length = self.line_content.get_value().as_str().unicode_len();
        let width = terminal_size.0 as usize;
        let target = if self.is_colored {
            width + STYLED_PAD_CORRECTION
        } else {
            width
        };
        let pad = if target >= length {
            target - length
        } else {
            0
        };
        let lead: usize = match fill_mode {
            LineFillMode::Center => pad / 2,
            LineFillMode::Left(m) => pad - (if *m <= pad {
                *m
            } else {
                pad
            }),
            LineFillMode::Right(m) => if *m <= pad {
                *m
            } else {
                pad
            },
        };
        let trail: usize = pad - lead;
        proof {
            assert(pad as nat == line_pad(
                terminal_size.0 as nat,
                self.is_colored,
                self@.len(),
            ));
            assert(lead as nat == lead_pad(pad as nat, *fill_mode));
        }
        let mut s = spaces(lead);
        s.append(self.line_content.get_value().as_str());
        s.append(spaces(trail).as_str());
        self.line_content = Container::Ref(s);
        self.is_filled = true;
    }

    /// Composites this (filled) row over `other_line` per the transparency
    /// rule; the result is filled and counts as styled.
    pub fn merge(&self, other_line: &Line) -> (r: Result<Line, TuiError>)
        ensures
            !self.is_filled ==> r == Err::<Line, TuiError>(TuiError::PreconditionViolation),
            self.is_filled ==> (r matches Ok(l) && l@ == row_merge_spec(self@, other_line@)
                && l.is_filled && l.is_colored),
    {
        if !self.is_filled {
            return Err(TuiError::PreconditionViolation);
        }
        let a = self.line_content.get_value().as_str();
        let b = other_line.line_content.get_value().as_str();
        let n = a.unicode_len();
        let bn = b.unicode_len();
        let mut result = String::new();
        let mut i: usize = 0;
        proof {
            assert(result@ =~= row_merge_spec(a@, b@).take(0));
        }
        while i < n
            invariant
                i <= n,
                n == a@.len(),
                bn == b@.len(),
                a@ == self@,
                b@ == other_line@,
                result@ == row_merge_spec(a@, b@).take(i as int),
            decreases n - i,
        {
            let ca = a.get_char(i);
            let c = if ca != ' ' {
                ca
            } else if i < bn {
                b.get_char(i)
            } else {
                ca
            };
            push_char(&mut result, c);
            proof {
                assert(result@ =~= row_merge_spec(a@, b@).take((i + 1) as int));
            }
            i = i + 1;
        }
        proof {
            assert(result@ =~= row_merge_spec(self@, other_line@));
        }
        Ok(Line { line_content: Container::Ref(result), is_filled: true, is_colored: true })
    }

    /// Recolors the row's glyphs through the styling collaborator and tracks
    /// the styled flag; `NoColor` clears the flag and keeps the content.
    pub fn paint_line_text(&mut self, color: &Color)
        ensures
            final(self).is_filled == old(self).is_filled,
            final(self).is_colored == !(color matches Color::NoColor),
            color matches Color::NoColor ==> final(self)@ == old(self)@,
    {
        match color {
            Color::NoColor => {
                self.is_colored = false;
            },
            _ => {
                let painted = Self::paint_string_text(self.line_content.get_value(), color);
                self.line_content = Container::Ref(painted);
                self.is_colored = true;
            },
        }
    }

    /// Recolors the row's background through the styling collaborator and
    /// tracks the styled flag; `NoColor` clears the flag and keeps the content.
    pub fn paint_line_background(&mut self, color: &Color)
        ensures
            final(self).is_filled == old(self).is_filled,
            final(self).is_colored == !(color matches Color::NoColor),
            color matches Color::NoColor ==> final(self)@ == old(self)@,
    {
        match color {
            Color::NoColor => {
                self.is_colored = false;
            },
            _ => {
                let painted = Self::paint_string_background(self.line_content.get_value(), color);
                self.line_content = Container::Ref(painted);
                self.is_colored = true;
            },
        }
    }

    /// Applies each requested style to the content in order; after a
    /// non-empty request the row counts as styled, so that filling applies
    /// the styled-width correction. An empty request leaves the row
    /// untouched.
    pub fn set_line_style(&mut self, style: &Vec<Style>)
        ensures
            style@.len() == 0 ==> *final(self) == *old(self),
            style@.len() > 0 ==> final(self).is_filled == old(self).is_filled
                && final(self).is_colored,
    {
        if style.len() == 0 {
            return ;
        }
        let styled = Self::set_string_style(self.line_content.get_value(), style);
        self.line_content = Container::Ref(styled);
        self.is_colored = true;
    }

    /// One foreground recoloring of a plain string; `NoColor` returns the
    /// string as it is.
    pub fn paint_string_text(string: &String, color: &Color) -> (res: String)
        ensures
            color matches Color::NoColor ==> res@ == string@,
    {
        match color {
            Color::NoColor => string.clone(),
            Color::Blue => styling::paint_blue(string.as_str()),
            Color::Dark => styling::paint_black(string.as_str()),
            Color::Green => styling::paint_green(string.as_str()),
            Color::Red => styling::paint_red(string.as_str()),
            Color::Rgb(cr, cg, cb) => styling::paint_truecolor(string.as_str(), *cr, *cg, *cb),
            Color::Orange => styling::paint_truecolor(string.as_str(), 255, 165, 0),
            Color::Grey => styling::paint_truecolor(string.as_str(), 128, 128, 128),
            Color::Purple => styling::paint_purple(string.as_str()),
            Color::Yellow => styling::paint_yellow(string.as_str()),
            Color::Cyan => styling::paint_cyan(string.as_str()),
        }
    }

    /// One background recoloring of a plain string; `NoColor` returns the
    /// string as it is.
    pub fn paint_string_background(string: &String, color: &Color) -> (res: String)
        ensures
            color matches Color::NoColor ==> res@ == string@,
    {
        match color {
            Color::NoColor => string.clone(),
            Color::Blue => styling::paint_on_blue(string.as_str()),
            Color::Dark => styling::paint_on_black(string.as_str()),
            Color::Green => styling::paint_on_green(string.as_str()),
            Color::Red => styling::paint_on_red(string.as_str()),
            Color::Rgb(cr, cg, cb) => styling::paint_on_truecolor(string.as_str(), *cr, *cg, *cb),
            Color::Orange => styling::paint_on_truecolor(string.as_str(), 255, 165, 0),
            Color::Grey => styling::paint_on_truecolor(string.as_str(), 128, 128, 128),
            Color::Purple => styling::paint_on_purple(string.as_str()),
            Color::Yellow => styling::paint_on_yellow(string.as_str()),
            Color::Cyan => styling::paint_on_cyan(string.as_str()),
        }
    }

    /// Applies each requested style to a plain string in order; an empty
    /// request returns the string as it is.
    pub fn set_string_style(string: &String, style: &Vec<Style>) -> (res: String)
        ensures
            style@.len() == 0 ==> res@ == string@,
    {
        let mut out = string.clone();
        let mut i: usize = 0;
        while i < style.len()
            invariant
                i <= style@.len(),
                style@.len() == 0 ==> out@ == string@,
            decreases style@.len() - i,
        {
            out = match style[i] {
                Style::Normal => styling::style_normal(out.as_str()),
                Style::Bold => styling::style_bold(out.as_str()),
                Style::Italic => styling::style_italic(out.as_str()),
                Style::UnderLined => styling::style_underline(out.as_str()),
                Style::Strike => styling::style_strikethrough(out.as_str()),
            };
            i = i + 1;
        }
        out
    }
}

/// Law: filling never loses content and lands exactly on the target width.
/// For an unstyled row no wider than the terminal, the filled row's length is
/// exactly the terminal width, whatever the mode.
pub proof fn lemma_row_fill_exact(content: Seq<char>, width: nat, mode: LineFillMode)
    requires
        content.len() <= width,
    ensures
        row_fill_spec(content, line_pad(width, false, content.len()), mode).len() == width,
{
}

/// Law: `Center` mode splits the pad so that the leading and trailing sides
/// differ by at most one column, and together make up the whole pad.
pub proof fn lemma_row_fill_center_balanced(pad: nat)
    ensures
        lead_pad(pad, LineFillMode::Center) + (pad - lead_pad(pad, LineFillMode::Center)) == pad,
        (pad - lead_pad(pad, LineFillMode::Center)) - lead_pad(pad, LineFillMode::Center) <= 1,
{
}

/// Law (transparency): merging filled rows of equal width keeps every
/// non-space glyph of the top row and shows the bottom row's glyph under
/// every space of the top row.
pub proof fn lemma_row_transparency(a: Seq<char>, b: Seq<char>)
    requires
        a.len() == b.len(),
    ensures
        row_merge_spec(a, b).len() == a.len(),
        forall|i: int|
            0 <= i < a.len() ==> row_merge_spec(a, b)[i] == (if a[i] != ' ' {
                a[i]
            } else {
                b[i]
            }),
{
}

} // verus!
