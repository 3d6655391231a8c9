//! The text-styling collaborator's calls, one wrapper per `colored` method.
//!
//! The engine treats styling as an opaque transform: whether escape bytes are
//! added depends on `colored`'s global colorization switch (environment and
//! terminal detection), so no wrapper here claims anything of its result; the
//! callers only track the styled flag.

use colored::Colorize;
use vstd::prelude::*;

verus! {

/// Relies on colored's `Colorize::black`.
#[verifier::external_body]
pub(crate) fn paint_black(s: &str) -> String {
    s.black().to_string()
}

/// Relies on colored's `Colorize::red`.
#[verifier::external_body]
pub(crate) fn paint_red(s: &str) -> String {
    s.red().to_string()
}

/// Relies on colored's `Colorize::green`.
#[verifier::external_body]
pub(crate) fn paint_green(s: &str) -> String {
    s.green().to_string()
}

/// Relies on colored's `Colorize::yellow`.
#[verifier::external_body]
pub(crate) fn paint_yellow(s: &str) -> String {
    s.yellow().to_string()
}

/// Relies on colored's `Colorize::blue`.
#[verifier::external_body]
pub(crate) fn paint_blue(s: &str) -> String {
    s.blue().to_string()
}

/// Relies on colored's `Colorize::purple`.
#[verifier::external_body]
pub(crate) fn paint_purple(s: &str) -> String {
    s.purple().to_string()
}

/// Relies on colored's `Colorize::cyan`.
#[verifier::external_body]
pub(crate) fn paint_cyan(s: &str) -> String {
    s.cyan().to_string()
}

/// Relies on colored's `Colorize::truecolor`.
#[verifier::external_body]
pub(crate) fn paint_truecolor(s: &str, r: u8, g: u8, b: u8) -> String {
    s.truecolor(r, g, b).to_string()
}

/// Relies on colored's `Colorize::on_black`.
#[verifier::external_body]
pub(crate) fn paint_on_black(s: &str) -> String {
    s.on_black().to_string()
}

/// Relies on colored's `Colorize::on_red`.
#[verifier::external_body]
pub(crate) fn paint_on_red(s: &str) -> String {
    s.on_red().to_string()
}

/// Relies on colored's `Colorize::on_green`.
#[verifier::external_body]
pub(crate) fn paint_on_green(s: &str) -> String {
    s.on_green().to_string()
}

/// Relies on colored's `Colorize::on_yellow`.
#[verifier::external_body]
pub(crate) fn paint_on_yellow(s: &str) -> String {
    s.on_yellow().to_string()
}

/// Relies on colored's `Colorize::on_blue`.
#[verifier::external_body]
pub(crate) fn paint_on_blue(s: &str) -> String {
    s.on_blue().to_string()
}

/// Relies on colored's `Colorize::on_purple`.
#[verifier::external_body]
pub(crate) fn paint_on_purple(s: &str) -> String {
    s.on_purple().to_string()
}

/// Relies on colored's `Colorize::on_cyan`.
#[verifier::external_body]
pub(crate) fn paint_on_cyan(s: &str) -> String {
    s.on_cyan().to_string()
}

/// Relies on colored's `Colorize::on_truecolor`.
#[verifier::external_body]
pub(crate) fn paint_on_truecolor(s: &str, r: u8, g: u8, b: u8) -> String {
    s.on_truecolor(r, g, b).to_string()
}

/// Relies on colored's `Colorize::normal`.
#[verifier::external_body]
pub(crate) fn style_normal(s: &str) -> String {
    s.normal().to_string()
}

/// Relies on colored's `Colorize::bold`.
#[verifier::external_body]
pub(crate) fn style_bold(s: &str) -> String {
    s.bold().to_string()
}

/// Relies on colored's `Colorize::italic`.
#[verifier::external_body]
pub(crate) fn style_italic(s: &str) -> String {
    s.italic().to_string()
}

/// Relies on colored's `Colorize::underline`.
#[verifier::external_body]
pub(crate) fn style_underline(s: &str) -> String {
    s.underline().to_string()
}

/// Relies on colored's `Colorize::strikethrough`.
#[verifier::external_body]
pub(crate) fn style_strikethrough(s: &str) -> String {
    s.strikethrough().to_string()
}

} // verus!
