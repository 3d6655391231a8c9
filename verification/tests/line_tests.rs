use pentui::{Color, Container, Line, LineFillMode, TuiError};

fn filled_line(s: &str, width: u16) -> Line {
    let mut l = Line::new(s.to_string());
    l.fill(&(width, 1), &LineFillMode::Center);
    l
}

#[test]
fn test_container_access() {
    let mut c = Container::Ref(7u32);
    assert_eq!(*c.get_value(), 7);
    *c.get_mut_value() = 9;
    assert_eq!(*c.get_value(), 9);
    assert_eq!(c.get_ownership(), 9);
}

#[test]
fn test_row_fill_center_exact() {
    let mut l = Line::new("ab".to_string());
    l.fill(&(5, 1), &LineFillMode::Center);
    assert_eq!(l.line_content.get_value().as_str(), " ab  ");
    assert!(l.is_filled);
    assert!(!l.is_colored);
}

#[test]
fn test_row_fill_left_margin() {
    let mut l = Line::new("ab".to_string());
    l.fill(&(5, 1), &LineFillMode::Left(1));
    assert_eq!(l.line_content.get_value().as_str(), "  ab ");
}

#[test]
fn test_row_fill_right_margin() {
    let mut l = Line::new("ab".to_string());
    l.fill(&(5, 1), &LineFillMode::Right(0));
    assert_eq!(l.line_content.get_value().as_str(), "ab   ");
}

#[test]
fn test_row_fill_margin_clamped() {
    let mut l = Line::new("ab".to_string());
    l.fill(&(5, 1), &LineFillMode::Right(9));
    assert_eq!(l.line_content.get_value().as_str(), "   ab");
}

#[test]
fn test_row_fill_idempotent() {
    let mut l = Line::new("ab".to_string());
    l.fill(&(5, 1), &LineFillMode::Center);
    let before = l.line_content.get_value().clone();
    l.fill(&(9, 1), &LineFillMode::Left(2));
    assert_eq!(l.line_content.get_value(), &before);
    assert!(l.is_filled);
}

#[test]
fn test_row_fill_degenerate_width() {
    let mut l = Line::new("abc".to_string());
    l.fill(&(2, 1), &LineFillMode::Center);
    assert_eq!(l.line_content.get_value().as_str(), "abc");
    assert!(l.is_filled);
}

#[test]
fn test_row_fill_empty_content() {
    let mut l = Line::new(String::new());
    l.fill(&(4, 1), &LineFillMode::Center);
    assert_eq!(l.line_content.get_value().as_str(), "    ");
}

#[test]
fn test_row_fill_styled_correction() {
    let mut l = Line::from_colored_string("ab".to_string());
    l.fill(&(5, 1), &LineFillMode::Center);
    let expected = format!("{}ab{}", " ".repeat(10), " ".repeat(10));
    assert_eq!(l.line_content.get_value(), &expected);
    assert!(l.is_colored);
}

#[test]
fn test_row_merge_transparency() {
    let top = filled_line(" X ", 3);
    let bottom = filled_line("YYY", 3);
    let merged = top.merge(&bottom).unwrap();
    assert_eq!(merged.line_content.get_value().as_str(), "YXY");
    assert!(merged.is_filled);
    assert!(merged.is_colored);
}

#[test]
fn test_row_merge_keeps_top_glyphs() {
    let top = filled_line("A B", 3);
    let bottom = filled_line("xyz", 3);
    let merged = top.merge(&bottom).unwrap();
    assert_eq!(merged.line_content.get_value().as_str(), "AyB");
}

#[test]
fn test_row_merge_unfilled_errors() {
    let top = Line::new(" X ".to_string());
    let bottom = filled_line("YYY", 3);
    let r = top.merge(&bottom);
    assert_eq!(r.unwrap_err(), TuiError::PreconditionViolation);
}

#[test]
fn test_row_merge_short_bottom_keeps_space() {
    let top = filled_line("a  ", 3);
    let bottom = Line::new("b".to_string());
    let merged = top.merge(&bottom).unwrap();
    assert_eq!(merged.line_content.get_value().as_str(), "a  ");
}

#[test]
fn test_paint_line_no_color_clears_flag() {
    let mut l = Line::from_colored_string("ab".to_string());
    l.paint_line_text(&Color::NoColor);
    assert!(!l.is_colored);
    assert_eq!(l.line_content.get_value().as_str(), "ab");
}

#[test]
fn test_paint_line_sets_flag() {
    let mut l = Line::new("ab".to_string());
    l.paint_line_text(&Color::Red);
    assert!(l.is_colored);
    assert!(!l.is_filled);
}

#[test]
fn test_paint_line_background_flag() {
    let mut l = Line::new("ab".to_string());
    l.paint_line_background(&Color::Rgb(1, 2, 3));
    assert!(l.is_colored);
    l.paint_line_background(&Color::NoColor);
    assert!(!l.is_colored);
}

#[test]
fn test_paint_string_no_color_identity() {
    let s = "hello".to_string();
    assert_eq!(Line::paint_string_text(&s, &Color::NoColor), "hello");
    assert_eq!(Line::paint_string_background(&s, &Color::NoColor), "hello");
}

#[test]
fn test_set_string_style_empty_identity() {
    let s = "hello".to_string();
    let styles = Vec::new();
    assert_eq!(Line::set_string_style(&s, &styles), "hello");
}

#[test]
fn test_set_line_style_sets_styled_flag() {
    let mut l = filled_line("ab", 4);
    let styles = vec![pentui::Style::Bold, pentui::Style::Italic];
    l.set_line_style(&styles);
    assert!(l.is_filled);
    assert!(l.is_colored);
}

#[test]
fn test_set_line_style_empty_is_noop() {
    let mut l = Line::new("ab".to_string());
    let styles: Vec<pentui::Style> = Vec::new();
    l.set_line_style(&styles);
    assert!(!l.is_colored);
    assert!(!l.is_filled);
    assert_eq!(l.line_content.get_value().as_str(), "ab");
}

#[test]
fn test_styled_row_gets_width_correction_on_fill() {
    // With colorization forced off the styling transform hands the text back
    // unchanged, so the padded content is exact: the row still counts as
    // styled and fill applies the styled-width correction.
    colored::control::set_override(false);
    let mut l = Line::new("ab".to_string());
    l.set_line_style(&vec![pentui::Style::Bold]);
    assert!(l.is_colored);
    l.fill(&(5, 1), &LineFillMode::Center);
    let expected = format!("{}ab{}", " ".repeat(10), " ".repeat(10));
    assert_eq!(l.line_content.get_value(), &expected);
}
