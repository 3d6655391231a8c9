use pentui::{
    fold_layers, FrameController, Layer, LayerFillMode, Line, LineFillMode, ManagmentMode,
    TuiError,
};

fn filled_line(s: &str, width: u16) -> Line {
    let mut l = Line::new(s.to_string());
    l.fill(&(width, 1), &LineFillMode::Center);
    l
}

fn filled_layer(rows: &[&str], size: (u16, u16)) -> Layer {
    let mut lines = Vec::new();
    for r in rows {
        lines.push(filled_line(r, size.0));
    }
    let mut layer = Layer::new(lines);
    layer.fill(&size, &LayerFillMode::Center);
    layer
}

fn result_row(c: &FrameController, i: usize) -> String {
    c.result_frame.layer_lines.get_value()[i].line_content.get_value().clone()
}

#[test]
fn test_new_defaults() {
    let c = FrameController::new();
    assert_eq!(c.delay_ms, 0);
    assert_eq!(*c.terminal_size.get_value(), (0, 0));
    assert_eq!(c.content_layers.get_value().len(), 0);
    assert!(matches!(c.terminal_size_management, ManagmentMode::Auto));
}

#[test]
fn test_set_values() {
    let mut c = FrameController::new();
    c.set_values(Some(40), Some(vec![Layer::new(vec![])]));
    assert_eq!(c.delay_ms, 40);
    assert_eq!(c.content_layers.get_value().len(), 1);
    c.set_values(None, None);
    assert_eq!(c.delay_ms, 40);
    assert_eq!(c.content_layers.get_value().len(), 1);
}

#[test]
fn test_scenario_three_layers() {
    let size = (3, 3);
    let layer0 = filled_layer(&["AAA", "AAA", "AAA"], size);
    let layer1 = filled_layer(&["B B", "   ", " B "], size);
    let layer2 = filled_layer(&[" C ", "   ", "   "], size);
    let mut c = FrameController::new();
    c.set_terminal_size(size);
    c.set_values(None, Some(vec![layer0, layer1, layer2]));
    c.merge_layers().unwrap();
    // Per the transparency rule, column 2 of row 0 shows layer1's 'B'
    // (layer2 is transparent there and layer1 is not).
    assert_eq!(result_row(&c, 0), "BCB");
    assert_eq!(result_row(&c, 1), "AAA");
    assert_eq!(result_row(&c, 2), "ABA");
}

#[test]
fn test_split_fold_equals_sequential() {
    let size = (4, 2);
    let rows: [[&str; 2]; 5] = [
        ["AAAA", "AAAA"],
        ["B  B", "    "],
        ["  C ", " C  "],
        ["    ", "D   "],
        ["E   ", "   E"],
    ];
    let mut layers = Vec::new();
    for r in &rows {
        layers.push(filled_layer(&r[..], size));
    }
    let mut sequential = layers[0].clone();
    for layer in layers.iter().skip(1) {
        sequential = layer.merge(&sequential, &size).unwrap();
    }
    let mut c = FrameController::new();
    c.set_terminal_size(size);
    c.set_values(None, Some(layers));
    c.merge_layers().unwrap();
    for i in 0..2 {
        assert_eq!(
            result_row(&c, i),
            layer_row(&sequential, i),
            "split fold differs from the sequential scan"
        );
    }
}

fn layer_row(layer: &Layer, i: usize) -> String {
    layer.layer_lines.get_value()[i].line_content.get_value().clone()
}

#[test]
fn test_priority_single_visible_glyph() {
    let size = (3, 1);
    let layer0 = filled_layer(&[" Z "], size);
    let layer1 = filled_layer(&["   "], size);
    let layer2 = filled_layer(&["   "], size);
    let mut c = FrameController::new();
    c.set_terminal_size(size);
    c.set_values(None, Some(vec![layer0, layer1, layer2]));
    c.merge_layers().unwrap();
    assert_eq!(result_row(&c, 0), " Z ");
}

#[test]
fn test_merge_layers_empty_stack_errors() {
    let mut c = FrameController::new();
    c.set_terminal_size((3, 3));
    assert_eq!(c.merge_layers().unwrap_err(), TuiError::PreconditionViolation);
}

#[test]
fn test_merge_layers_unfilled_layer_errors() {
    let size = (3, 1);
    let filled = filled_layer(&["A A"], size);
    let unfilled = Layer::new(vec![filled_line("B", 3)]);
    let mut c = FrameController::new();
    c.set_terminal_size(size);
    c.set_values(None, Some(vec![filled, unfilled]));
    assert_eq!(c.merge_layers().unwrap_err(), TuiError::PreconditionViolation);
}

#[test]
fn test_fold_layers_single_range() {
    let size = (3, 1);
    let layers = vec![filled_layer(&["A A"], size), filled_layer(&[" B "], size)];
    let low = fold_layers(&layers, 0, 0, &size);
    assert_eq!(layer_row(&low, 0), "A A");
    let all = fold_layers(&layers, 0, 1, &size);
    assert_eq!(layer_row(&all, 0), "ABA");
}

#[test]
fn test_bounds_manual_policy() {
    let mut c = FrameController::new();
    c.size_managment_mode(ManagmentMode::Manual(5, 50));
    c.set_terminal_size((4, 20));
    assert_eq!(c.draw().unwrap_err(), TuiError::TerminalTooSmall);
    c.set_terminal_size((20, 51));
    assert_eq!(c.draw().unwrap_err(), TuiError::TerminalTooLarge);
    c.set_terminal_size((20, 20));
    assert!(c.draw().is_ok());
}

#[test]
fn test_bounds_auto_policy() {
    let mut c = FrameController::new();
    c.set_terminal_size((10, 20));
    assert_eq!(c.draw().unwrap_err(), TuiError::TerminalTooSmall);
    c.set_terminal_size((20, 10));
    assert_eq!(c.draw().unwrap_err(), TuiError::TerminalTooSmall);
    c.set_terminal_size((11, 11));
    assert!(c.draw().is_ok());
}

#[test]
fn test_draw_first_row_line_terminated() {
    let mut c = FrameController::new();
    c.set_terminal_size((12, 12));
    c.result_frame = Layer::new(vec![
        Line::new("AB".to_string()),
        Line::new("CD".to_string()),
        Line::new("EF".to_string()),
    ]);
    assert_eq!(c.draw().unwrap(), "AB\nCDEF");
}

#[test]
fn test_draw_empty_frame() {
    let mut c = FrameController::new();
    c.set_terminal_size((12, 12));
    assert_eq!(c.draw().unwrap(), "");
}

#[test]
fn test_manipulate_layer_bounds() {
    let mut c = FrameController::new();
    c.set_values(None, Some(vec![Layer::new(vec![])]));
    assert_eq!(c.manipulate_layer(1).unwrap_err(), TuiError::IndexOutOfBounds);
    {
        let layer = c.manipulate_layer(0).unwrap();
        layer.set(vec![Line::new("x".to_string())]);
    }
    assert_eq!(
        c.content_layers.get_value()[0].layer_lines.get_value().len(),
        1
    );
}

#[test]
fn test_result_frame_restyle_flags() {
    let size = (3, 1);
    let mut c = FrameController::new();
    c.set_terminal_size(size);
    c.set_values(None, Some(vec![filled_layer(&["A A"], size)]));
    c.merge_layers().unwrap();
    c.paint_result_layer_line(&pentui::Color::NoColor);
    assert!(!c.result_frame.layer_lines.get_value()[0].is_colored);
    c.paint_result_layer_background(&pentui::Color::Green);
    assert!(c.result_frame.layer_lines.get_value()[0].is_colored);
}

#[test]
fn test_result_frame_style_sets_row_flags() {
    let size = (3, 1);
    let mut c = FrameController::new();
    c.set_terminal_size(size);
    c.set_values(None, Some(vec![filled_layer(&["A A"], size)]));
    c.merge_layers().unwrap();
    c.paint_result_layer_line(&pentui::Color::NoColor);
    assert!(!c.result_frame.layer_lines.get_value()[0].is_colored);
    c.set_result_layer_style(&vec![pentui::Style::Bold]);
    assert!(c.result_frame.layer_lines.get_value()[0].is_colored);
}
