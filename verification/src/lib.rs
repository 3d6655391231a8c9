//! A terminal-rendering engine: a z-stack of text layers is padded to the
//! terminal's dimensions and composited into a single frame, where a space
//! glyph is transparent and the topmost non-space glyph at a column wins.

mod enums;
mod frame_controller;
mod layer;
mod line;
mod stack;
mod strutil;
mod styling;

pub use enums::Color;
pub use enums::Container;
pub use enums::LayerFillMode;
pub use enums::LineFillMode;
pub use enums::ManagmentMode;
pub use enums::Style;
pub use enums::TuiError;
pub use frame_controller::{FrameController, fold_layers, stack_view, split_fold_spec, size_violation, concat_rows, frame_text_spec};
pub use layer::{Layer, layer_pad, above_pad, merge_layer_spec, lines_equiv, lemma_layer_fill_exact, lemma_layer_fill_center_balanced};
pub use line::{Line, STYLED_PAD_CORRECTION, line_pad, lead_pad, row_fill_spec, row_merge_spec, is_blank_line, lemma_row_fill_exact, lemma_row_fill_center_balanced, lemma_row_transparency};
pub use stack::{fold_stack_spec, rect_layer, stack_rect, composite_cell, lemma_fold_cellwise, lemma_fold_split, lemma_fold_priority};
pub use strutil::spaces_seq;
