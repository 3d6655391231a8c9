//! One full-height pane: an ordered sequence of rows, a filled flag, and a
//! static-widget flag that makes fill and restyle no-ops. Holds the
//! layer-level fill and merge engine.

use crate::enums::{Color, Container, LayerFillMode, LineFillMode, Style, TuiError};
use crate::line::{is_blank_line, row_merge_spec, Line};
use crate::strutil::spaces_seq;
use vstd::prelude::*;

verus! {

/// How many blank rows a layer of `len` rows needs to reach `height`, clamped
/// to zero when it is already tall enough.
pub open spec fn layer_pad(height: nat, len: nat) -> nat {
    if height >= len {
        (height - len) as nat
    } else {
        0
    }
}

/// How much of the pad goes above the content: half for `Center`, the given
/// count (clamped to the pad) for `Up`, the remainder for `Down`.
pub open spec fn above_pad(pad: nat, mode: LayerFillMode) -> nat {
    match mode {
        LayerFillMode::Center => pad / 2,
        LayerFillMode::Up(n) => if n as nat <= pad {
            n as nat
        } else {
            pad
        },
        LayerFillMode::Down(n) => (pad - if n as nat <= pad {
            n as nat
        } else {
            pad
        }) as nat,
    }
}

/// The row-level transparency rule lifted to whole panes: row `i` of the
/// result is the merge of row `i` of the top layer over row `i` of the bottom
/// layer.
pub open spec fn merge_layer_spec(a: Seq<Seq<char>>, b: Seq<Seq<char>>) -> Seq<Seq<char>> {
    Seq::new(a.len(), |i: int| row_merge_spec(a[i], b[i]))
}

/// Rows `a` carry the same text and the same flags as rows `b`, position by
/// position: what survives a clone, whose strings are fresh values.
pub open spec fn lines_equiv(a: Seq<Line>, b: Seq<Line>) -> bool {
    &&& a.len() == b.len()
    &&& forall|i: int|
        0 <= i < a.len() ==> (#[trigger] a[i])@ == b[i]@ && a[i].is_filled == b[i].is_filled
            && a[i].is_colored == b[i].is_colored
}

#[derive(Debug)]
pub struct Layer {
    pub layer_lines: Container<Vec<Line>>,
    pub is_filled: bool,
    pub is_widget: bool,
}

impl View for Layer {
    type V = Seq<Seq<char>>;

    open spec fn view(&self) -> Seq<Seq<char>> {
        Seq::new(self.rows().len(), |i: int| self.rows()[i]@)
    }
}

impl Clone for Layer {
    fn clone(&self) -> (res: Self)
        ensures
            lines_equiv(res.rows(), self.rows()),
            res.is_filled == self.is_filled,
            res.is_widget == self.is_widget,
            res@ == self@,
    {
        let mut lines: Vec<Line> = Vec::new();
        let src = self.layer_lines.get_value();
        let mut i: usize = 0;
        while i < src.len()
            invariant
                i <= src@.len(),
                src@ == self.rows(),
                lines@.len() == i,
                forall|j: int|
                    0 <= j < i ==> (#[trigger] lines@[j])@ == self.rows()[j]@
                        && lines@[j].is_filled == self.rows()[j].is_filled
                        && lines@[j].is_colored == self.rows()[j].is_colored,
            decreases src@.len() - i,
        {
            lines.push(src[i].clone());
            i = i + 1;
        }
        let res = Layer {
            layer_lines: Container::Ref(lines),
            is_filled: self.is_filled,
            is_widget: self.is_widget,
        };
        proof {
            assert(res@ =~~= self@);
        }
        res
    }
}

impl Layer {
    /// The layer's rows, top of the screen first.
    pub open spec fn rows(&self) -> Seq<Line> {
        self.layer_lines.spec_value()@
    }

    /// Every row of the layer has been filled; a merge requires this of the
    /// top operand's rows.
    pub open spec fn rows_all_filled(&self) -> bool {
        forall|i: int| 0 <= i < self.rows().len() ==> self.rows()[i].is_filled
    }

    /// The layer can stand in a merge against a terminal of this height: it
    /// is filled, spans exactly `height` rows, and every row is filled.
    pub open spec fn ready_spec(&self, height: nat) -> bool {
        &&& self.is_filled
        &&& self.rows().len() == height
        &&& self.rows_all_filled()
    }

    /// Checks `ready_spec` at run time, for a host that must test the
    /// compositing precondition before it calls.
    pub fn ready_for_merge(&self, height: usize) -> (r: bool)
        ensures
            r == self.ready_spec(height as nat),
    {
        if !self.is_filled {
            return false;
        }
        let v = self.layer_lines.get_value();
        if v.len() != height {
            return false;
        }
        let mut i: usize = 0;
        while i < v.len()
            invariant
                i <= v@.len(),
                v@ == self.rows(),
                forall|j: int| 0 <= j < i ==> (#[trigger] self.rows()[j]).is_filled,
            decreases v@.len() - i,
        {
            if !v[i].is_filled {
                return false;
            }
            i = i + 1;
        }
        true
    }

    /// A fresh, unfilled content layer.
    pub fn new(lines: Vec<Line>) -> (res: Self)
        ensures
            res.rows() == lines@,
            !res.is_filled,
            !res.is_widget,
    {
        Self { layer_lines: Container::Ref(lines), is_filled: false, is_widget: false }
    }

    /// Marks the layer as a static widget: its content is authoritative, so
    /// fill and restyle become no-ops.
    pub fn new_static_widget(&mut self)
        ensures
            *final(self) == (Layer { is_widget: true, ..*old(self) }),
    {
        self.is_widget = true
    }

    /// Replaces the rows; the flags stay as they are.
    pub fn set(&mut self, lines: Vec<Line>)
        ensures
            final(self).rows() == lines@,
            final(self).is_filled == old(self).is_filled,
            final(self).is_widget == old(self).is_widget,
    {
        self.layer_lines = Container::Ref(lines);
    }

    /// Pads the layer with blank, pre-filled rows up to the terminal height,
    /// distributed per `fill_mode`; a no-op on an already-filled layer, and on
    /// a widget layer only the filled flag is set.
    pub fn fill(&mut self, terminal_size: &(u16, u16), fill_mode: &LayerFillMode)
        ensures
            old(self).is_filled ==> *final(self) == *old(self),
            !old(self).is_filled && old(self).is_widget ==> *final(self) == (Layer {
                is_filled: true,
                ..*old(self)
            }),
            !old(self).is_filled && !old(self).is_widget ==> {
                let pad = layer_pad(terminal_size.1 as nat, old(self).rows().len());
                let above = above_pad(pad, *fill_mode);
                &&& final(self).rows().len() == old(self).rows().len() + pad
                &&& forall|i: int|
                    0 <= i < above ==> is_blank_line(
                        #[trigger] final(self).rows()[i],
                        terminal_size.0 as nat,
                    )
                &&& forall|i: int|
                    above <= i < above + old(self).rows().len() ==> #[trigger] final(self).rows()[i]
                        == old(self).rows()[i - above]
                &&& forall|i: int|
                    above + old(self).rows().len() <= i < final(self).rows().len()
                        ==> is_blank_line(#[trigger] final(self).rows()[i], terminal_size.0 as nat)
                &&& final(self).is_filled
                &&& !final(self).is_widget
            },
    {
        if self.is_filled {
            return ;
        }
        if self.is_widget {
            self.is_filled = true;
            return ;
        }
        let height = terminal_size.1 as usize;
        let len = self.layer_lines.get_value().len();
        let pad = if height >= len {
            height - len
        } else {
            0
        };
        let above: usize = match fill_mode {
            LayerFillMode::Center => pad / 2,
            LayerFillMode::Up(n) => if *n <= pad {
                *n
            } else {
                pad
            },
            LayerFillMode::Down(n) => pad - (if *n <= pad {
                *n
            } else {
                pad
            }),
        };
        let below: usize = pad - above;
        let mut blank = Line::new(String::new());
        blank.fill(terminal_size, &LineFillMode::Center);
        proof {
            assert(blank@ =~= spaces_seq(terminal_size.0 as nat));
            assert(is_blank_line(blank, terminal_size.0 as nat));
        }
        let ghost original_rows = self.rows();
        let mut i: usize = 0;
        while i < above
            invariant
                i <= above,
                is_blank_line(blank, terminal_size.0 as nat),
                self.rows().len() == original_rows.len() + i,
                forall|j: int|
                    0 <= j < i ==> is_blank_line(#[trigger] self.rows()[j], terminal_size.0 as nat),
                forall|j: int|
                    i <= j < self.rows().len() ==> #[trigger] self.rows()[j] == original_rows[j
                        - i],
                self.is_filled == old(self).is_filled,
                self.is_widget == old(self).is_widget,
            decreases above - i,
        {
            let v = self.layer_lines.get_mut_value();
            v.insert(0, blank.clone());
            i = i + 1;
        }
        let mut k: usize = 0;
        while k < below
            invariant
                k <= below,
                is_blank_line(blank, terminal_size.0 as nat),
                self.rows().len() == original_rows.len() + above + k,
                forall|j: int|
                    0 <= j < above ==> is_blank_line(
                        #[trigger] self.rows()[j],
                        terminal_size.0 as nat,
                    ),
                forall|j: int|
                    above <= j < above + original_rows.len() ==> #[trigger] self.rows()[j]
                        == original_rows[j - above],
                forall|j: int|
                    above + original_rows.len() <= j < self.rows().len() ==> is_blank_line(
                        #[trigger] self.rows()[j],
                        terminal_size.0 as nat,
                    ),
                self.is_filled == old(self).is_filled,
                self.is_widget == old(self).is_widget,
            decreases below - k,
        {
            let v = self.layer_lines.get_mut_value();
            v.push(blank.clone());
            k = k + 1;
        }
        self.is_filled = true;
    }

    /// Composites this (filled) layer over `other_layer`, row by row, per the
    /// transparency rule; both layers must span the terminal height.
    pub fn merge(&self, other_layer: &Layer, terminal_size: &(u16, u16)) -> (r: Result<
        Layer,
        TuiError,
    >)
        requires
            self.rows().len() == terminal_size.1 as nat,
            other_layer.rows().len() == terminal_size.1 as nat,
        ensures
            !self.is_filled || !other_layer.is_filled ==> r == Err::<Layer, TuiError>(
                TuiError::PreconditionViolation,
            ),
            self.is_filled && other_layer.is_filled && !self.rows_all_filled() ==> r == Err::<
                Layer,
                TuiError,
            >(TuiError::PreconditionViolation),
            self.is_filled && other_layer.is_filled && self.rows_all_filled() ==> (r matches Ok(l)
                && l@ == merge_layer_spec(self@, other_layer@) && l.rows().len()
                == terminal_size.1 as nat && l.is_filled && !l.is_widget && l.rows_all_filled()),
    {
        if !self.is_filled || !other_layer.is_filled {
            return Err(TuiError::PreconditionViolation);
        }
        let height = terminal_size.1 as usize;
        let a = self.layer_lines.get_value();
        let b = other_layer.layer_lines.get_value();
        let mut out: Vec<Line> = Vec::new();
        let mut i: usize = 0;
        while i < height
            invariant
                i <= height,
                height == terminal_size.1 as nat,
                a@ == self.rows(),
                b@ == other_layer.rows(),
                a@.len() == height,
                b@.len() == height,
                out@.len() == i,
                forall|j: int| 0 <= j < i ==> (#[trigger] self.rows()[j]).is_filled,
                forall|j: int|
                    0 <= j < i ==> (#[trigger] out@[j])@ == row_merge_spec(
                        self.rows()[j]@,
                        other_layer.rows()[j]@,
                    ),
                forall|j: int| 0 <= j < i ==> (#[trigger] out@[j]).is_filled,
            decreases height - i,
        {
            match a[i].merge(&b[i]) {
                Ok(l) => {
                    out.push(l);
                },
                Err(e) => {
                    return Err(e);
                },
            }
            i = i + 1;
        }
        let res = Layer { layer_lines: Container::Ref(out), is_filled: true, is_widget: false };
        proof {
            assert(res@ =~~= merge_layer_spec(self@, other_layer@));
        }
        Ok(res)
    }

    /// Recolors every row's glyphs and tracks each row's styled flag; a no-op
    /// on a widget layer, whose content is authoritative.
    pub fn paint_layer_text(&mut self, color: &Color)
        ensures
            old(self).is_widget ==> *final(self) == *old(self),
            !old(self).is_widget ==> {
                &&& final(self).rows().len() == old(self).rows().len()
                &&& forall|i: int|
                    0 <= i < old(self).rows().len() ==> (#[trigger] final(self).rows()[i]).is_filled
                        == old(self).rows()[i].is_filled
                &&& forall|i: int|
                    0 <= i < old(self).rows().len() ==> (#[trigger] final(self).rows()[i]).is_colored == !(color matches Color::NoColor)
                &&& final(self).is_filled == old(self).is_filled
                &&& final(self).is_widget == old(self).is_widget
            },
    {
        if self.is_widget {
            return ;
        }
        let v = self.layer_lines.get_mut_value();
        let mut i: usize = 0;
        while i < v.len()
            invariant
                i <= v@.len(),
                v@.len() == old(self).rows().len(),
                forall|j: int|
                    i <= j < v@.len() ==> #[trigger] v@[j] == old(self).rows()[j],
                forall|j: int|
                    0 <= j < i ==> (#[trigger] v@[j]).is_filled == old(self).rows()[j].is_filled,
                forall|j: int|
                    0 <= j < i ==> (#[trigger] v@[j]).is_colored == !(color
                        matches Color::NoColor),
            decreases v@.len() - i,
        {
            v[i].paint_line_text(color);
            i = i + 1;
        }
    }

    /// Recolors every row's background and tracks each row's styled flag; a
    /// no-op on a widget layer.
    pub fn paint_layer_background(&mut self, color: &Color)
        ensures
            old(self).is_widget ==> *final(self) == *old(self),
            !old(self).is_widget ==> {
                &&& final(self).rows().len() == old(self).rows().len()
                &&& forall|i: int|
                    0 <= i < old(self).rows().len() ==> (#[trigger] final(self).rows()[i]).is_filled
                        == old(self).rows()[i].is_filled
                &&& forall|i: int|
                    0 <= i < old(self).rows().len() ==> (#[trigger] final(self).rows()[i]).is_colored == !(color matches Color::NoColor)
                &&& final(self).is_filled == old(self).is_filled
                &&& final(self).is_widget == old(self).is_widget
            },
    {
        if self.is_widget {
            return ;
        }
        let v = self.layer_lines.get_mut_value();
        let mut i: usize = 0;
        while i < v.len()
            invariant
                i <= v@.len(),
                v@.len() == old(self).rows().len(),
                forall|j: int|
                    i <= j < v@.len() ==> #[trigger] v@[j] == old(self).rows()[j],
                forall|j: int|
                    0 <= j < i ==> (#[trigger] v@[j]).is_filled == old(self).rows()[j].is_filled,
                forall|j: int|
                    0 <= j < i ==> (#[trigger] v@[j]).is_colored == !(color
                        matches Color::NoColor),
            decreases v@.len() - i,
        {
            v[i].paint_line_background(color);
            i = i + 1;
        }
    }

    /// Applies the requested styles to every row, which then counts as
    /// styled; a no-op on a widget layer or for an empty request.
    pub fn set_layer_style(&mut self, style: &Vec<Style>)
        ensures
            old(self).is_widget ==> *final(self) == *old(self),
            !old(self).is_widget && style@.len() == 0 ==> *final(self) == *old(self),
            !old(self).is_widget && style@.len() > 0 ==> {
                &&& final(self).rows().len() == old(self).rows().len()
                &&& forall|i: int|
                    0 <= i < old(self).rows().len() ==> (#[trigger] final(self).rows()[i]).is_filled
                        == old(self).rows()[i].is_filled && final(self).rows()[i].is_colored
                &&& final(self).is_filled == old(self).is_filled
                &&& final(self).is_widget == old(self).is_widget
            },
    {
        if self.is_widget {
            return ;
        }
        if style.len() == 0 {
            return ;
        }
        let v = self.layer_lines.get_mut_value();
        let mut i: usize = 0;
        while i < v.len()
            invariant
                i <= v@.len(),
                style@.len() > 0,
                v@.len() == old(self).rows().len(),
                forall|j: int|
                    i <= j < v@.len() ==> #[trigger] v@[j] == old(self).rows()[j],
                forall|j: int|
                    0 <= j < i ==> (#[trigger] v@[j]).is_filled == old(self).rows()[j].is_filled
                        && v@[j].is_colored,
            decreases v@.len() - i,
        {
            v[i].set_line_style(style);
            i = i + 1;
        }
    }

    /// Bounds-checked mutable access to one row; an index beyond the rows is
    /// reported, not fatal.
    pub fn manipulate_line(&mut self, index: usize) -> (r: Result<&mut Line, TuiError>)
        ensures
            index >= old(self).rows().len() ==> (r matches Err(e) && e
                == TuiError::IndexOutOfBounds && *final(self) == *old(self)),
            index < old(self).rows().len() ==> (r matches Ok(l) && *l == old(self).rows()[
                index as int
            ] && final(self).rows() == old(self).rows().update(index as int, *final(l))
                && final(self).is_filled == old(self).is_filled && final(self).is_widget == old(
                self,
            ).is_widget),
    {
        if index >= self.layer_lines.get_value().len() {
            return Err(TuiError::IndexOutOfBounds);
        }
        let v = self.layer_lines.get_mut_value();
        Ok(&mut v[index])
    }
}

/// Law: filling never loses rows and lands exactly on the target height. For
/// a layer no taller than the terminal, the filled layer's row count is
/// exactly the terminal height, whatever the mode.
pub proof fn lemma_layer_fill_exact(len: nat, height: nat, mode: LayerFillMode)
    requires
        len <= height,
    ensures
        len + layer_pad(height, len) == height,
        above_pad(layer_pad(height, len), mode) <= layer_pad(height, len),
{
}

/// Law: `Center` mode splits the blank rows so that the counts above and
/// below the content differ by at most one, and together make up the pad.
pub proof fn lemma_layer_fill_center_balanced(pad: nat)
    ensures
        above_pad(pad, LayerFillMode::Center) + (pad - above_pad(pad, LayerFillMode::Center))
            == pad,
        (pad - above_pad(pad, LayerFillMode::Center)) - above_pad(pad, LayerFillMode::Center) <= 1,
{
}

} // verus!
