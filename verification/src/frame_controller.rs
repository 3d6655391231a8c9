//! The frame controller: owns the z-stack of layers, the terminal dimension
//! state, the size-management policy and the most recently composited frame.
//! Orchestrates fill, the two-path compositing fold, bounds validation and
//! the emitted text.

use crate::enums::{Color, Container, ManagmentMode, Style, TuiError};
use crate::layer::{merge_layer_spec, Layer};
use crate::stack::{fold_stack_spec, lemma_fold_split, stack_rect};
use vstd::pervasive::unreached;
use vstd::prelude::*;
use vstd::string::StringExecFns;

verus! {

/// The z-stack as a sequence of layer views, bottom first.
pub open spec fn stack_view(layers: Seq<Layer>) -> Seq<Seq<Seq<char>>> {
    Seq::new(layers.len(), |i: int| layers[i]@)
}

/// What the two-path fold computes: the lower and upper halves of the stack
/// folded independently and joined with one merge, the upper half as the top
/// operand. For a stack whose upper half would be empty this is the plain
/// sequential scan.
pub open spec fn split_fold_spec(sv: Seq<Seq<Seq<char>>>) -> Seq<Seq<char>> {
    let mid = sv.len() as int / 2;
    if mid + 1 < sv.len() {
        merge_layer_spec(
            fold_stack_spec(sv.subrange(mid + 1, sv.len() as int)),
            fold_stack_spec(sv.subrange(0, mid + 1)),
        )
    } else {
        fold_stack_spec(sv)
    }
}

/// Which failure, if any, the size-management policy assigns to the current
/// terminal dimensions; the upper bound is tested first, as the render loop
/// does.
pub open spec fn size_violation(mode: ManagmentMode, size: (u16, u16)) -> Option<TuiError> {
    match mode {
        ManagmentMode::Auto => if size.0 <= 10 || size.1 <= 10 {
            Some(TuiError::TerminalTooSmall)
        } else {
            None
        },
        ManagmentMode::Manual(min, max) => if size.0 >= max || size.1 >= max {
            Some(TuiError::TerminalTooLarge)
        } else if size.0 <= min || size.1 <= min {
            Some(TuiError::TerminalTooSmall)
        } else {
            None
        },
    }
}

/// The rows of a frame, one after the other: what follows the first row in
/// the emitted text.
pub open spec fn concat_rows(rows: Seq<Seq<char>>) -> Seq<char>
    decreases rows.len(),
{
    if rows.len() == 0 {
        Seq::empty()
    } else {
        rows[0] + concat_rows(rows.drop_first())
    }
}

/// The text one frame emits: the first row line-terminated, every later row
/// written without a terminator.
pub open spec fn frame_text_spec(rows: Seq<Seq<char>>) -> Seq<char> {
    if rows.len() == 0 {
        Seq::empty()
    } else {
        rows[0] + seq!['\n'] + concat_rows(rows.drop_first())
    }
}

proof fn lemma_concat_rows_snoc(rows: Seq<Seq<char>>, r: Seq<char>)
    ensures
        concat_rows(rows.push(r)) == concat_rows(rows) + r,
    decreases rows.len(),
{
    if rows.len() == 0 {
        assert(rows.push(r).drop_first() =~= rows);
        assert(concat_rows(rows.push(r)) =~= concat_rows(rows) + r);
    } else {
        assert(rows.push(r).drop_first() =~= rows.drop_first().push(r));
        lemma_concat_rows_snoc(rows.drop_first(), r);
        assert(concat_rows(rows.push(r)) =~= concat_rows(rows) + r);
    }
}

/// Folds the layers at indices `lo` through `hi` (inclusive) into one layer,
/// by the sequential scan: each layer composited over the accumulated result
/// of the ones below it. Every layer in the range must be ready (filled, of
/// terminal height, every row filled); a host that runs the two halves on
/// separate execution paths calls this once per half.
pub fn fold_layers(layers: &Vec<Layer>, lo: usize, hi: usize, terminal_size: &(u16, u16)) -> (r:
    Layer)
    requires
        lo <= hi < layers@.len(),
        forall|i: int|
            lo <= i <= hi ==> (#[trigger] layers@[i]).ready_spec(terminal_size.1 as nat),
    ensures
        r@ == fold_stack_spec(stack_view(layers@).subrange(lo as int, hi + 1)),
        r.ready_spec(terminal_size.1 as nat),
{
    let ghost sv = stack_view(layers@);
    let n = layers.len();
    let mut acc = layers[lo].clone();
    proof {
        assert(sv.subrange(lo as int, lo + 1).len() == 1);
        assert(sv.subrange(lo as int, lo + 1)[0] == sv[lo as int]);
        assert(acc@ == fold_stack_spec(sv.subrange(lo as int, lo + 1)));
    }
    let mut i: usize = lo + 1;
    while i <= hi
        invariant
            lo < i <= hi + 1,
            hi < n,
            n == layers@.len(),
            sv == stack_view(layers@),
            forall|k: int|
                lo <= k <= hi ==> (#[trigger] layers@[k]).ready_spec(terminal_size.1 as nat),
            acc@ == fold_stack_spec(sv.subrange(lo as int, i as int)),
            acc.ready_spec(terminal_size.1 as nat),
        decreases hi + 1 - i,
    {
        let merged = match layers[i].merge(&acc, terminal_size) {
            Ok(l) => l,
            Err(_) => unreached(),
        };
        proof {
            let t = sv.subrange(lo as int, i + 1);
            assert(t.last() == sv[i as int]);
            assert(t.drop_last() =~= sv.subrange(lo as int, i as int));
            assert(merged@ == merge_layer_spec(sv[i as int], acc@));
        }
        acc = merged;
        i = i + 1;
    }
    acc
}

pub struct FrameController {
    pub content_layers: Container<Vec<Layer>>,
    pub delay_ms: u64,
    pub terminal_size: Container<(u16, u16)>,
    pub terminal_size_management: ManagmentMode,
    pub result_frame: Layer,
}

impl FrameController {
    /// The z-stack, bottom first.
    pub open spec fn layers(&self) -> Seq<Layer> {
        self.content_layers.spec_value()@
    }

    /// The terminal height the stack is composited against.
    pub open spec fn spec_height(&self) -> nat {
        self.terminal_size.spec_value().1 as nat
    }

    /// The stack can be composited: it is non-empty and every layer is ready.
    pub open spec fn stack_ready(&self) -> bool {
        &&& self.layers().len() > 0
        &&& forall|i: int|
            0 <= i < self.layers().len() ==> (#[trigger] self.layers()[i]).ready_spec(
                self.spec_height(),
            )
    }

    /// A fresh controller: empty stack, no pacing delay, zero terminal size
    /// (the host sets the real one), automatic size management, empty result
    /// frame.
    pub fn new() -> (res: Self)
        ensures
            res.layers().len() == 0,
            res.delay_ms == 0,
            res.terminal_size.spec_value() == (0u16, 0u16),
            res.terminal_size_management is Auto,
            res.result_frame.rows().len() == 0,
            !res.result_frame.is_filled,
            !res.result_frame.is_widget,
    {
        Self {
            content_layers: Container::Ref(Vec::new()),
            delay_ms: 0,
            terminal_size: Container::Ref((0, 0)),
            terminal_size_management: ManagmentMode::Auto,
            result_frame: Layer::new(Vec::new()),
        }
    }

    /// Replaces the pacing delay and/or the content layers; an absent value
    /// keeps what is there.
    pub fn set_values(&mut self, delay_ms: Option<u64>, content_layers: Option<Vec<Layer>>)
        ensures
            final(self).delay_ms == (if delay_ms is Some {
                delay_ms->0
            } else {
                old(self).delay_ms
            }),
            final(self).layers() == (if content_layers is Some {
                content_layers->0@
            } else {
                old(self).layers()
            }),
            final(self).terminal_size == old(self).terminal_size,
            final(self).terminal_size_management == old(self).terminal_size_management,
            final(self).result_frame == old(self).result_frame,
    {
        match content_layers {
            Some(c) => {
                self.content_layers = Container::Ref(c);
            },
            None => (),
        }
        match delay_ms {
            Some(d) => {
                self.delay_ms = d;
            },
            None => (),
        }
    }

    /// Selects the size-management policy consulted on every draw.
    pub fn size_managment_mode(&mut self, mode: ManagmentMode)
        ensures
            *final(self) == (FrameController { terminal_size_management: mode, ..*old(self) }),
    {
        self.terminal_size_management = mode;
    }

    /// Overrides the terminal dimensions the engine fills and validates
    /// against.
    pub fn set_terminal_size(&mut self, size: (u16, u16))
        ensures
            *final(self) == (FrameController {
                terminal_size: Container::Ref(size),
                ..*old(self)
            }),
    {
        *self.terminal_size.get_mut_value() = size;
    }

    /// Composites the whole z-stack into the result frame, as two partial
    /// folds over disjoint halves joined by one merge; on a rectangular stack
    /// this equals the sequential left-to-right scan. Fails, leaving the
    /// controller untouched, exactly when the stack is empty or some layer is
    /// not ready.
    pub fn merge_layers(&mut self) -> (r: Result<(), TuiError>)
        ensures
            !old(self).stack_ready() ==> r == Err::<(), TuiError>(TuiError::PreconditionViolation)
                && *final(self) == *old(self),
            old(self).stack_ready() ==> {
                let sv = stack_view(old(self).layers());
                &&& r == Ok::<(), TuiError>(())
                &&& *final(self) == (FrameController {
                    result_frame: final(self).result_frame,
                    ..*old(self)
                })
                &&& final(self).result_frame@ == split_fold_spec(sv)
                &&& forall|w: nat|
                    stack_rect(sv, old(self).spec_height(), w) ==> final(self).result_frame@
                        == fold_stack_spec(sv)
                &&& final(self).result_frame.ready_spec(old(self).spec_height())
            },
    {
        let ghost sv = stack_view(old(self).layers());
        let terminal_size = *self.terminal_size.get_value();
        let height = terminal_size.1 as usize;
        let layers = self.content_layers.get_value();
        let len = layers.len();
        if len == 0 {
            return Err(TuiError::PreconditionViolation);
        }
        let mut i: usize = 0;
        while i < len
            invariant
                i <= len,
                len == self.layers().len(),
                height == self.spec_height(),
                *self == *old(self),
                forall|k: int|
                    0 <= k < i ==> (#[trigger] self.layers()[k]).ready_spec(self.spec_height()),
            decreases len - i,
        {
            if !self.content_layers.get_value()[i].ready_for_merge(height) {
                return Err(TuiError::PreconditionViolation);
            }
            i = i + 1;
        }
        let mid = len / 2;
        let layers = self.content_layers.get_value();
        let fold_low = fold_layers(layers, 0, mid, &terminal_size);
        proof {
            assert(sv.subrange(0, len as int) =~= sv);
        }
        let result = if mid + 1 < len {
            let fold_high = fold_layers(layers, mid + 1, len - 1, &terminal_size);
            let joined = match fold_high.merge(&fold_low, &terminal_size) {
                Ok(l) => l,
                Err(_) => unreached(),
            };
            joined
        } else {
            fold_low
        };
        proof {
            assert forall|w: nat|
                stack_rect(sv, old(self).spec_height(), w) implies result@ == fold_stack_spec(
                sv,
            ) by {
                if mid + 1 < len {
                    lemma_fold_split(sv, mid as int, old(self).spec_height(), w);
                }
            }
        }
        self.result_frame = result;
        Ok(())
    }

    /// Validates the terminal dimensions against the active policy and, when
    /// they pass, renders the result frame as the text to emit: the first row
    /// line-terminated, every later row without a terminator.
    pub fn draw(&self) -> (r: Result<String, TuiError>)
        ensures
            size_violation(self.terminal_size_management, self.terminal_size.spec_value())
                matches Some(e) ==> r == Err::<String, TuiError>(e),
            size_violation(self.terminal_size_management, self.terminal_size.spec_value()) is None
                ==> (r matches Ok(s) && s@ == frame_text_spec(self.result_frame@)),
    {
        let size = *self.terminal_size.get_value();
        match self.terminal_size_management {
            ManagmentMode::Auto => {
                if size.0 <= 10 || size.1 <= 10 {
                    return Err(TuiError::TerminalTooSmall);
                }
            },
            ManagmentMode::Manual(min, max) => {
                if size.0 >= max || size.1 >= max {
                    return Err(TuiError::TerminalTooLarge);
                }
                if size.0 <= min || size.1 <= min {
                    return Err(TuiError::TerminalTooSmall);
                }
            },
        }
        let rows = self.result_frame.layer_lines.get_value();
        let ghost frame = self.result_frame@;
        let mut out = String::new();
        let mut i: usize = 0;
        while i < rows.len()
            invariant
                i <= rows@.len(),
                rows@ == self.result_frame.rows(),
                frame == self.result_frame@,
                i == 0 ==> out@ == Seq::<char>::empty(),
                i >= 1 ==> out@ == frame[0] + seq!['\n'] + concat_rows(frame.subrange(1, i as int)),
            decreases rows@.len() - i,
        {
            out.append(rows[i].line_content.get_value().as_str());
            if i == 0 {
                proof {
                    reveal_strlit("\n");
                }
                out.append("\n");
                proof {
                    assert(out@ =~= frame[0] + seq!['\n'] + concat_rows(
                        frame.subrange(1, 1),
                    ));
                }
            } else {
                proof {
                    assert(frame.subrange(1, i + 1) =~= frame.subrange(1, i as int).push(
                        frame[i as int],
                    ));
                    lemma_concat_rows_snoc(frame.subrange(1, i as int), frame[i as int]);
                }
            }
            i = i + 1;
        }
        proof {
            if frame.len() == 0 {
                assert(out@ =~= frame_text_spec(frame));
            } else {
                assert(frame.subrange(1, frame.len() as int) =~= frame.drop_first());
                assert(out@ =~= frame_text_spec(frame));
            }
        }
        Ok(out)
    }

    /// Recolors the result frame's glyphs.
    pub fn paint_result_layer_line(&mut self, color: &Color)
        ensures
            *final(self) == (FrameController {
                result_frame: final(self).result_frame,
                ..*old(self)
            }),
            old(self).result_frame.is_widget ==> final(self).result_frame == old(self).result_frame,
            !old(self).result_frame.is_widget ==> {
                &&& final(self).result_frame.rows().len() == old(self).result_frame.rows().len()
                &&& forall|i: int|
                    0 <= i < old(self).result_frame.rows().len() ==> (#[trigger] final(self).result_frame.rows()[i]).is_filled == old(self).result_frame.rows()[i].is_filled
                &&& forall|i: int|
                    0 <= i < old(self).result_frame.rows().len() ==> (#[trigger] final(self).result_frame.rows()[i]).is_colored == !(color matches Color::NoColor)
                &&& final(self).result_frame.is_filled == old(self).result_frame.is_filled
                &&& final(self).result_frame.is_widget == old(self).result_frame.is_widget
            },
    {
        self.result_frame.paint_layer_text(color);
    }

    /// Recolors the result frame's background.
    pub fn paint_result_layer_background(&mut self, color: &Color)
        ensures
            *final(self) == (FrameController {
                result_frame: final(self).result_frame,
                ..*old(self)
            }),
            old(self).result_frame.is_widget ==> final(self).result_frame == old(self).result_frame,
            !old(self).result_frame.is_widget ==> {
                &&& final(self).result_frame.rows().len() == old(self).result_frame.rows().len()
                &&& forall|i: int|
                    0 <= i < old(self).result_frame.rows().len() ==> (#[trigger] final(self).result_frame.rows()[i]).is_filled == old(self).result_frame.rows()[i].is_filled
                &&& forall|i: int|
                    0 <= i < old(self).result_frame.rows().len() ==> (#[trigger] final(self).result_frame.rows()[i]).is_colored == !(color matches Color::NoColor)
                &&& final(self).result_frame.is_filled == old(self).result_frame.is_filled
                &&& final(self).result_frame.is_widget == old(self).result_frame.is_widget
            },
    {
        self.result_frame.paint_layer_background(color);
    }

    /// Applies the requested styles to every row of the result frame, which
    /// then counts as styled; a no-op for an empty request.
    pub fn set_result_layer_style(&mut self, style: &Vec<Style>)
        ensures
            *final(self) == (FrameController {
                result_frame: final(self).result_frame,
                ..*old(self)
            }),
            old(self).result_frame.is_widget ==> final(self).result_frame == old(self).result_frame,
            !old(self).result_frame.is_widget && style@.len() == 0 ==> final(self).result_frame
                == old(self).result_frame,
            !old(self).result_frame.is_widget && style@.len() > 0 ==> {
                &&& final(self).result_frame.rows().len() == old(self).result_frame.rows().len()
                &&& forall|i: int|
                    0 <= i < old(self).result_frame.rows().len() ==> (#[trigger] final(self).result_frame.rows()[i]).is_filled == old(self).result_frame.rows()[i].is_filled
                        && final(self).result_frame.rows()[i].is_colored
                &&& final(self).result_frame.is_filled == old(self).result_frame.is_filled
                &&& final(self).result_frame.is_widget == old(self).result_frame.is_widget
            },
    {
        self.result_frame.set_layer_style(style);
    }

    /// Bounds-checked mutable access to one layer of the z-stack; an index
    /// beyond the stack is reported, not fatal.
    pub fn manipulate_layer(&mut self, index: usize) -> (r: Result<&mut Layer, TuiError>)
        ensures
            index >= old(self).layers().len() ==> (r matches Err(e) && e
                == TuiError::IndexOutOfBounds && *final(self) == *old(self)),
            index < old(self).layers().len() ==> (r matches Ok(l) && *l == old(self).layers()[
                index as int
            ] && final(self).layers() == old(self).layers().update(index as int, *final(l))
                && final(self).delay_ms == old(self).delay_ms && final(self).terminal_size == old(self).terminal_size && final(self).terminal_size_management == old(self).terminal_size_management && final(self).result_frame == old(self).result_frame),
    {
        if index >= self.content_layers.get_value().len() {
            return Err(TuiError::IndexOutOfBounds);
        }
        let v = self.content_layers.get_mut_value();
        Ok(&mut v[index])
    }
}

} // verus!
