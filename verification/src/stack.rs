//! The z-stack compositing fold at the level of views, and the laws that let
//! the scan be split: the transparency rule is associative, so folding two
//! halves of the stack independently and joining them equals the sequential
//! left-to-right scan.

use crate::layer::merge_layer_spec;
use crate::line::row_merge_spec;
use vstd::prelude::*;

verus! {

/// The sequential scan of a z-stack (index 0 = bottom): each layer is
/// composited, as the top operand, over the accumulated result of everything
/// below it.
pub open spec fn fold_stack_spec(s: Seq<Seq<Seq<char>>>) -> Seq<Seq<char>>
    decreases s.len(),
{
    if s.len() == 0 {
        Seq::empty()
    } else if s.len() == 1 {
        s[0]
    } else {
        merge_layer_spec(s.last(), fold_stack_spec(s.drop_last()))
    }
}

/// A pane of exactly `height` rows, each of exactly `width` columns.
pub open spec fn rect_layer(l: Seq<Seq<char>>, height: nat, width: nat) -> bool {
    &&& l.len() == height
    &&& forall|r: int| 0 <= r < l.len() ==> (#[trigger] l[r]).len() == width
}

/// Every layer of the stack spans `height` rows of `width` columns: what a
/// stack looks like once every layer has been filled.
pub open spec fn stack_rect(s: Seq<Seq<Seq<char>>>, height: nat, width: nat) -> bool {
    forall|i: int| 0 <= i < s.len() ==> rect_layer(#[trigger] s[i], height, width)
}

/// The glyph the composite shows at cell (r, c): the topmost non-space glyph
/// there, or a space if every layer of the stack is transparent there.
pub open spec fn composite_cell(s: Seq<Seq<Seq<char>>>, r: int, c: int) -> char
    decreases s.len(),
{
    if s.len() == 0 {
        ' '
    } else if s.last()[r][c] != ' ' {
        s.last()[r][c]
    } else {
        composite_cell(s.drop_last(), r, c)
    }
}

/// On a rectangular stack the sequential fold is exactly the cell-wise rule:
/// every cell of the result is the topmost non-space glyph at that cell.
pub proof fn lemma_fold_cellwise(s: Seq<Seq<Seq<char>>>, height: nat, width: nat)
    requires
        s.len() >= 1,
        stack_rect(s, height, width),
    ensures
        rect_layer(fold_stack_spec(s), height, width),
        forall|r: int, c: int|
            0 <= r < height && 0 <= c < width ==> fold_stack_spec(s)[r][c] == composite_cell(
                s,
                r,
                c,
            ),
    decreases s.len(),
{
    if s.len() == 1 {
        assert(fold_stack_spec(s) == s[0]);
        assert(s.drop_last().len() == 0);
        assert forall|r: int, c: int|
            0 <= r < height && 0 <= c < width implies fold_stack_spec(s)[r][c] == composite_cell(
            s,
            r,
            c,
        ) by {
            if s.last()[r][c] != ' ' {
            } else {
                assert(composite_cell(s.drop_last(), r, c) == ' ');
            }
        }
    } else {
        let rest = s.drop_last();
        assert forall|i: int| 0 <= i < rest.len() implies rect_layer(
            #[trigger] rest[i],
            height,
            width,
        ) by {
            assert(rest[i] == s[i]);
        }
        lemma_fold_cellwise(rest, height, width);
        let folded = fold_stack_spec(s);
        assert(folded == merge_layer_spec(s.last(), fold_stack_spec(rest)));
        assert forall|r: int, c: int|
            0 <= r < height && 0 <= c < width implies folded[r][c] == composite_cell(s, r, c) by {
            assert(folded[r] == row_merge_spec(s.last()[r], fold_stack_spec(rest)[r]));
            assert(rect_layer(fold_stack_spec(rest), height, width));
            assert(fold_stack_spec(rest)[r].len() == width);
            assert(fold_stack_spec(rest)[r][c] == composite_cell(rest, r, c));
            assert(composite_cell(s, r, c) == (if s.last()[r][c] != ' ' {
                s.last()[r][c]
            } else {
                composite_cell(rest, r, c)
            }));
        }
    }
}

/// The cell-wise rule over a concatenation of two stacks: the upper stack
/// decides wherever it is visible, the lower stack shows through elsewhere.
proof fn lemma_composite_append(low: Seq<Seq<Seq<char>>>, high: Seq<Seq<Seq<char>>>, r: int, c: int)
    ensures
        composite_cell(low + high, r, c) == (if composite_cell(high, r, c) != ' ' {
            composite_cell(high, r, c)
        } else {
            composite_cell(low, r, c)
        }),
    decreases high.len(),
{
    if high.len() == 0 {
        assert(low + high =~= low);
    } else {
        let whole = low + high;
        assert(whole.last() == high.last());
        assert(whole.drop_last() =~= low + high.drop_last());
        lemma_composite_append(low, high.drop_last(), r, c);
    }
}

/// Law (stack associativity): splitting a rectangular z-stack at any valid
/// midpoint, folding the two halves independently, and joining them with one
/// merge (upper half as the top operand) equals the full sequential scan.
pub proof fn lemma_fold_split(s: Seq<Seq<Seq<char>>>, mid: int, height: nat, width: nat)
    requires
        s.len() >= 2,
        0 <= mid < s.len() - 1,
        stack_rect(s, height, width),
    ensures
        merge_layer_spec(
            fold_stack_spec(s.subrange(mid + 1, s.len() as int)),
            fold_stack_spec(s.subrange(0, mid + 1)),
        ) == fold_stack_spec(s),
{
    let low = s.subrange(0, mid + 1);
    let high = s.subrange(mid + 1, s.len() as int);
    assert(low + high =~= s);
    assert forall|i: int| 0 <= i < low.len() implies rect_layer(
        #[trigger] low[i],
        height,
        width,
    ) by {
        assert(low[i] == s[i]);
    }
    assert forall|i: int| 0 <= i < high.len() implies rect_layer(
        #[trigger] high[i],
        height,
        width,
    ) by {
        assert(high[i] == s[mid + 1 + i]);
    }
    lemma_fold_cellwise(low, height, width);
    lemma_fold_cellwise(high, height, width);
    lemma_fold_cellwise(s, height, width);
    let joined = merge_layer_spec(fold_stack_spec(high), fold_stack_spec(low));
    assert forall|r: int| 0 <= r < height implies joined[r] == fold_stack_spec(s)[r] by {
        assert(joined[r] == row_merge_spec(fold_stack_spec(high)[r], fold_stack_spec(low)[r]));
        assert forall|c: int| 0 <= c < width implies joined[r][c] == fold_stack_spec(s)[r][c] by {
            lemma_composite_append(low, high, r, c);
        }
        assert(joined[r] =~= fold_stack_spec(s)[r]);
    }
    assert(joined =~= fold_stack_spec(s));
}

/// The topmost visible glyph wins, stated on the cell-wise rule.
proof fn lemma_composite_priority(s: Seq<Seq<Seq<char>>>, k: int, r: int, c: int)
    requires
        0 <= k < s.len(),
        s[k][r][c] != ' ',
        forall|j: int| k < j < s.len() ==> s[j][r][c] == ' ',
    ensures
        composite_cell(s, r, c) == s[k][r][c],
    decreases s.len(),
{
    if k == s.len() - 1 {
    } else {
        assert(s.last()[r][c] == ' ');
        let rest = s.drop_last();
        assert(rest[k] == s[k]);
        assert forall|j: int| k < j < rest.len() implies rest[j][r][c] == ' ' by {
            assert(rest[j] == s[j]);
        }
        lemma_composite_priority(rest, k, r, c);
    }
}

/// Law (priority): if a cell is visible (non-space) in layer `k` and every
/// higher-indexed layer is transparent there, the composite shows exactly
/// layer `k`'s glyph, wherever `k` sits in the stack.
pub proof fn lemma_fold_priority(
    s: Seq<Seq<Seq<char>>>,
    k: int,
    r: int,
    c: int,
    height: nat,
    width: nat,
)
    requires
        stack_rect(s, height, width),
        0 <= k < s.len(),
        0 <= r < height,
        0 <= c < width,
        s[k][r][c] != ' ',
        forall|j: int| k < j < s.len() ==> s[j][r][c] == ' ',
    ensures
        fold_stack_spec(s)[r][c] == s[k][r][c],
{
    lemma_fold_cellwise(s, height, width);
    lemma_composite_priority(s, k, r, c);
}

} // verus!
