use vstd::prelude::*;

verus! {

/// A flat row-major grid with its rows in the opposite vertical order.
///
/// The sequence is cut into rows of `width` cells from the front; the rows
/// come out last to first, each row unchanged inside. A shorter last row, if
/// there is one, comes out first. A `width` that is not positive leaves the
/// sequence as it is.
pub open spec fn rows_reversed<T>(cells: Seq<T>, width: int) -> Seq<T>
    decreases cells.len(),
{
    if width <= 0 || cells.len() <= width {
        cells
    } else {
        rows_reversed(cells.skip(width), width) + cells.take(width)
    }
}

/// Reverses the vertical order of the rows of a flat row-major grid. Rows of
/// no cells leave the grid as it is.
pub fn reverse_row_wise<T>(list: Vec<T>, row_length: usize) -> (reversed: Vec<T>)
    ensures
        reversed@ == rows_reversed(list@, row_length as int),
{
    if row_length == 0 {
        return list;
    }
    let ghost whole = list@;
    let mut rest = list;
    let mut done: Vec<T> = Vec::new();
    while rest.len() > row_length
        invariant
            row_length > 0,
            rows_reversed(whole, row_length as int) == rows_reversed(rest@, row_length as int)
                + done@,
        decreases rest.len(),
    {
        let ghost before = rest@;
        let ghost acc = done@;
        let tail = rest.split_off(row_length);
        let mut row = rest;
        row.append(&mut done);
        done = row;
        rest = tail;
        proof {
            assert(rest@ == before.skip(row_length as int));
            assert(done@ == before.take(row_length as int) + acc);
            assert(rows_reversed(before, row_length as int) == rows_reversed(
                rest@,
                row_length as int,
            ) + before.take(row_length as int));
            assert((rows_reversed(rest@, row_length as int) + before.take(row_length as int)) + acc
                == rows_reversed(rest@, row_length as int) + done@);
        }
    }
    rest.append(&mut done);
    rest
}

/// Reversing the rows keeps every cell: the length does not change.
pub proof fn lemma_rows_reversed_len<T>(cells: Seq<T>, width: int)
    ensures
        rows_reversed(cells, width).len() == cells.len(),
    decreases cells.len(),
{
    if width > 0 && cells.len() > width {
        lemma_rows_reversed_len(cells.skip(width), width);
    }
}

/// A grid of a single row, or of less, is left as it is.
pub proof fn lemma_single_row_unchanged<T>(cells: Seq<T>, width: int)
    requires
        cells.len() <= width,
    ensures
        rows_reversed(cells, width) == cells,
{
}

/// In a grid of whole rows, a row added at the bottom comes out at the top.
#[verifier::spinoff_prover]
pub proof fn lemma_rows_reversed_push_row<T>(cells: Seq<T>, row: Seq<T>, width: int, height: int)
    requires
        width > 0,
        height >= 0,
        cells.len() == width * height,
        row.len() == width,
    ensures
        rows_reversed(cells + row, width) == row + rows_reversed(cells, width),
    decreases height,
{
    if height == 0 {
        assert(cells.len() == 0) by (nonlinear_arith)
            requires
                cells.len() == width * height,
                height == 0,
        ;
        assert(cells + row =~= row);
        assert(row + rows_reversed(cells, width) =~= row);
    } else {
        assert(cells.len() == width * (height - 1) + width) by (nonlinear_arith)
            requires
                cells.len() == width * height,
        ;
        assert(width * (height - 1) >= 0) by (nonlinear_arith)
            requires
                width > 0,
                height >= 1,
        ;
        let rest = cells.skip(width);
        assert((cells + row).skip(width) =~= rest + row);
        assert((cells + row).take(width) =~= cells.take(width));
        lemma_rows_reversed_push_row(rest, row, width, height - 1);
        if cells.len() == width {
            assert(rest =~= Seq::<T>::empty());
            assert(cells.take(width) =~= cells);
            assert(rows_reversed(rest, width) =~= Seq::<T>::empty());
            assert((row + rows_reversed(rest, width)) + cells.take(width) =~= row + cells);
        } else {
            assert((row + rows_reversed(rest, width)) + cells.take(width) =~= row + (
            rows_reversed(rest, width) + cells.take(width)));
        }
    }
}

proof fn lemma_rows_left(len: int, width: int, height: int)
    by (nonlinear_arith)
    requires
        width > 0,
        len == width * height,
        len > width,
    ensures
        height >= 2,
        len - width == width * (height - 1),
{
}

proof fn lemma_first_row_and_rest<T>(cells: Seq<T>, width: int)
    requires
        0 < width < cells.len(),
    ensures
        cells.take(width) + cells.skip(width) == cells,
        cells.take(width).len() == width,
        cells.skip(width).len() == cells.len() - width,
        rows_reversed(cells, width) == rows_reversed(cells.skip(width), width) + cells.take(width),
{
    assert(cells.take(width) + cells.skip(width) =~= cells);
}

/// Reversing the rows of a grid of `height` whole rows twice gives the grid back.
#[verifier::spinoff_prover]
pub proof fn lemma_rows_reversed_twice<T>(cells: Seq<T>, width: int, height: int)
    requires
        width > 0,
        height >= 0,
        cells.len() == width * height,
    ensures
        rows_reversed(rows_reversed(cells, width), width) == cells,
    decreases height,
{
    if cells.len() > width {
        let rest = cells.skip(width);
        let row = cells.take(width);
        let turned = rows_reversed(rest, width);
        lemma_rows_left(cells.len() as int, width, height);
        lemma_first_row_and_rest(cells, width);
        lemma_rows_reversed_len(rest, width);
        lemma_rows_reversed_twice(rest, width, height - 1);
        lemma_rows_reversed_push_row(turned, row, width, height - 1);
    }
}

} // verus!
