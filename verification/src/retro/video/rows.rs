//! The rows of a packed run of pixels, and what holds of them.

use vstd::prelude::*;

verus! {

/// Row `i` of a packed run of pixels whose rows are `width` pixels long.
pub open spec fn row_of<P>(pixels: Seq<P>, width: int, i: int) -> Seq<P> {
    pixels.subrange(i * width, i * width + width)
}

/// The first `height` rows of a packed run of pixels whose rows are `width`
/// pixels long.
pub open spec fn rows_of<P>(pixels: Seq<P>, width: int, height: int) -> Seq<Seq<P>> {
    Seq::new(height as nat, |i: int| row_of(pixels, width, i))
}

/// The first `count` rows, one after the other, are the first `count * width`
/// pixels.
pub proof fn lemma_rows_prefix<P>(pixels: Seq<P>, width: int, count: int)
    requires
        0 <= width,
        0 <= count,
        count * width <= pixels.len(),
    ensures
        rows_of(pixels, width, count).flatten() == pixels.take(count * width),
    decreases count,
{
    if count == 0 {
        assert(rows_of(pixels, width, count) =~= Seq::<Seq<P>>::empty());
        assert(pixels.take(0) =~= Seq::<P>::empty());
    } else {
        assert(0 <= (count - 1) * width && (count - 1) * width + width == count * width)
            by (nonlinear_arith)
            requires
                0 <= width,
                1 <= count,
        ;
        lemma_rows_prefix(pixels, width, count - 1);
        let before = rows_of(pixels, width, count - 1);
        let last = row_of(pixels, width, count - 1);
        assert(rows_of(pixels, width, count) =~= before.push(last));
        before.lemma_flatten_push(last);
        assert(pixels.take((count - 1) * width) + last =~= pixels.take(count * width));
    }
}

/// A frame of `height` rows of `width` pixels has exactly `height` rows, each
/// `width` pixels long, and the rows one after the other are the pixels of the
/// frame.
pub proof fn lemma_rows_concat<P>(pixels: Seq<P>, width: int, height: int)
    requires
        0 <= width,
        0 <= height,
        pixels.len() == width * height,
    ensures
        rows_of(pixels, width, height).len() == height,
        forall|i: int|
            0 <= i < height ==> (#[trigger] rows_of(pixels, width, height)[i]).len() == width,
        rows_of(pixels, width, height).flatten() == pixels,
{
    assert(height * width == width * height) by (nonlinear_arith);
    lemma_rows_prefix(pixels, width, height);
    assert(pixels.take(height * width) =~= pixels);
    assert forall|i: int| 0 <= i < height implies (#[trigger] rows_of(pixels, width, height)[i]).len()
        == width by {
        assert(0 <= i * width && i * width + width <= height * width) by (nonlinear_arith)
            requires
                0 <= i < height,
                0 <= width,
        ;
    }
}

/// Where every row is `width` long, the rows one after the other hold
/// `width` times the number of rows, and element `c` of row `i` stands at
/// place `i * width + c`.
pub proof fn lemma_flatten_uniform<P>(rows: Seq<Seq<P>>, width: int)
    requires
        0 <= width,
        forall|i: int| 0 <= i < rows.len() ==> (#[trigger] rows[i]).len() == width,
    ensures
        rows.flatten().len() == rows.len() * width,
        forall|i: int, c: int|
            0 <= i < rows.len() && 0 <= c < width ==> rows.flatten()[i * width + c]
                == #[trigger] rows[i][c],
    decreases rows.len(),
{
    if rows.len() == 0 {
        assert(rows.flatten() =~= Seq::<P>::empty());
    } else {
        let before = rows.drop_last();
        let last = rows.last();
        let n = before.len() as int;
        lemma_flatten_uniform(before, width);
        assert(rows =~= before.push(last));
        before.lemma_flatten_push(last);
        assert(n * width + width == (n + 1) * width) by (nonlinear_arith);
        assert forall|i: int, c: int| 0 <= i < rows.len() && 0 <= c < width implies rows.flatten()[i
            * width + c] == #[trigger] rows[i][c] by {
            if i < n {
                assert(0 <= i * width && i * width + width <= n * width) by (nonlinear_arith)
                    requires
                        0 <= i < n,
                        0 <= width,
                ;
                assert(before[i][c] == rows[i][c]);
            } else {
                assert(i * width == n * width);
            }
        }
    }
}

} // verus!
