use vstd::prelude::*;

verus! {

/// Number of elements of a tensor with the given shape: the product of its
/// dimensions (1 for the empty shape).
pub open spec fn shape_product(shape: Seq<usize>) -> int
    decreases shape.len(),
{
    if shape.len() == 0 {
        1
    } else {
        shape_product(shape.drop_last()) * shape.last()
    }
}

/// Every running product of the dimensions fits in a `usize`.
pub open spec fn product_fits(shape: Seq<usize>) -> bool {
    forall|k: int| 0 <= k <= shape.len() ==> #[trigger] shape_product(shape.take(k)) <= usize::MAX
}

/// Number of elements of a tensor of the given shape.
pub fn shape_size(shape: &[usize]) -> (n: usize)
    requires
        product_fits(shape@),
    ensures
        n == shape_product(shape@),
{
    let mut n: usize = 1;
    let mut k: usize = 0;
    proof {
        assert(shape@.take(0) =~= Seq::<usize>::empty());
    }
    while k < shape.len()
        invariant
            k <= shape@.len(),
            product_fits(shape@),
            n == shape_product(shape@.take(k as int)),
        decreases shape@.len() - k,
    {
        proof {
            assert(shape@.take(k + 1).drop_last() =~= shape@.take(k as int));
            assert(shape_product(shape@.take(k + 1)) <= usize::MAX);
        }
        n = n * shape[k];
        k += 1;
    }
    proof {
        assert(shape@.take(shape@.len() as int) =~= shape@);
    }
    n
}

/// `out` is the transpose of the row-major `rows` x `cols` matrix `data`.
pub open spec fn is_transpose<T>(data: Seq<T>, rows: int, cols: int, out: Seq<T>) -> bool {
    &&& out.len() == rows * cols
    &&& forall|i: int, j: int|
        0 <= i < rows && 0 <= j < cols ==> #[trigger] out[j * rows + i] == data[i * cols + j]
}

proof fn lemma_index_in_bounds(i: int, j: int, rows: int, cols: int)
    requires
        0 <= i < rows,
        0 <= j < cols,
    ensures
        0 <= i * cols + j < rows * cols,
        0 <= j * rows + i < rows * cols,
{
    assert(0 <= i * cols + j < rows * cols) by (nonlinear_arith)
        requires
            0 <= i < rows,
            0 <= j < cols,
    ;
    assert(0 <= j * rows + i < rows * cols) by (nonlinear_arith)
        requires
            0 <= i < rows,
            0 <= j < cols,
    ;
}

/// Transposes the row-major `rows` x `cols` matrix held at the start of
/// `data` (entries past `rows * cols` are not read).
pub fn transpose_data<T: Copy>(data: &Vec<T>, rows: usize, cols: usize) -> (out: Vec<T>)
    requires
        data@.len() >= rows * cols,
    ensures
        is_transpose(data@, rows as int, cols as int, out@),
{
    let mut out: Vec<T> = Vec::new();
    let mut j: usize = 0;
    while j < cols
        invariant
            j <= cols,
            data@.len() >= rows * cols,
            out@.len() == j * rows,
            forall|a: int, b: int|
                0 <= a < rows && 0 <= b < j ==> #[trigger] out@[b * rows + a] == data@[a * cols + b],
        decreases cols - j,
    {
        let mut i: usize = 0;
        while i < rows
            invariant
                i <= rows,
                j < cols,
                data@.len() >= rows * cols,
                out@.len() == j * rows + i,
                forall|a: int, b: int|
                    0 <= a < rows && 0 <= b < j ==> #[trigger] out@[b * rows + a] == data@[a * cols + b],
                forall|a: int| 0 <= a < i ==> #[trigger] out@[j * rows + a] == data@[a * cols + j],
            decreases rows - i,
        {
            proof {
                lemma_index_in_bounds(i as int, j as int, rows as int, cols as int);
                assert(rows * cols <= data.len());
                assert(i * cols <= i * cols + j) by (nonlinear_arith)
                    requires
                        j >= 0,
                ;
            }
            let ghost before = out@;
            out.push(data[i * cols + j]);
            proof {
                assert forall|a: int, b: int| 0 <= a < rows && 0 <= b < j implies #[trigger] out@[b
                    * rows + a] == data@[a * cols + b] by {
                    lemma_index_in_bounds(a, b, rows as int, cols as int);
                    assert(b * rows + a < j * rows) by (nonlinear_arith)
                        requires
                            0 <= a < rows,
                            0 <= b < j,
                    ;
                    assert(out@[b * rows + a] == before[b * rows + a]);
                }
            }
            i += 1;
        }
        proof {
            assert((j + 1) * rows == j * rows + rows) by (nonlinear_arith);
        }
        j += 1;
    }
    proof {
        assert(cols * rows == rows * cols) by (nonlinear_arith);
    }
    out
}

/// Transposing twice gives the matrix back.
pub proof fn lemma_transpose_twice<T>(data: Seq<T>, rows: int, cols: int, t: Seq<T>, back: Seq<T>)
    requires
        rows >= 0,
        cols >= 0,
        data.len() == rows * cols,
        is_transpose(data, rows, cols, t),
        is_transpose(t, cols, rows, back),
    ensures
        back == data,
{
    assert(cols * rows == rows * cols) by (nonlinear_arith);
    assert forall|k: int| 0 <= k < data.len() implies back[k] == data[k] by {
        let i = k / cols;
        let j = k % cols;
        assert(cols > 0) by (nonlinear_arith)
            requires
                0 <= k < rows * cols,
                rows >= 0,
        ;
        assert(k == i * cols + j && 0 <= j < cols && 0 <= i < rows) by (nonlinear_arith)
            requires
                cols > 0,
                0 <= k < rows * cols,
                i == k / cols,
                j == k % cols,
        ;
        assert(back[i * cols + j] == t[j * rows + i]);
    }
    assert(back =~= data);
}

/// `out` holds the rows of the row-major `rows` x `cols` matrix `data`
/// named by `indices`, in order.
pub open spec fn is_row_gather<T>(
    data: Seq<T>,
    cols: int,
    indices: Seq<usize>,
    out: Seq<T>,
) -> bool {
    &&& out.len() == indices.len() * cols
    &&& forall|k: int, c: int|
        0 <= k < indices.len() && 0 <= c < cols ==> #[trigger] out[k * cols + c] == data[indices[k]
            * cols + c]
}

/// Looks up rows of the row-major `rows` x `cols` matrix held at the start
/// of `data` (the embedding lookup).
pub fn gather_rows<T: Copy>(data: &Vec<T>, rows: usize, cols: usize, indices: &[usize]) -> (out: Vec<T>)
    requires
        data@.len() >= rows * cols,
        forall|k: int| 0 <= k < indices@.len() ==> #[trigger] indices@[k] < rows,
        indices@.len() * cols <= usize::MAX,
    ensures
        is_row_gather(data@, cols as int, indices@, out@),
{
    let mut out: Vec<T> = Vec::new();
    let mut k: usize = 0;
    while k < indices.len()
        invariant
            k <= indices@.len(),
            data@.len() >= rows * cols,
            forall|x: int| 0 <= x < indices@.len() ==> #[trigger] indices@[x] < rows,
            out@.len() == k * cols,
            forall|a: int, c: int|
                0 <= a < k && 0 <= c < cols ==> #[trigger] out@[a * cols + c] == data@[indices@[a]
                    * cols + c],
        decreases indices@.len() - k,
    {
        let r = indices[k];
        let mut c: usize = 0;
        while c < cols
            invariant
                c <= cols,
                k < indices@.len(),
                r == indices@[k as int],
                r < rows,
                data@.len() >= rows * cols,
                out@.len() == k * cols + c,
                forall|a: int, x: int|
                    0 <= a < k && 0 <= x < cols ==> #[trigger] out@[a * cols + x] == data@[indices@[a]
                        * cols + x],
                forall|x: int| 0 <= x < c ==> #[trigger] out@[k * cols + x] == data@[r * cols + x],
            decreases cols - c,
        {
            proof {
                lemma_index_in_bounds(r as int, c as int, rows as int, cols as int);
                assert(rows * cols <= data.len());
                assert(r * cols <= r * cols + c) by (nonlinear_arith)
                    requires
                        c >= 0,
                ;
            }
            let ghost before = out@;
            out.push(data[r * cols + c]);
            proof {
                assert forall|a: int, x: int| 0 <= a < k && 0 <= x < cols implies #[trigger] out@[a
                    * cols + x] == data@[indices@[a] * cols + x] by {
                    assert(a * cols + x < k * cols) by (nonlinear_arith)
                        requires
                            0 <= a < k,
                            0 <= x < cols,
                    ;
                    assert(out@[a * cols + x] == before[a * cols + x]);
                }
            }
            c += 1;
        }
        proof {
            assert((k + 1) * cols == k * cols + cols) by (nonlinear_arith);
        }
        k += 1;
    }
    out
}

} // verus!
