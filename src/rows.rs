//! Copying rows out of a strided source into a packed destination.
use vstd::prelude::*;

verus! {

/// The first `row_bytes` bytes of each of the first `rows` rows of `src`,
/// where row `y` starts at byte `y * pitch`, laid end to end.
pub open spec fn packed_rows(src: Seq<u8>, pitch: nat, row_bytes: nat, rows: nat) -> Seq<u8>
    decreases rows,
{
    if rows == 0 {
        Seq::empty()
    } else {
        let y = (rows - 1) as nat;
        packed_rows(src, pitch, row_bytes, y) + src.subrange((y * pitch) as int, (y * pitch + row_bytes) as int)
    }
}

/// Whether a source of `len` bytes holds `rows` rows of `row_bytes` bytes,
/// `pitch` bytes apart.
pub open spec fn covers_rows(len: nat, pitch: nat, row_bytes: nat, rows: nat) -> bool {
    row_bytes <= pitch && (rows == 0 || (rows - 1) * pitch + row_bytes <= len)
}

/// Packing `rows` rows gives `rows * row_bytes` bytes.
pub proof fn lemma_packed_rows_len(src: Seq<u8>, pitch: nat, row_bytes: nat, rows: nat)
    requires
        covers_rows(src.len(), pitch, row_bytes, rows),
    ensures
        packed_rows(src, pitch, row_bytes, rows).len() == rows * row_bytes,
    decreases rows,
{
    if rows == 0 {
        assert(rows * row_bytes == 0) by (nonlinear_arith)
            requires rows == 0;
    } else {
        let y = (rows - 1) as nat;
        if y > 0 {
            assert((y - 1) * pitch <= y * pitch) by (nonlinear_arith)
                requires y > 0;
        }
        lemma_packed_rows_len(src, pitch, row_bytes, y);
        assert(rows * row_bytes == y * row_bytes + row_bytes) by (nonlinear_arith)
            requires y == rows - 1;
        assert(y * pitch + row_bytes <= src.len());
        assert(src.subrange((y * pitch) as int, (y * pitch + row_bytes) as int).len() == row_bytes);
    }
}

/// Byte `x` of packed row `y` is byte `x` of source row `y`: whatever the
/// pitch, no byte between the end of a row and the start of the next one
/// reaches the packed output.
pub proof fn lemma_packed_rows_byte(src: Seq<u8>, pitch: nat, row_bytes: nat, rows: nat, y: nat, x: nat)
    requires
        covers_rows(src.len(), pitch, row_bytes, rows),
        y < rows,
        x < row_bytes,
    ensures
        packed_rows(src, pitch, row_bytes, rows).len() == rows * row_bytes,
        y * row_bytes + x < rows * row_bytes,
        packed_rows(src, pitch, row_bytes, rows)[(y * row_bytes + x) as int] == src[(y * pitch + x) as int],
    decreases rows,
{
    lemma_packed_rows_len(src, pitch, row_bytes, rows);
    let last = (rows - 1) as nat;
    assert(y * row_bytes + x < rows * row_bytes) by (nonlinear_arith)
        requires y < rows, x < row_bytes;
    if last > 0 {
        assert((last - 1) * pitch <= last * pitch) by (nonlinear_arith)
            requires last > 0;
    }
    lemma_packed_rows_len(src, pitch, row_bytes, last);
    assert(last * row_bytes == rows * row_bytes - row_bytes) by (nonlinear_arith)
        requires last == rows - 1;
    if y < last {
        lemma_packed_rows_byte(src, pitch, row_bytes, last, y, x);
    } else {
        assert(y == last);
    }
}

/// Copies `rows` rows of `row_bytes` bytes, which start `pitch` bytes apart
/// in `src`, into a new buffer with no gap between rows.
pub fn pack_rows(src: &Vec<u8>, pitch: usize, row_bytes: usize, rows: usize) -> (r: Vec<u8>)
    requires
        covers_rows(src@.len(), pitch as nat, row_bytes as nat, rows as nat),
    ensures
        r@ == packed_rows(src@, pitch as nat, row_bytes as nat, rows as nat),
        r@.len() == rows * row_bytes,
{
    let len = src.len();
    let mut r: Vec<u8> = Vec::new();
    let mut y: usize = 0;
    while y < rows
        invariant
            covers_rows(src@.len(), pitch as nat, row_bytes as nat, rows as nat),
            len == src@.len(),
            y <= rows,
            r@ == packed_rows(src@, pitch as nat, row_bytes as nat, y as nat),
        decreases rows - y,
    {
        assert(y * pitch <= (rows - 1) * pitch) by (nonlinear_arith)
            requires y < rows;
        assert(y * pitch + row_bytes <= src@.len());
        assert(y * pitch <= len);
        let start: usize = y * pitch;
        let mut x: usize = 0;
        while x < row_bytes
            invariant
                covers_rows(src@.len(), pitch as nat, row_bytes as nat, rows as nat),
                y < rows,
                x <= row_bytes,
                start == y * pitch,
                start + row_bytes <= src@.len(),
                len == src@.len(),
                r@ == packed_rows(src@, pitch as nat, row_bytes as nat, y as nat) + src@.subrange(start as int, start + x),
            decreases row_bytes - x,
        {
            r.push(src[start + x]);
            assert(src@.subrange(start as int, start + x + 1) == src@.subrange(start as int, start + x).push(src@[start + x]));
            x = x + 1;
        }
        y = y + 1;
    }
    proof {
        lemma_packed_rows_len(src@, pitch as nat, row_bytes as nat, rows as nat);
    }
    r
}

} // verus!
