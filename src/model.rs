use vstd::arithmetic::div_mod::lemma_fundamental_div_mod;
use vstd::prelude::*;

use crate::limits::{valid_chunk_size, valid_chunks_per_file};

verus! {

/// A byte sequence cut front to back into pieces of `w` bytes; the last
/// piece holds what is left and may be shorter. No piece is empty, so an
/// empty sequence has no pieces.
pub open spec fn chunks_of(s: Seq<u8>, w: nat) -> Seq<Seq<u8>>
    decreases s.len(),
{
    if w == 0 || s.len() == 0 {
        seq![]
    } else if s.len() <= w {
        seq![s]
    } else {
        seq![s.take(w as int)] + chunks_of(s.skip(w as int), w)
    }
}

/// The number of pieces of `w` bytes that `n` bytes are cut into.
pub open spec fn piece_count(n: nat, w: nat) -> nat {
    if w == 0 {
        0
    } else {
        ((n + w - 1) as nat / w) as nat
    }
}

/// The end of piece `j` of `n` bytes cut into pieces of `w` bytes.
pub open spec fn piece_end(n: nat, w: nat, j: nat) -> nat {
    if j * w + w <= n {
        j * w + w
    } else {
        n
    }
}

/// The length of the last piece of `n > 0` bytes: the remainder, or a
/// whole piece where there is none.
pub open spec fn last_piece_len(n: nat, w: nat) -> nat {
    if n % w == 0 {
        w
    } else {
        n % w
    }
}

/// Where the last piece starts strictly before `n` and ends at or after
/// it, there are exactly `f` pieces.
pub proof fn lemma_piece_count_between(n: nat, w: nat, f: nat)
    requires
        w > 0,
        f >= 1,
        (f - 1) * w < n <= f * w,
    ensures
        piece_count(n, w) == f,
{
    let ni = n as int;
    let wi = w as int;
    let fi = f as int;
    assert((ni + wi - 1) / wi == fi) by (nonlinear_arith)
        requires
            wi > 0,
            fi >= 1,
            (fi - 1) * wi < ni <= fi * wi,
    ;
}

/// `f` whole pieces of `w` bytes make exactly `f` pieces.
pub proof fn lemma_piece_count_aligned(w: nat, f: nat)
    requires
        w > 0,
    ensures
        piece_count(f * w, w) == f,
{
    let wi = w as int;
    let fi = f as int;
    assert((fi * wi + wi - 1) / wi == fi) by (nonlinear_arith)
        requires
            wi > 0,
            fi >= 0,
    ;
}

/// The pieces, read back to back, give the sequence again.
pub proof fn lemma_chunks_of_flatten(s: Seq<u8>, w: nat)
    ensures
        w > 0 ==> chunks_of(s, w).flatten() == s,
    decreases s.len(),
{
    if w > 0 && s.len() > 0 {
        if s.len() <= w {
            let c = chunks_of(s, w);
            assert(c.drop_first() =~= Seq::<Seq<u8>>::empty());
            assert(c.drop_first().flatten() == Seq::<u8>::empty());
            assert(c.first() + Seq::<u8>::empty() =~= s);
        } else {
            lemma_chunks_of_flatten(s.skip(w as int), w);
            assert(chunks_of(s, w).drop_first() =~= chunks_of(s.skip(w as int), w));
            assert(s =~= s.take(w as int) + s.skip(w as int));
        }
    }
}

/// Piece `j` is the range from `j * w` to `piece_end`, and there are
/// `piece_count` of them.
pub proof fn lemma_chunks_of_index(s: Seq<u8>, w: nat)
    requires
        w > 0,
    ensures
        chunks_of(s, w).len() == piece_count(s.len(), w),
        forall|j: int|
            0 <= j < chunks_of(s, w).len() ==> #[trigger] chunks_of(s, w)[j] == s.subrange(
                j * w,
                piece_end(s.len(), w, j as nat) as int,
            ),
    decreases s.len(),
{
    let n = s.len() as int;
    let wi = w as int;
    if n == 0 {
        assert((n + wi - 1) / wi == 0) by (nonlinear_arith)
            requires
                n == 0,
                wi > 0,
        ;
    } else if n <= wi {
        assert((n + wi - 1) / wi == 1) by (nonlinear_arith)
            requires
                0 < n <= wi,
        ;
        assert(piece_end(n as nat, w, 0) == n);
        assert(s.subrange(0, n) =~= s);
    } else {
        let t = s.skip(w as int);
        lemma_chunks_of_index(t, w);
        let m = t.len() as int;
        assert(m == n - wi);
        assert((n + wi - 1) / wi == (m + wi - 1) / wi + 1) by (nonlinear_arith)
            requires
                m == n - wi,
                wi > 0,
        ;
        assert forall|j: int| 0 <= j < chunks_of(s, w).len() implies #[trigger] chunks_of(
            s,
            w,
        )[j] == s.subrange(j * w, piece_end(n as nat, w, j as nat) as int) by {
            if j == 0 {
                assert(piece_end(n as nat, w, 0) == w);
                assert(s.take(w as int) =~= s.subrange(0, w as int));
            } else {
                let k = j - 1;
                assert(chunks_of(s, w)[j] == chunks_of(t, w)[k]);
                assert(0 <= k * wi < m) by (nonlinear_arith)
                    requires
                        0 <= k < (m + wi - 1) / wi,
                        wi > 0,
                ;
                assert(chunks_of(t, w)[k] == t.subrange(k * w, piece_end(m as nat, w, k as nat) as int));
                assert(j * w == k * w + w) by (nonlinear_arith)
                    requires
                        k == j - 1,
                ;
                assert(piece_end(n as nat, w, j as nat) == piece_end(m as nat, w, k as nat) + w);
                assert(chunks_of(t, w)[k] =~= s.subrange(
                    j * w,
                    piece_end(n as nat, w, j as nat) as int,
                ));
            }
        }
    }
}

/// Every piece but the last is whole, and the last holds the remainder,
/// or a whole piece where there is none.
pub proof fn lemma_piece_lengths(s: Seq<u8>, w: nat)
    requires
        w > 0,
    ensures
        forall|j: int|
            0 <= j < chunks_of(s, w).len() - 1 ==> (#[trigger] chunks_of(s, w)[j]).len() == w,
        s.len() > 0 ==> chunks_of(s, w).len() > 0 && chunks_of(s, w).last().len()
            == last_piece_len(s.len(), w),
{
    lemma_chunks_of_index(s, w);
    let n = s.len() as int;
    let wi = w as int;
    lemma_fundamental_div_mod(n, wi);
    let q = n / wi;
    let r = n % wi;
    let count = chunks_of(s, w).len() as int;
    if r == 0 {
        assert(n == q * wi);
        lemma_piece_count_aligned(w, q as nat);
    } else {
        assert(q * wi < n <= (q + 1) * wi) by (nonlinear_arith)
            requires
                n == wi * q + r,
                0 < r < wi,
        ;
        lemma_piece_count_between(s.len(), w, (q + 1) as nat);
    }
    assert(count * wi >= n && (count - 1) * wi < n || n == 0) by (nonlinear_arith)
        requires
            r == 0 ==> count == q,
            r != 0 ==> count == q + 1,
            n == wi * q + r,
            0 <= r < wi,
            n >= 0,
    ;
    assert forall|j: int| 0 <= j < count - 1 implies (#[trigger] chunks_of(s, w)[j]).len()
        == w by {
        assert(j * wi + wi <= (count - 1) * wi) by (nonlinear_arith)
            requires
                j < count - 1,
                wi > 0,
        ;
        assert(0 <= j * wi) by (nonlinear_arith)
            requires
                j >= 0,
                wi > 0,
        ;
    }
    if n > 0 {
        let last = count - 1;
        assert(count >= 1);
        assert(0 <= last * wi) by (nonlinear_arith)
            requires
                last >= 0,
                wi > 0,
        ;
        assert(last * wi + wi == count * wi) by (nonlinear_arith)
            requires
                last == count - 1,
        ;
        if r == 0 {
            assert(count * wi == n) by (nonlinear_arith)
                requires
                    count == q,
                    n == wi * q,
            ;
        } else {
            assert(n - last * wi == r) by (nonlinear_arith)
                requires
                    last == q,
                    n == wi * q + r,
            ;
        }
    }
}

/// Reading a source in chunks of `chunk_size` bytes: the chunks, back to
/// back, are the source, in order; every chunk but the last is full; the
/// last holds the source's length modulo the chunk size, or a full chunk
/// where that is zero.
pub proof fn lemma_read_chunks(source: Seq<u8>, chunk_size: u16)
    requires
        valid_chunk_size(chunk_size as int),
    ensures
        chunks_of(source, chunk_size as nat).flatten() == source,
        forall|j: int|
            0 <= j < chunks_of(source, chunk_size as nat).len() - 1 ==> (#[trigger] chunks_of(
                source,
                chunk_size as nat,
            )[j]).len() == chunk_size,
        source.len() > 0 ==> chunks_of(source, chunk_size as nat).last().len() == if source.len()
            % (chunk_size as nat) == 0 {
            chunk_size as nat
        } else {
            source.len() % (chunk_size as nat)
        },
{
    lemma_chunks_of_flatten(source, chunk_size as nat);
    lemma_piece_lengths(source, chunk_size as nat);
}

/// A source of exactly `k >= 1` block-file capacities is segmented into
/// exactly `k` block files, each full, which back to back are the source.
pub proof fn lemma_segment_exact_multiple(
    source: Seq<u8>,
    chunk_size: u16,
    chunks_per_file: usize,
    k: nat,
)
    requires
        valid_chunk_size(chunk_size as int),
        valid_chunks_per_file(chunks_per_file as int),
        k >= 1,
        source.len() == chunk_size * chunks_per_file * k,
    ensures
        chunks_of(source, (chunk_size * chunks_per_file) as nat).len() == k,
        forall|j: int|
            0 <= j < k ==> (#[trigger] chunks_of(source, (chunk_size * chunks_per_file) as nat)[
                j
            ]).len() == chunk_size * chunks_per_file,
        chunks_of(source, (chunk_size * chunks_per_file) as nat).flatten() == source,
{
    let w = (chunk_size * chunks_per_file) as nat;
    assert(w > 0) by (nonlinear_arith)
        requires
            chunk_size >= 16,
            chunks_per_file >= 1,
            w == chunk_size * chunks_per_file,
    ;
    assert(source.len() == k * w) by (nonlinear_arith)
        requires
            source.len() == chunk_size * chunks_per_file * k,
            w == chunk_size * chunks_per_file,
    ;
    lemma_piece_count_aligned(w, k);
    lemma_chunks_of_index(source, w);
    lemma_chunks_of_flatten(source, w);
    lemma_piece_lengths(source, w);
    assert((k * w) % w == 0) by (nonlinear_arith)
        requires
            w > 0,
    ;
}

/// A source of one block-file capacity and `r` bytes more, `r` short of a
/// second capacity, is segmented into two block files: a full one, then
/// one of `r` bytes.
pub proof fn lemma_segment_one_over(source: Seq<u8>, chunk_size: u16, chunks_per_file: usize, r: nat)
    requires
        valid_chunk_size(chunk_size as int),
        valid_chunks_per_file(chunks_per_file as int),
        0 < r < chunk_size * chunks_per_file,
        source.len() == chunk_size * chunks_per_file + r,
    ensures
        chunks_of(source, (chunk_size * chunks_per_file) as nat).len() == 2,
        chunks_of(source, (chunk_size * chunks_per_file) as nat)[0].len() == chunk_size
            * chunks_per_file,
        chunks_of(source, (chunk_size * chunks_per_file) as nat)[1].len() == r,
        chunks_of(source, (chunk_size * chunks_per_file) as nat).flatten() == source,
{
    let w = (chunk_size * chunks_per_file) as nat;
    lemma_piece_count_between(source.len(), w, 2);
    lemma_chunks_of_index(source, w);
    lemma_chunks_of_flatten(source, w);
    lemma_piece_lengths(source, w);
    assert(source.len() % w == r) by (nonlinear_arith)
        requires
            source.len() == w + r,
            0 < r < w,
    ;
}

} // verus!
