use vstd::prelude::*;
use vstd::slice::{slice_subrange, slice_to_vec};
use vstd::string::StringExecFns;

use crate::limits::{valid_chunk_size, valid_chunks_per_file};
use crate::model::{chunks_of, lemma_chunks_of_index, lemma_piece_count_between};
use crate::reader::{ReadSession, ReadStep};

verus! {

/// The rotation policy of a segmentation run: which chunk goes to which
/// block file. Block files are numbered from 1 and opened lazily, so a
/// source without chunks yields no block file at all.
pub struct Segmenter {
    chunks_per_file: usize,
    files_opened: usize,
    chunks_in_file: usize,
}

impl Segmenter {
    pub closed spec fn spec_chunks_per_file(&self) -> nat {
        self.chunks_per_file as nat
    }

    /// How many block files have been opened so far; the last of them is
    /// the current one.
    pub closed spec fn spec_files_opened(&self) -> nat {
        self.files_opened as nat
    }

    /// How many chunks the current block file has accepted.
    pub closed spec fn spec_chunks_in_file(&self) -> nat {
        self.chunks_in_file as nat
    }

    pub open spec fn wf(&self) -> bool {
        &&& self.spec_chunks_per_file() >= 1
        &&& self.spec_chunks_in_file() <= self.spec_chunks_per_file()
        &&& (self.spec_files_opened() == 0 <==> self.spec_chunks_in_file() == 0)
    }

    /// Whether the next chunk must go to a newly opened block file: at the
    /// start, and once the current file holds its full count.
    pub open spec fn must_rotate(&self) -> bool {
        self.spec_files_opened() == 0 || self.spec_chunks_in_file() == self.spec_chunks_per_file()
    }

    /// A run that has not opened any block file yet.
    pub fn new(chunks_per_file: usize) -> (r: Self)
        requires
            valid_chunks_per_file(chunks_per_file as int),
        ensures
            r.wf(),
            r.spec_chunks_per_file() == chunks_per_file,
            r.spec_files_opened() == 0,
            r.spec_chunks_in_file() == 0,
    {
        Segmenter { chunks_per_file, files_opened: 0, chunks_in_file: 0 }
    }

    pub fn chunks_per_file(&self) -> (r: usize)
        ensures
            r == self.spec_chunks_per_file(),
    {
        self.chunks_per_file
    }

    pub fn files_opened(&self) -> (r: usize)
        ensures
            r == self.spec_files_opened(),
    {
        self.files_opened
    }

    pub fn chunks_in_file(&self) -> (r: usize)
        ensures
            r == self.spec_chunks_in_file(),
    {
        self.chunks_in_file
    }

    /// Routes the next chunk. Where it must go to a new block file, the
    /// previous one (if any) is complete and the result is the number of
    /// the file to open before writing the chunk; else the result is `None`
    /// and the chunk goes to the current file.
    pub fn route_chunk(&mut self) -> (r: Option<usize>)
        requires
            old(self).wf(),
            old(self).spec_files_opened() < usize::MAX,
        ensures
            final(self).wf(),
            final(self).spec_chunks_per_file() == old(self).spec_chunks_per_file(),
            old(self).must_rotate() ==> r == Some((old(self).spec_files_opened() + 1) as usize)
                && final(self).spec_files_opened() == old(self).spec_files_opened() + 1
                && final(self).spec_chunks_in_file() == 1,
            !old(self).must_rotate() ==> r is None && final(self).spec_files_opened() == old(
                self,
            ).spec_files_opened() && final(self).spec_chunks_in_file() == old(
                self,
            ).spec_chunks_in_file() + 1,
    {
        if self.files_opened == 0 || self.chunks_in_file == self.chunks_per_file {
            self.files_opened = self.files_opened + 1;
            self.chunks_in_file = 1;
            Some(self.files_opened)
        } else {
            self.chunks_in_file = self.chunks_in_file + 1;
            None
        }
    }
}

/// The contents of the block files that a segmentation run writes for a
/// source holding `source`, in order: the source is read in chunks of
/// `chunk_size` bytes, and each block file takes `chunks_per_file` chunks
/// before the next one is opened.
pub fn segment(source: &[u8], chunk_size: u16, chunks_per_file: usize) -> (r: Vec<Vec<u8>>)
    requires
        valid_chunk_size(chunk_size as int),
        valid_chunks_per_file(chunks_per_file as int),
    ensures
        r.deep_view() == chunks_of(source@, (chunk_size * chunks_per_file) as nat),
{
    let c = chunk_size as usize;
    assert(c * chunks_per_file <= 1024 * 256) by (nonlinear_arith)
        requires
            c <= 1024,
            chunks_per_file <= 256,
    ;
    let cap = c * chunks_per_file;
    let ghost cpf = chunks_per_file as int;
    let ghost s = source@;
    let ghost n = source@.len();
    assert(c <= cap) by (nonlinear_arith)
        requires
            cap == c * cpf,
            cpf >= 1,
    ;
    let mut session = ReadSession::new(chunk_size);
    let mut seg = Segmenter::new(chunks_per_file);
    let mut files: Vec<Vec<u8>> = Vec::new();
    let mut pos: usize = 0;
    while !session.is_finished()
        invariant
            s == source@,
            n == s.len(),
            c == chunk_size as usize,
            cap == c * cpf,
            cpf == chunks_per_file,
            16 <= c <= cap,
            1 <= cpf,
            session.wf(),
            session.spec_chunk_size() == c,
            session.spec_bytes_read() == pos,
            pos <= n,
            session.spec_finished() ==> pos == n,
            seg.wf(),
            seg.spec_chunks_per_file() == cpf,
            files.len() == seg.spec_files_opened(),
            seg.spec_files_opened() <= pos,
            files.len() == 0 ==> pos == 0,
            files.len() > 0 ==> 0 < pos - (files.len() - 1) * cap <= cap,
            files.len() > 0 && !session.spec_finished() ==> pos - (files.len() - 1) * cap
                == seg.spec_chunks_in_file() * c,
            forall|j: int|
                0 <= j < files.len() - 1 ==> #[trigger] files[j]@ == s.subrange(
                    j * cap,
                    j * cap + cap,
                ),
            files.len() > 0 ==> files[files.len() - 1]@ == s.subrange(
                (files.len() - 1) * cap,
                pos as int,
            ),
        decreases n - pos + (if session.spec_finished() { 0int } else { 1int }),
    {
        let remaining = source.len() - pos;
        let take = if remaining < c { remaining } else { c };
        let step = session.step(take);
        let len = match step {
            ReadStep::Full => c,
            ReadStep::Partial(k) => k,
            ReadStep::End => 0,
        };
        if len > 0 {
            let ghost f0 = files.len() as int;
            let ghost k0 = seg.spec_chunks_in_file() as int;
            let ghost files0 = files@;
            let route = seg.route_chunk();
            let mut chunk = slice_to_vec(slice_subrange(source, pos, pos + len));
            match route {
                Some(_) => {
                    proof {
                        if f0 > 0 {
                            assert(k0 * c == cap) by (nonlinear_arith)
                                requires
                                    k0 == cpf,
                                    cap == c * cpf,
                            ;
                            assert((f0 - 1) * cap + cap == f0 * cap) by (nonlinear_arith);
                            assert(pos == f0 * cap);
                        } else {
                            assert(f0 * cap == 0) by (nonlinear_arith)
                                requires
                                    f0 == 0,
                            ;
                        }
                    }
                    files.push(chunk);
                    proof {
                        assert(1 * c == c) by (nonlinear_arith);
                        assert(files.len() - 1 == f0);
                        assert(pos + len - f0 * cap == len);
                    }
                },
                None => {
                    let mut last = files.pop().unwrap();
                    last.append(&mut chunk);
                    files.push(last);
                    proof {
                        assert((k0 + 1) * c == k0 * c + c) by (nonlinear_arith);
                        assert((k0 + 1) * c <= cap) by (nonlinear_arith)
                            requires
                                k0 + 1 <= cpf,
                                cap == c * cpf,
                                c >= 0,
                        ;
                        assert(files[f0 - 1]@ =~= s.subrange((f0 - 1) * cap, pos + len));
                        assert forall|j: int| 0 <= j < files.len() - 1 implies #[trigger] files[j]@
                            == s.subrange(j * cap, j * cap + cap) by {
                            assert(files[j] == files0[j]);
                        }
                    }
                },
            }
        }
        pos = pos + take;
    }
    proof {
        let f = files.len() as int;
        let w = cap as nat;
        lemma_chunks_of_index(s, w);
        if f == 0 {
            assert(chunks_of(s, w) =~= Seq::<Seq<u8>>::empty());
        } else {
            assert(f * cap == (f - 1) * cap + cap) by (nonlinear_arith);
            lemma_piece_count_between(n, w, f as nat);
            assert forall|j: int| 0 <= j < f implies files.deep_view()[j] == chunks_of(s, w)[j] by {
                assert(files[j].deep_view() =~= files[j]@);
                if j < f - 1 {
                    assert(j * cap + cap <= (f - 1) * cap) by (nonlinear_arith)
                        requires
                            j < f - 1,
                            cap >= 0,
                    ;
                }
            }
        }
        assert(files.deep_view() =~= chunks_of(s, w));
    }
    files
}

/// The decimal digit `d`, for `d < 10`.
pub open spec fn digit_char(d: nat) -> char {
    seq!['0', '1', '2', '3', '4', '5', '6', '7', '8', '9'][d as int]
}

/// The decimal numeral of `n`, without leading zeros.
pub open spec fn decimal(n: nat) -> Seq<char>
    decreases n,
{
    if n < 10 {
        seq![digit_char(n)]
    } else {
        decimal(n / 10).push(digit_char(n % 10))
    }
}

/// The path of block file number `index` of a run whose base path is
/// `base`: the base, a dot, and the number in decimal.
pub open spec fn block_file_path(base: Seq<char>, index: nat) -> Seq<char> {
    base + seq!['.'] + decimal(index)
}

fn digit_str(d: usize) -> (r: &'static str)
    requires
        d < 10,
    ensures
        r@ == seq![digit_char(d as nat)],
{
    proof {
        reveal_strlit("0");
        reveal_strlit("1");
        reveal_strlit("2");
        reveal_strlit("3");
        reveal_strlit("4");
        reveal_strlit("5");
        reveal_strlit("6");
        reveal_strlit("7");
        reveal_strlit("8");
        reveal_strlit("9");
    }
    let r = match d {
        0 => "0",
        1 => "1",
        2 => "2",
        3 => "3",
        4 => "4",
        5 => "5",
        6 => "6",
        7 => "7",
        8 => "8",
        _ => "9",
    };
    assert(r@ =~= seq![digit_char(d as nat)]);
    r
}

fn append_decimal(s: &mut String, n: usize)
    ensures
        final(s)@ == old(s)@ + decimal(n as nat),
    decreases n,
{
    if n >= 10 {
        append_decimal(s, n / 10);
    }
    s.append(digit_str(n % 10));
    assert(s@ =~= old(s)@ + decimal(n as nat));
}

/// The path of block file number `index` (numbered from 1) of a
/// segmentation run over destinations derived from `base`.
pub fn block_file_name(base: &str, index: usize) -> (r: String)
    ensures
        r@ == block_file_path(base@, index as nat),
{
    let mut s = String::from_str(base);
    s.append(".");
    proof {
        reveal_strlit(".");
    }
    append_decimal(&mut s, index);
    assert(s@ =~= block_file_path(base@, index as nat));
    s
}

} // verus!
