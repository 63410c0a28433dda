//! The copy engine: data to upload gathered into one GPU buffer, each piece at an offset
//! aligned for its type, then copied through a staging buffer in chunks.
use vstd::prelude::*;

use byte_slice_cast::AsByteSlice;
use vstd::layout::align_of;

use crate::math::{min_value_align_to, spec_align_up};

verus! {

/// Bytes of the staging buffer uploads go through.
pub const STAGING_BUFFER_SIZE_BYTES: usize = 16777216;

/// Data that can be copied to the GPU: its bytes and the alignment its type needs.
pub trait CopyDataSource {
    /// How many bytes the data takes.
    spec fn spec_byte_len(&self) -> nat;

    /// Whether `bytes` are the data's bytes, as far as that holds on every machine.
    spec fn spec_bytes_of(&self, bytes: Seq<u8>) -> bool;

    spec fn spec_alignment(&self) -> usize;

    /// The alignment is not zero, and the data is a whole number of it.
    proof fn lemma_len_is_aligned(&self)
        ensures
            self.spec_alignment() > 0,
            self.spec_byte_len() % (self.spec_alignment() as nat) == 0,
    ;

    fn as_bytes(&self) -> (bytes: &[u8])
        ensures
            bytes@.len() == self.spec_byte_len(),
            self.spec_bytes_of(bytes@),
    ;

    fn alignment(&self) -> (alignment: usize)
        ensures
            alignment == self.spec_alignment(),
    ;

    fn is_empty(&self) -> (empty: bool)
        ensures
            empty == (self.spec_byte_len() == 0),
    ;
}

impl CopyDataSource for Vec<u8> {
    open spec fn spec_byte_len(&self) -> nat {
        self@.len()
    }

    open spec fn spec_bytes_of(&self, bytes: Seq<u8>) -> bool {
        bytes == self@
    }

    open spec fn spec_alignment(&self) -> usize {
        1
    }

    proof fn lemma_len_is_aligned(&self) {
    }

    fn as_bytes(&self) -> (bytes: &[u8]) {
        self.as_slice()
    }

    fn alignment(&self) -> (alignment: usize) {
        1
    }

    fn is_empty(&self) -> (empty: bool) {
        self.len() == 0
    }
}

impl<'s> CopyDataSource for &'s [u8] {
    open spec fn spec_byte_len(&self) -> nat {
        (*self)@.len()
    }

    open spec fn spec_bytes_of(&self, bytes: Seq<u8>) -> bool {
        bytes == (*self)@
    }

    open spec fn spec_alignment(&self) -> usize {
        1
    }

    proof fn lemma_len_is_aligned(&self) {
    }

    fn as_bytes(&self) -> (bytes: &[u8]) {
        *self
    }

    fn alignment(&self) -> (alignment: usize) {
        1
    }

    fn is_empty(&self) -> (empty: bool) {
        self.len() == 0
    }
}

/// `byte_slice_cast::AsByteSlice::as_byte_slice` on `u32` values: the same memory read as
/// bytes, four for each value. The contract states that length only: the order of a value's
/// four bytes is the machine's byte order, which is left unsaid.
#[verifier::external_body]
fn u32_bytes(values: &[u32]) -> (bytes: &[u8])
    ensures
        bytes@.len() == 4 * values@.len(),
{
    values.as_byte_slice()
}

/// The alignment of `u32` is not zero, fits `usize`, and divides the bytes of any number of
/// `u32` values.
proof fn lemma_u32_words_aligned(n: nat)
    ensures
        align_of::<u32>() > 0,
        align_of::<u32>() as usize as nat == align_of::<u32>(),
        (4 * n) % ((align_of::<u32>() as usize) as nat) == 0,
{
    broadcast use vstd::layout::layout_of_primitives, vstd::layout::align_properties, vstd::layout::align_nonzero;

    let a = align_of::<u32>();
    assert(size_of::<u32>() == 4);
    assert(4nat % a == 0);
    assert(a <= 4) by {
        if a > 4 {
            vstd::arithmetic::div_mod::lemma_small_mod(4nat, a);
        }
    }
    assert(a != 3) by {
        if a == 3 {
            assert(4nat % 3 == 1);
        }
    }
    if a == 1 {
        assert((4 * n) % 1 == 0);
    } else if a == 2 {
        assert((4 * n) % 2 == 0);
    } else {
        assert((4 * n) % 4 == 0);
    }
}

impl CopyDataSource for Vec<u32> {
    open spec fn spec_byte_len(&self) -> nat {
        4 * self@.len()
    }

    /// Four bytes for each value; which of them comes first is the machine's byte order.
    open spec fn spec_bytes_of(&self, bytes: Seq<u8>) -> bool {
        bytes.len() == 4 * self@.len()
    }

    open spec fn spec_alignment(&self) -> usize {
        align_of::<u32>() as usize
    }

    proof fn lemma_len_is_aligned(&self) {
        lemma_u32_words_aligned(self@.len());
    }

    fn as_bytes(&self) -> (bytes: &[u8]) {
        u32_bytes(self.as_slice())
    }

    fn alignment(&self) -> (alignment: usize) {
        std::mem::align_of::<u32>()
    }

    fn is_empty(&self) -> (empty: bool) {
        self.len() == 0
    }
}

impl<'s> CopyDataSource for &'s [u32] {
    open spec fn spec_byte_len(&self) -> nat {
        4 * (*self)@.len()
    }

    /// Four bytes for each value; which of them comes first is the machine's byte order.
    open spec fn spec_bytes_of(&self, bytes: Seq<u8>) -> bool {
        bytes.len() == 4 * (*self)@.len()
    }

    open spec fn spec_alignment(&self) -> usize {
        align_of::<u32>() as usize
    }

    proof fn lemma_len_is_aligned(&self) {
        lemma_u32_words_aligned((*self)@.len());
    }

    fn as_bytes(&self) -> (bytes: &[u8]) {
        u32_bytes(*self)
    }

    fn alignment(&self) -> (alignment: usize) {
        std::mem::align_of::<u32>()
    }

    fn is_empty(&self) -> (empty: bool) {
        self.len() == 0
    }
}

/// A piece of data to copy, and its offset in the destination.
pub struct CopyPrimitive<'a> {
    pub source: &'a [u8],
    pub offset: u32,
}

/// Gathers data to upload into one buffer, each piece after the previous one.
pub struct CopyEngine<'a> {
    pub copy_primitives: Vec<CopyPrimitive<'a>>,
    pub current_offset: u32,
}

/// Whether `a` is a power of two.
pub open spec fn spec_is_pow2(a: usize) -> bool {
    a != 0 && a & ((a - 1) as usize) == 0
}

/// One copy through the staging buffer: bytes `source_start..source_end` of piece
/// `source_idx`, to `dst_offset` in the destination buffer.
#[derive(Clone, Copy, Debug, PartialEq, Eq, Structural)]
pub struct UploadChunk {
    pub source_idx: usize,
    pub source_start: usize,
    pub source_end: usize,
    pub dst_offset: u64,
}

/// Number of staging buffer loads a piece of `len` bytes takes.
pub open spec fn spec_chunk_count(len: int) -> int {
    (len + STAGING_BUFFER_SIZE_BYTES - 1) / (STAGING_BUFFER_SIZE_BYTES as int)
}

/// The smaller of two integers.
pub open spec fn spec_min(a: int, b: int) -> int {
    if a <= b {
        a
    } else {
        b
    }
}

/// The copies of piece `idx`, of `len` bytes, that goes to `base` in the destination: one per
/// staging buffer load, in order.
pub open spec fn spec_chunks_of(idx: usize, len: int, base: int) -> Seq<UploadChunk> {
    Seq::new(
        spec_chunk_count(len) as nat,
        |j: int|
            UploadChunk {
                source_idx: idx,
                source_start: (j * STAGING_BUFFER_SIZE_BYTES) as usize,
                source_end: spec_min((j + 1) * STAGING_BUFFER_SIZE_BYTES, len) as usize,
                dst_offset: (base + j * STAGING_BUFFER_SIZE_BYTES) as u64,
            },
    )
}

/// The copies that upload every piece, piece after piece, to `dst_offset` and on.
pub open spec fn spec_upload_chunks(prims: Seq<CopyPrimitive>, dst_offset: int) -> Seq<UploadChunk>
    decreases prims.len(),
{
    if prims.len() == 0 {
        Seq::empty()
    } else {
        let i = prims.len() - 1;
        spec_upload_chunks(prims.drop_last(), dst_offset) + spec_chunks_of(
            i as usize,
            prims[i].source@.len() as int,
            dst_offset + prims[i].offset,
        )
    }
}

/// Where the last staging buffer load of a piece of `len` bytes starts.
pub open spec fn spec_last_chunk_start(len: int) -> int {
    if len == 0 {
        0
    } else {
        ((len - 1) / (STAGING_BUFFER_SIZE_BYTES as int)) * STAGING_BUFFER_SIZE_BYTES
    }
}

/// Total bytes of the pieces.
pub open spec fn spec_total_bytes(prims: Seq<CopyPrimitive>) -> int
    decreases prims.len(),
{
    if prims.len() == 0 {
        0
    } else {
        spec_total_bytes(prims.drop_last()) + prims.last().source@.len()
    }
}

impl<'a> CopyEngine<'a> {
    /// An engine with nothing to copy yet.
    pub fn new() -> (engine: Self)
        ensures
            engine.copy_primitives@.len() == 0,
            engine.current_offset == 0,
            engine.current_offset == spec_total_bytes(engine.copy_primitives@),
    {
        CopyEngine { copy_primitives: Vec::new(), current_offset: 0 }
    }

    /// Where the next piece goes.
    pub fn current_offset(&self) -> (offset: u32)
        ensures
            offset == self.current_offset,
    {
        self.current_offset
    }

    /// Adds a piece of data and returns its offset; the next piece goes after it, at the next
    /// multiple of its alignment. The alignment is a power of two, and the current offset is a
    /// multiple of it.
    pub fn copy<S: CopyDataSource>(&mut self, source: &'a S) -> (offset: u32)
        requires
            spec_is_pow2(source.spec_alignment()),
            old(self).current_offset as int % source.spec_alignment() as int == 0,
            source.spec_byte_len() + source.spec_alignment() <= usize::MAX,
            old(self).current_offset + spec_align_up(
                source.spec_byte_len() as int,
                source.spec_alignment() as int,
            ) <= u32::MAX,
        ensures
            offset == old(self).current_offset,
            final(self).current_offset == old(self).current_offset + spec_align_up(
                source.spec_byte_len() as int,
                source.spec_alignment() as int,
            ),
            final(self).copy_primitives@.len() == old(self).copy_primitives@.len() + 1,
            final(self).copy_primitives@.last().source@.len() == source.spec_byte_len(),
            source.spec_bytes_of(final(self).copy_primitives@.last().source@),
            final(self).copy_primitives@.last().offset == offset,
            final(self).current_offset == old(self).current_offset + source.spec_byte_len(),
            old(self).current_offset == spec_total_bytes(old(self).copy_primitives@) ==> final(self).current_offset
                == spec_total_bytes(final(self).copy_primitives@),
            forall|i: int|
                0 <= i < old(self).copy_primitives@.len() ==> #[trigger] final(self).copy_primitives@[i]
                    == old(self).copy_primitives@[i],
    {
        let alignment = source.alignment();
        let offset_beg = self.current_offset();
        let bytes = source.as_bytes();
        let data_len = bytes.len();
        self.copy_primitives.push(CopyPrimitive { source: bytes, offset: offset_beg });
        proof {
            source.lemma_len_is_aligned();
            crate::math::lemma_align_up(data_len as int, alignment as int);
            assert(self.copy_primitives@.drop_last() == old(self).copy_primitives@);
        }
        let aligned = min_value_align_to(data_len, alignment);
        self.current_offset = offset_beg + aligned as u32;
        offset_beg
    }

    /// Total bytes of the pieces.
    pub fn total_bytes(&self) -> (total: usize)
        requires
            spec_total_bytes(self.copy_primitives@) <= usize::MAX,
        ensures
            total == spec_total_bytes(self.copy_primitives@),
    {
        let mut total: usize = 0;
        let mut i: usize = 0;
        while i < self.copy_primitives.len()
            invariant
                i <= self.copy_primitives@.len(),
                spec_total_bytes(self.copy_primitives@) <= usize::MAX,
                total == spec_total_bytes(self.copy_primitives@.take(i as int)),
            decreases self.copy_primitives@.len() - i,
        {
            proof {
                assert(self.copy_primitives@.take(i + 1).drop_last() =~= self.copy_primitives@.take(i as int));
                lemma_total_bytes_prefix(self.copy_primitives@, i + 1);
            }
            total = total + self.copy_primitives[i].source.len();
            i = i + 1;
        }
        proof {
            assert(self.copy_primitives@.take(i as int) =~= self.copy_primitives@);
        }
        total
    }

    /// The copies through the staging buffer that upload every piece to `dst_offset` and on in
    /// the destination: each piece in loads of at most `STAGING_BUFFER_SIZE_BYTES` bytes.
    pub fn upload_chunks(&self, dst_offset: u32) -> (chunks: Vec<UploadChunk>)
        requires
            forall|i: int|
                0 <= i < self.copy_primitives@.len() ==> dst_offset + (#[trigger] self.copy_primitives@[i]).offset
                    + spec_last_chunk_start(self.copy_primitives@[i].source@.len() as int) <= u32::MAX,
        ensures
            chunks@ == spec_upload_chunks(self.copy_primitives@, dst_offset as int),
    {
        let mut chunks: Vec<UploadChunk> = Vec::new();
        let n = self.copy_primitives.len();
        let mut i: usize = 0;
        proof {
            assert(self.copy_primitives@.take(0) =~= Seq::<CopyPrimitive>::empty());
        }
        while i < n
            invariant
                n == self.copy_primitives@.len(),
                i <= n,
                forall|k: int|
                    0 <= k < n ==> dst_offset + (#[trigger] self.copy_primitives@[k]).offset + spec_last_chunk_start(
                        self.copy_primitives@[k].source@.len() as int,
                    ) <= u32::MAX,
                chunks@ == spec_upload_chunks(self.copy_primitives@.take(i as int), dst_offset as int),
            decreases n - i,
        {
            let prim = &self.copy_primitives[i];
            let bytes_len = prim.source.len();
            let ghost before = chunks@;
            let ghost base = dst_offset + prim.offset;
            let num_chunk = bytes_len / STAGING_BUFFER_SIZE_BYTES + if bytes_len % STAGING_BUFFER_SIZE_BYTES
                == 0 {
                0
            } else {
                1
            };
            proof {
                lemma_chunk_count(bytes_len as int);
            }
            let mut j: usize = 0;
            while j < num_chunk
                invariant
                    j <= num_chunk,
                    num_chunk == spec_chunk_count(bytes_len as int),
                    bytes_len == prim.source@.len(),
                    dst_offset + prim.offset + spec_last_chunk_start(bytes_len as int) <= u32::MAX,
                    base == dst_offset + prim.offset,
                    chunks@ == before + spec_chunks_of(i, bytes_len as int, base).take(j as int),
                decreases num_chunk - j,
            {
                proof {
                    lemma_chunk_bounds(bytes_len as int, j as int);
                }
                let start = j * STAGING_BUFFER_SIZE_BYTES;
                let end = if bytes_len - start < STAGING_BUFFER_SIZE_BYTES {
                    bytes_len
                } else {
                    start + STAGING_BUFFER_SIZE_BYTES
                };
                let dst = (dst_offset + prim.offset + start as u32) as u64;
                chunks.push(UploadChunk { source_idx: i, source_start: start, source_end: end, dst_offset: dst });
                proof {
                    assert(spec_chunks_of(i, bytes_len as int, base).take(j + 1) =~= spec_chunks_of(
                        i,
                        bytes_len as int,
                        base,
                    ).take(j as int).push(UploadChunk { source_idx: i, source_start: start, source_end: end, dst_offset: dst }));
                }
                j = j + 1;
            }
            proof {
                assert(spec_chunks_of(i, bytes_len as int, base).take(num_chunk as int) =~= spec_chunks_of(
                    i,
                    bytes_len as int,
                    base,
                ));
                assert(self.copy_primitives@.take(i + 1).drop_last() =~= self.copy_primitives@.take(i as int));
                assert(self.copy_primitives@.take(i + 1)[i as int] == self.copy_primitives@[i as int]);
            }
            i = i + 1;
        }
        proof {
            assert(self.copy_primitives@.take(n as int) =~= self.copy_primitives@);
        }
        chunks
    }
}

proof fn lemma_total_bytes_prefix(prims: Seq<CopyPrimitive>, k: int)
    requires
        0 <= k <= prims.len(),
    ensures
        spec_total_bytes(prims.take(k)) <= spec_total_bytes(prims),
    decreases prims.len(),
{
    if k < prims.len() {
        assert(prims.drop_last().take(k) =~= prims.take(k));
        lemma_total_bytes_prefix(prims.drop_last(), k);
    } else {
        assert(prims.take(k) =~= prims);
    }
}

proof fn lemma_chunk_count(len: int)
    requires
        len >= 0,
    ensures
        spec_chunk_count(len) == len / (STAGING_BUFFER_SIZE_BYTES as int) + (if len % (
        STAGING_BUFFER_SIZE_BYTES as int) == 0 {
            0int
        } else {
            1int
        }),
{
    let s = STAGING_BUFFER_SIZE_BYTES as int;
    let q = len / s;
    let r = len % s;
    assert(len == q * s + r && 0 <= r < s) by (nonlinear_arith)
        requires
            s > 0,
            len >= 0,
            q == len / s,
            r == len % s,
    ;
    if r == 0 {
        assert((len + s - 1) / s == q) by (nonlinear_arith)
            requires
                len == q * s,
                s > 0,
                q >= 0,
        ;
    } else {
        assert((len + s - 1) / s == q + 1) by (nonlinear_arith)
            requires
                len == q * s + r,
                0 < r < s,
                q >= 0,
        ;
    }
}

proof fn lemma_chunk_bounds(len: int, j: int)
    requires
        len >= 0,
        0 <= j < spec_chunk_count(len),
    ensures
        j * STAGING_BUFFER_SIZE_BYTES < len,
        j * STAGING_BUFFER_SIZE_BYTES <= spec_last_chunk_start(len),
{
    let s = STAGING_BUFFER_SIZE_BYTES as int;
    let x = len + s - 1;
    let q = x / s;
    assert(q * s <= x) by (nonlinear_arith)
        requires
            x >= 0,
            s > 0,
            q == x / s,
    ;
    assert(j * s <= (q - 1) * s) by (nonlinear_arith)
        requires
            j <= q - 1,
            s > 0,
    ;
    assert((q - 1) * s == q * s - s) by (nonlinear_arith);
    assert(j * s < len);
    let m = (len - 1) / s;
    assert(j <= m) by (nonlinear_arith)
        requires
            j * s <= len - 1,
            len - 1 >= 0,
            s > 0,
            m == (len - 1) / s,
            j >= 0,
    ;
    assert(j * s <= m * s) by (nonlinear_arith)
        requires
            j <= m,
            s > 0,
    ;
}

/// The copies of a piece cover its bytes exactly, in order and without overlap: the first
/// starts at 0, each starts where the previous one ended, the last ends at the end of the
/// piece, and each is at most the staging buffer's size and not empty.
pub proof fn lemma_chunks_cover_piece(idx: usize, len: int, base: int)
    requires
        0 <= len <= usize::MAX,
    ensures
        ({
            let c = spec_chunks_of(idx, len, base);
            &&& len == 0 <==> c.len() == 0
            &&& c.len() > 0 ==> c[0].source_start == 0 && c.last().source_end == len
            &&& forall|j: int| 0 <= j < c.len() - 1 ==> #[trigger] c[j].source_end == c[j + 1].source_start
            &&& forall|j: int|
                0 <= j < c.len() ==> (#[trigger] c[j]).source_start < c[j].source_end && c[j].source_end
                    - c[j].source_start <= STAGING_BUFFER_SIZE_BYTES
        }),
{
    let s = STAGING_BUFFER_SIZE_BYTES as int;
    let c = spec_chunks_of(idx, len, base);
    let n = spec_chunk_count(len);
    lemma_chunk_count(len);
    if len > 0 {
        assert(n >= 1 && (n - 1) * s < len && len <= n * s) by (nonlinear_arith)
            requires
                s > 0,
                len > 0,
                n == (len + s - 1) / s,
        ;
        assert(c.last() == c[n - 1]);
    } else {
        assert(n == 0);
    }
    assert forall|j: int| 0 <= j < c.len() - 1 implies #[trigger] c[j].source_end == c[j + 1].source_start by {
        lemma_chunk_bounds(len, j + 1);
        assert((j + 1) * s == j * s + s) by (nonlinear_arith);
    }
    assert forall|j: int| 0 <= j < c.len() implies (#[trigger] c[j]).source_start < c[j].source_end && c[j].source_end
        - c[j].source_start <= STAGING_BUFFER_SIZE_BYTES by {
        lemma_chunk_bounds(len, j);
        assert((j + 1) * s == j * s + s) by (nonlinear_arith);
    }
}


/// The bytes that copying pieces of these lengths and alignments takes: each piece's length
/// rounded up to its alignment, summed.
pub open spec fn spec_copied_total(pieces: Seq<(int, int)>) -> int
    decreases pieces.len(),
{
    if pieces.len() == 0 {
        0
    } else {
        spec_copied_total(pieces.drop_last()) + spec_align_up(pieces.last().0, pieces.last().1)
    }
}

/// The sum of the lengths of the pieces.
pub open spec fn spec_total_len(pieces: Seq<(int, int)>) -> int
    decreases pieces.len(),
{
    if pieces.len() == 0 {
        0
    } else {
        spec_total_len(pieces.drop_last()) + pieces.last().0
    }
}

/// After copies into a new engine, its current offset is the running total: the offsets an
/// engine goes through (`offsets[0]` when new, `offsets[i + 1]` after the copy of piece `i`,
/// as `copy` states each step) end at the sum of the pieces' lengths rounded up to their
/// alignments, and at the plain sum of their lengths when every piece is bytes (alignment 1).
pub proof fn lemma_copies_add_up(pieces: Seq<(int, int)>, offsets: Seq<int>)
    requires
        offsets.len() == pieces.len() + 1,
        offsets[0] == 0,
        forall|i: int|
            0 <= i < pieces.len() ==> #[trigger] offsets[i + 1] == offsets[i] + spec_align_up(pieces[i].0, pieces[i].1),
    ensures
        offsets.last() == spec_copied_total(pieces),
        (forall|i: int| 0 <= i < pieces.len() ==> #[trigger] pieces[i].1 == 1) ==> offsets.last() == spec_total_len(
            pieces,
        ),
    decreases pieces.len(),
{
    if pieces.len() > 0 {
        let n = pieces.len() - 1;
        let p = pieces.drop_last();
        let o = offsets.drop_last();
        assert forall|i: int| 0 <= i < p.len() implies #[trigger] o[i + 1] == o[i] + spec_align_up(p[i].0, p[i].1) by {
            assert(offsets[i + 1] == offsets[i] + spec_align_up(pieces[i].0, pieces[i].1));
        }
        lemma_copies_add_up(p, o);
        assert(offsets[n + 1] == offsets[n] + spec_align_up(pieces[n].0, pieces[n].1));
        if forall|i: int| 0 <= i < pieces.len() ==> #[trigger] pieces[i].1 == 1 {
            assert forall|i: int| 0 <= i < p.len() implies #[trigger] p[i].1 == 1 by {
                assert(pieces[i].1 == 1);
            }
            assert(pieces[n].1 == 1);
            assert(spec_align_up(pieces[n].0, 1) == pieces[n].0);
        }
    }
}

} // verus!
