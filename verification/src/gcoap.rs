//! Payload writers and block-wise response planning for RIOT's Gcoap server
//!
//! [BlockWriter] renders a whole response payload again and again, and keeps only the part that
//! falls into the requested block, while a checksum over everything written gives an ETag.
//! [plan_block_response] decides which options a block-wise response carries.

use vstd::prelude::*;
use vstd::string::StringSliceAdditionalSpecFns;

verus! {

/// The method flag for GET requests
pub const GET: u32 = 1;

/// CoAP option number of ETag
pub const COAP_OPT_ETAG: u16 = 4;
/// CoAP option number of Observe
pub const COAP_OPT_OBSERVE: u16 = 6;
/// CoAP option number of Content-Format
pub const COAP_OPT_CONTENT_FORMAT: u16 = 12;
/// CoAP option number of Block2
pub const COAP_OPT_BLOCK2: u16 = 23;
/// CoAP option number of Size2
pub const COAP_OPT_SIZE2: u16 = 28;

/// The CRC-64 (ECMA polynomial) state after feeding `bytes` into the state `value`
pub uninterp spec fn crc64_ecma_update(value: u64, bytes: Seq<u8>) -> u64;

/// Calls `crc::crc64::update` with the ECMA table: the CRC-64 state `value` advanced over
/// `bytes`. The result is named by [crc64_ecma_update]. The source (a byte-by-byte loop between
/// two bit inversions) shows that no bytes leave the state unchanged, and that continuing from
/// the result over more bytes is the same as one update over all of them.
#[verifier::external_body]
fn crc64_update(value: u64, bytes: &[u8]) -> (r: u64)
    ensures
        r == crc64_ecma_update(value, bytes@),
        bytes@.len() == 0 ==> r == value,
        forall|more: Seq<u8>| #[trigger]
            crc64_ecma_update(r, more) == crc64_ecma_update(value, bytes@ + more),
{
    crc::crc64::update(value, &crc::crc64::ECMA_TABLE, bytes)
}

/// The buffer after a write of `s` at position `cursor` into a window `data`: every position of
/// the window that the write covers holds the written byte, every other position is unchanged.
pub open spec fn window_write(data: Seq<u8>, cursor: int, s: Seq<u8>) -> Seq<u8> {
    Seq::new(
        data.len(),
        |j: int|
            if cursor <= j < cursor + s.len() {
                s[j - cursor]
            } else {
                data[j]
            },
    )
}

/// A writer that keeps a window of what is written to it
///
/// The `cursor` is the position of the next byte relative to the start of `data`; it starts
/// negative when the window is not at the start of the output, and keeps counting past the end
/// of `data` so that the total length is known after writing.
pub struct BlockWriter<'a> {
    pub data: &'a mut [u8],
    pub cursor: isize,
    pub etag: u64,
}

impl<'a> BlockWriter<'a> {
    /// The number of bytes written into the window, or None if writing has not reached it yet
    pub fn bytes_in_buffer(&self) -> (r: Option<usize>)
        ensures
            r is Some <==> self.cursor >= 0,
            r matches Some(n) ==> n == if self.cursor <= old(self.data)@.len() {
                self.cursor as int
            } else {
                old(self.data)@.len() as int
            },
    {
        if self.cursor < 0 {
            None
        } else {
            let c = self.cursor as usize;
            if c < self.data.len() {
                Some(c)
            } else {
                Some(self.data.len())
            }
        }
    }

    /// Whether more was written than fits into the window
    pub fn did_overflow(&self) -> (r: bool)
        requires
            old(self.data)@.len() <= isize::MAX,
        ensures
            r == (self.cursor > old(self.data)@.len()),
    {
        self.cursor > self.data.len() as isize
    }

    /// Write a string: the part of it that falls into the window is copied there, the cursor
    /// advances by its full length, and the ETag checksum is updated over all of it.
    pub fn write_str(&mut self, s: &str) -> (r: Result<(), ()>)
        requires
            old(self).data@.len() <= isize::MAX,
            s.spec_bytes().len() <= isize::MAX,
            old(self).cursor + s.spec_bytes().len() <= isize::MAX,
        ensures
            r is Ok,
            final(self).etag == crc64_ecma_update(old(self).etag, s.spec_bytes()),
            forall|more: Seq<u8>| #[trigger]
                crc64_ecma_update(final(self).etag, more) == crc64_ecma_update(
                    old(self).etag,
                    s.spec_bytes() + more,
                ),
            etag_step(old(self).etag, final(self).etag, s.spec_bytes()),
            final(self).cursor == old(self).cursor + s.spec_bytes().len(),
            final(self).data@ == window_write(old(self).data@, old(self).cursor as int, s.spec_bytes()),
    {
        self.write_bytes(s.as_bytes())
    }

    /// Write bytes, just like [Self::write_str]
    pub fn write_bytes(&mut self, s: &[u8]) -> (r: Result<(), ()>)
        requires
            old(self).data@.len() <= isize::MAX,
            s@.len() <= isize::MAX,
            old(self).cursor + s@.len() <= isize::MAX,
        ensures
            r is Ok,
            final(self).etag == crc64_ecma_update(old(self).etag, s@),
            forall|more: Seq<u8>| #[trigger]
                crc64_ecma_update(final(self).etag, more) == crc64_ecma_update(
                    old(self).etag,
                    s@ + more,
                ),
            etag_step(old(self).etag, final(self).etag, s@),
            final(self).cursor == old(self).cursor + s@.len(),
            final(self).data@ == window_write(old(self).data@, old(self).cursor as int, s@),
    {
        let ghost old_data = self.data@;
        let ghost old_cursor = self.cursor as int;
        self.etag = crc64_update(self.etag, s);
        let len = s.len() as isize;
        let data_len = self.data.len() as isize;
        if self.cursor >= data_len {
            self.cursor = self.cursor + len;
            assert(self.data@ =~= window_write(old_data, old_cursor, s@));
            return Ok(());
        }
        if self.cursor < -len {
            self.cursor = self.cursor + len;
            assert(self.data@ =~= window_write(old_data, old_cursor, s@));
            return Ok(());
        }
        // Position in `s` from where on bytes land in the window
        let skip: usize = if self.cursor < 0 {
            (-self.cursor) as usize
        } else {
            0
        };
        let start: usize = if self.cursor < 0 {
            0
        } else {
            self.cursor as usize
        };
        let mut count: usize = s.len() - skip;
        if start + count > self.data.len() {
            count = self.data.len() - start;
        }
        let mut i: usize = 0;
        while i < count
            invariant
                i <= count,
                start + count <= self.data@.len(),
                skip + count <= s@.len(),
                start as int == skip as int + old_cursor,
                self.data@.len() == old_data.len(),
                old_data.len() <= isize::MAX,
                self.cursor as int == old_cursor,
                self.etag == crc64_ecma_update(old(self).etag, s@),
                forall|j: int|
                    0 <= j < self.data@.len() ==> self.data@[j] == if start <= j < start + i {
                        s@[j - old_cursor]
                    } else {
                        old_data[j]
                    },
            decreases count - i,
        {
            let di = start + i;
            let b = s[skip + i];
            self.data[di] = b;
            i = i + 1;
        }
        self.cursor = self.cursor + len;
        assert(self.data@ =~= window_write(old_data, old_cursor, s@));
        Ok(())
    }
}

/// A writer that fills a buffer from its start, and reports an error when the buffer is full
pub struct PayloadWriter<'a> {
    data: &'a mut [u8],
    cursor: usize,
}

impl<'a> PayloadWriter<'a> {
    /// The bytes of the buffer
    pub closed spec fn spec_data(&self) -> Seq<u8> {
        self.data@
    }

    /// The number of bytes written
    pub closed spec fn spec_cursor(&self) -> nat {
        self.cursor as nat
    }

    /// A writer at the start of `data`
    pub fn new(data: &'a mut [u8]) -> (w: Self)
        ensures
            w.spec_data() == old(data)@,
            w.spec_cursor() == 0,
    {
        PayloadWriter { data, cursor: 0 }
    }

    /// The number of bytes written
    pub fn cursor(&self) -> (c: usize)
        ensures
            c == self.spec_cursor(),
    {
        self.cursor
    }

    /// Write a string: as much of it as fits is appended; if not all of it fits, this is an
    /// error.
    pub fn write_str(&mut self, s: &str) -> (r: Result<(), ()>)
        requires
            old(self).spec_cursor() <= old(self).spec_data().len(),
        ensures
            ({
                let room = old(self).spec_data().len() - old(self).spec_cursor();
                let n = if s.spec_bytes().len() <= room { s.spec_bytes().len() as int } else { room };
                &&& r is Ok <==> s.spec_bytes().len() <= room
                &&& final(self).spec_cursor() == old(self).spec_cursor() + n
                &&& final(self).spec_data() == window_write(
                    old(self).spec_data(),
                    old(self).spec_cursor() as int,
                    s.spec_bytes().take(n),
                )
            }),
            final(self).spec_cursor() <= final(self).spec_data().len(),
    {
        let s = s.as_bytes();
        let ghost old_data = self.data@;
        let ghost old_cursor = self.cursor as int;
        let mut n = s.len();
        let mut result = Ok(());
        if n > self.data.len() - self.cursor {
            n = self.data.len() - self.cursor;
            result = Err(());
        }
        let mut i: usize = 0;
        while i < n
            invariant
                i <= n,
                self.cursor + n <= self.data@.len(),
                n <= s@.len(),
                self.cursor as int == old_cursor,
                self.data@.len() == old_data.len(),
                old_data.len() <= usize::MAX,
                forall|j: int|
                    0 <= j < self.data@.len() ==> self.data@[j] == if old_cursor <= j < old_cursor + i {
                        s@[j - old_cursor]
                    } else {
                        old_data[j]
                    },
            decreases n - i,
        {
            let di = self.cursor + i;
            let b = s[i];
            self.data[di] = b;
            i = i + 1;
        }
        self.cursor = self.cursor + n;
        assert(self.data@ =~= window_write(old_data, old_cursor, s@.take(n as int)));
        result
    }
}

/// Writing `a` and then `b` right after it leaves the window just as writing `a` followed by `b`
/// in one go.
pub proof fn law_window_write_concat(data: Seq<u8>, cursor: int, a: Seq<u8>, b: Seq<u8>)
    ensures
        window_write(window_write(data, cursor, a), cursor + a.len(), b) == window_write(
            data,
            cursor,
            a + b,
        ),
{
    assert(window_write(window_write(data, cursor, a), cursor + a.len(), b) =~= window_write(
        data,
        cursor,
        a + b,
    ));
}

/// Writing `a` and then `b` through a block writer leaves it as writing `a + b` at once: the
/// same window contents, the same cursor and the same ETag. `etag_after_a` is the ETag that the
/// write of `a` left, as [BlockWriter::write_bytes] describes it.
pub proof fn law_block_writes_concat(
    data: Seq<u8>,
    cursor: int,
    etag: u64,
    etag_after_a: u64,
    a: Seq<u8>,
    b: Seq<u8>,
)
    requires
        etag_after_a == crc64_ecma_update(etag, a),
        forall|more: Seq<u8>| #[trigger]
            crc64_ecma_update(etag_after_a, more) == crc64_ecma_update(etag, a + more),
    ensures
        window_write(window_write(data, cursor, a), cursor + a.len(), b) == window_write(
            data,
            cursor,
            a + b,
        ),
        (cursor + a.len()) + b.len() == cursor + (a + b).len(),
        crc64_ecma_update(etag_after_a, b) == crc64_ecma_update(etag, a + b),
{
    law_window_write_concat(data, cursor, a, b);
    assert(crc64_ecma_update(etag_after_a, b) == crc64_ecma_update(etag, a + b));
}

/// The bytes of `chunks`, one after the other
pub open spec fn joined(chunks: Seq<Seq<u8>>) -> Seq<u8>
    decreases chunks.len(),
{
    if chunks.len() == 0 {
        Seq::empty()
    } else {
        joined(chunks.drop_last()) + chunks.last()
    }
}

/// What a write of `chunk` through a [BlockWriter] does to its ETag, as
/// [BlockWriter::write_bytes] and [BlockWriter::write_str] state it, whatever the writer's window:
/// the ETag `after` is the checksum `before` advanced over the chunk, and continuing from it is
/// continuing from `before` over the chunk.
pub open spec fn etag_step(before: u64, after: u64, chunk: Seq<u8>) -> bool {
    &&& after == crc64_ecma_update(before, chunk)
    &&& forall|more: Seq<u8>| #[trigger]
        crc64_ecma_update(after, more) == crc64_ecma_update(before, chunk + more)
}

/// After a sequence of writes of `chunks` through a block writer (its ETags before and after
/// each write in `etags`), the ETag is the checksum of all the bytes written, from the ETag it
/// started with; the window the writer keeps plays no part.
pub proof fn law_etag_of_writes(chunks: Seq<Seq<u8>>, etags: Seq<u64>)
    requires
        etags.len() == chunks.len() + 1,
        forall|i: int| 0 <= i < chunks.len() ==> #[trigger] etag_step(etags[i], etags[i + 1], chunks[i]),
    ensures
        forall|more: Seq<u8>| #[trigger]
            crc64_ecma_update(etags.last(), more) == crc64_ecma_update(etags[0], joined(chunks) + more),
        chunks.len() > 0 ==> etags.last() == crc64_ecma_update(etags[0], joined(chunks)),
    decreases chunks.len(),
{
    if chunks.len() == 0 {
        assert forall|more: Seq<u8>| #[trigger]
            crc64_ecma_update(etags.last(), more) == crc64_ecma_update(etags[0], joined(chunks) + more) by {
            assert(joined(chunks) + more =~= more);
        }
    } else {
        let n = chunks.len() - 1;
        let prefix = chunks.drop_last();
        let earlier = etags.drop_last();
        assert forall|i: int| 0 <= i < prefix.len() implies #[trigger] etag_step(earlier[i], earlier[i + 1], prefix[i]) by {
            assert(etag_step(etags[i], etags[i + 1], chunks[i]));
        }
        law_etag_of_writes(prefix, earlier);
        assert(etag_step(etags[n], etags[n + 1], chunks[n]));
        assert(earlier.last() == etags[n]);
        let last = chunks.last();
        assert(etags.last() == crc64_ecma_update(etags[n], last));
        assert(crc64_ecma_update(earlier.last(), last) == crc64_ecma_update(etags[0], joined(prefix) + last));
        assert forall|more: Seq<u8>| #[trigger]
            crc64_ecma_update(etags.last(), more) == crc64_ecma_update(etags[0], joined(chunks) + more) by {
            assert(crc64_ecma_update(etags.last(), more) == crc64_ecma_update(etags[n], last + more));
            assert(crc64_ecma_update(earlier.last(), last + more) == crc64_ecma_update(
                etags[0],
                joined(prefix) + (last + more),
            ));
            assert(joined(prefix) + (last + more) =~= joined(chunks) + more);
        }
    }
}

/// Two block-wise responses whose payloads are rendered as the same bytes carry the same ETag,
/// whichever blocks they keep and however the rendering is split into writes: each writer starts
/// from the same ETag, and the two sequences of written chunks join to the same bytes.
pub proof fn law_same_payload_same_etag(
    chunks_a: Seq<Seq<u8>>,
    etags_a: Seq<u64>,
    chunks_b: Seq<Seq<u8>>,
    etags_b: Seq<u64>,
)
    requires
        etags_a.len() == chunks_a.len() + 1,
        etags_b.len() == chunks_b.len() + 1,
        forall|i: int| 0 <= i < chunks_a.len() ==> #[trigger] etag_step(etags_a[i], etags_a[i + 1], chunks_a[i]),
        forall|i: int| 0 <= i < chunks_b.len() ==> #[trigger] etag_step(etags_b[i], etags_b[i + 1], chunks_b[i]),
        chunks_a.len() > 0,
        chunks_b.len() > 0,
        etags_a[0] == etags_b[0],
        joined(chunks_a) == joined(chunks_b),
    ensures
        etags_a.last() == etags_b.last(),
        etags_a.last() == crc64_ecma_update(etags_a[0], joined(chunks_a)),
{
    law_etag_of_writes(chunks_a, etags_a);
    law_etag_of_writes(chunks_b, etags_b);
}

/// Size in bytes of a block with size exponent `szx`
pub open spec fn block_size(szx: nat) -> nat
    decreases szx,
{
    if szx == 0 {
        16
    } else {
        2 * block_size((szx - 1) as nat)
    }
}

/// The size exponent a block-wise response uses: the largest one not above `szx` whose block is
/// smaller than the `available` buffer space
pub open spec fn fitting_szx(szx: nat, available: nat) -> nat
    decreases szx,
{
    if szx == 0 || block_size(szx) < available {
        szx
    } else {
        fitting_szx((szx - 1) as nat, available)
    }
}

/// `n` doubled `k` times
pub open spec fn doubled(n: nat, k: nat) -> nat
    decreases k,
{
    if k == 0 {
        n
    } else {
        2 * doubled(n, (k - 1) as nat)
    }
}

proof fn lemma_fitting_szx(szx: nat, available: nat)
    requires
        available > 16,
    ensures
        fitting_szx(szx, available) <= szx,
        block_size(fitting_szx(szx, available)) < available,
    decreases szx,
{
    if szx > 0 && block_size(szx) >= available {
        lemma_fitting_szx((szx - 1) as nat, available);
    }
}

proof fn lemma_block_size_bound(n: nat)
    requires
        n <= 7,
    ensures
        block_size(n) <= block_size(7),
        block_size(7) == 2048,
    decreases 7 - n,
{
    assert(block_size(7) == 2048) by {
        reveal_with_fuel(block_size, 8);
    }
    if n < 7 {
        lemma_block_size_bound(n + 1);
    }
}

proof fn lemma_doubled_monotonic(n: nat, k: nat, l: nat)
    requires
        k <= l,
    ensures
        doubled(n, k) <= doubled(n, l),
    decreases l,
{
    if k < l {
        lemma_doubled_monotonic(n, k, (l - 1) as nat);
    }
}

/// The block size for a block-wise response, and the block number and size exponent the
/// requested block has at that size
pub struct BlockChoice {
    pub blksize: usize,
    pub blknum: u32,
    pub szx: u32,
}

/// Decrease the block size from the requested one until a block fits into the `available`
/// buffer space; each halving of the size doubles the block number.
pub fn choose_block(blknum: u32, szx: u32, available: usize) -> (c: BlockChoice)
    requires
        szx <= 7,
        available > 16,
        doubled(blknum as nat, (szx - fitting_szx(szx as nat, available as nat)) as nat) <= u32::MAX,
    ensures
        c.szx == fitting_szx(szx as nat, available as nat),
        c.blksize == block_size(c.szx as nat),
        c.blksize < available,
        c.blknum == doubled(blknum as nat, (szx - c.szx) as nat),
{
    proof {
        lemma_fitting_szx(szx as nat, available as nat);
    }
    let ghost fit = fitting_szx(szx as nat, available as nat);
    let mut blksize: usize = 16;
    let mut i: u32 = 0;
    while i < szx
        invariant
            i <= szx <= 7,
            blksize == block_size(i as nat),
            blksize <= 2048,
        decreases szx - i,
    {
        proof {
            lemma_block_size_bound((i + 1) as nat);
        }
        blksize = blksize * 2;
        i = i + 1;
    }
    let mut num = blknum;
    let mut sz = szx;
    while blksize >= available
        invariant
            fit <= sz <= szx <= 7,
            fit == fitting_szx(szx as nat, available as nat),
            fitting_szx(sz as nat, available as nat) == fit,
            block_size(fit) < available,
            blksize == block_size(sz as nat),
            num == doubled(blknum as nat, (szx - sz) as nat),
            doubled(blknum as nat, (szx - fit) as nat) <= u32::MAX,
        decreases sz,
    {
        proof {
            lemma_doubled_monotonic(blknum as nat, (szx - sz + 1) as nat, (szx - fit) as nat);
        }
        num = num * 2;
        sz = sz - 1;
        blksize = blksize / 2;
    }
    BlockChoice { blksize, blknum: num, szx: sz }
}

/// The size exponent that [choose_block] arrives at for the requested exponent `szx`
fn fitting_exponent(szx: u32, available: usize) -> (r: u32)
    requires
        szx <= 7,
        available > 16,
    ensures
        r == fitting_szx(szx as nat, available as nat),
        r <= szx,
{
    proof {
        lemma_fitting_szx(szx as nat, available as nat);
    }
    let mut blksize: usize = 16;
    let mut i: u32 = 0;
    while i < szx
        invariant
            i <= szx <= 7,
            blksize == block_size(i as nat),
            blksize <= 2048,
        decreases szx - i,
    {
        proof {
            lemma_block_size_bound((i + 1) as nat);
        }
        blksize = blksize * 2;
        i = i + 1;
    }
    let mut sz = szx;
    while blksize >= available
        invariant
            sz <= szx <= 7,
            fitting_szx(sz as nat, available as nat) == fitting_szx(szx as nat, available as nat),
            block_size(fitting_szx(szx as nat, available as nat)) < available,
            fitting_szx(szx as nat, available as nat) <= sz,
            blksize == block_size(sz as nat),
        decreases sz,
    {
        sz = sz - 1;
        blksize = blksize / 2;
    }
    sz
}

/// Whether `n` doubled `k` times still fits a `u32`
fn doubled_fits(n: u32, k: u32) -> (r: bool)
    ensures
        r == (doubled(n as nat, k as nat) <= u32::MAX),
{
    let mut v: u64 = n as u64;
    let mut i: u32 = 0;
    while i < k
        invariant
            i <= k,
            v == doubled(n as nat, i as nat),
            v <= u32::MAX,
        decreases k - i,
    {
        let next = v * 2;
        if next > u32::MAX as u64 {
            proof {
                lemma_doubled_monotonic(n as nat, (i + 1) as nat, k as nat);
            }
            return false;
        }
        v = next;
        i = i + 1;
    }
    true
}

/// CoAP message type "confirmable"
pub const COAP_TYPE_CON: u8 = 0;
/// CoAP message type "acknowledgement"
pub const COAP_TYPE_ACK: u8 = 2;
/// Space kept between the header and the payload of a block-wise response, for its options
pub const BLOCKWISE_OPTION_HEADROOM: usize = 25;

/// The message type of a CoAP header whose first byte (version, type, token length) is `b`
pub open spec fn coap_type(b: u8) -> int {
    ((b / 16) % 4) as int
}

/// The first header byte of the response to a request whose first header byte is `b`: a
/// confirmable request is answered by an acknowledgement, any other type is kept
pub open spec fn response_first_byte(b: u8) -> int {
    if coap_type(b) == COAP_TYPE_CON {
        b + 16 * COAP_TYPE_ACK
    } else {
        b as int
    }
}

/// Why a block-wise response cannot be built
#[derive(Debug, PartialEq, Eq, Structural)]
pub enum BlockwiseError {
    /// Even the smallest block does not fit after the header and the option space
    BufferTooSmall,
    /// The requested block number, scaled to the block size that fits, is out of range
    BlockNumberOverflow,
}

/// How a block-wise response is laid out in the packet buffer before the payload is rendered
pub struct BlockwisePlan {
    /// The new first header byte
    pub first_byte: u8,
    /// The response code
    pub code: u8,
    /// Where the rendering window starts in the buffer
    pub payload_start: usize,
    /// The space from there to the end of the buffer
    pub payload_len: usize,
    /// The block that is rendered into the window
    pub block: BlockChoice,
    /// The start cursor of the [BlockWriter]: the window's offset in the whole payload, negated
    pub start_cursor: isize,
}

/// The requested block: the Block2 option's number and size exponent, or block 0 of size
/// exponent 6 (1024 bytes) when the request has none
pub open spec fn requested_block(request_block2: Option<(u32, u32)>) -> (u32, u32) {
    match request_block2 {
        Some(b) => b,
        None => (0, 6),
    }
}

/// Lay out a block-wise response in a buffer of `buf_len` bytes that holds the request, whose
/// first header byte is `first_byte`: the header turns into an acknowledgement (of a confirmable
/// request) with the response `code`, the rendering window starts 25 bytes after header and
/// token, and the requested block (`request_block2`, see [requested_block]) shrinks until a
/// block fits into that window, doubling its number each time.
///
/// This fails where no block of at least 16 bytes fits, and where the block number or the
/// window's offset in the payload overflow.
pub fn plan_blockwise(first_byte: u8, code: u32, buf_len: usize, request_block2: Option<(u32, u32)>) -> (r: Result<
    BlockwisePlan,
    BlockwiseError,
>)
    requires
        requested_block(request_block2).1 <= 7,
    ensures
        ({
            let headroom = 4 + first_byte % 16 + BLOCKWISE_OPTION_HEADROOM;
            let (blknum, szx) = requested_block(request_block2);
            let fit = fitting_szx(szx as nat, (buf_len - headroom) as nat);
            let num = doubled(blknum as nat, (szx - fit) as nat);
            &&& (buf_len <= headroom + 16 <==> r == Err::<BlockwisePlan, BlockwiseError>(
                BlockwiseError::BufferTooSmall,
            ))
            &&& (buf_len > headroom + 16 && (num > u32::MAX || block_size(fit) * num > isize::MAX)
                <==> r == Err::<BlockwisePlan, BlockwiseError>(
                BlockwiseError::BlockNumberOverflow,
            ))
            &&& (r matches Ok(p) ==> {
                &&& p.first_byte == response_first_byte(first_byte)
                &&& p.code == code % 256
                &&& p.payload_start == headroom
                &&& p.payload_len == buf_len - headroom
                &&& p.block.szx == fit
                &&& p.block.blksize == block_size(fit)
                &&& p.block.blksize < p.payload_len
                &&& p.block.blknum == num
                &&& p.start_cursor == -(block_size(fit) * num)
            })
        }),
{
    let (blknum, szx) = match request_block2 {
        Some(b) => b,
        None => (0u32, 6u32),
    };
    let token_len = first_byte & 0x0f;
    assert(token_len == first_byte % 16) by (bit_vector)
        requires
            token_len == first_byte & 0x0f,
    ;
    let headroom: usize = 4 + token_len as usize + BLOCKWISE_OPTION_HEADROOM;
    if buf_len <= headroom + 16 {
        return Err(BlockwiseError::BufferTooSmall);
    }
    let available = buf_len - headroom;
    let fit = fitting_exponent(szx, available);
    if !doubled_fits(blknum, szx - fit) {
        return Err(BlockwiseError::BlockNumberOverflow);
    }
    let block = choose_block(blknum, szx, available);
    proof {
        lemma_block_size_bound(block.szx as nat);
    }
    let size: u64 = block.blksize as u64;
    let number: u64 = block.blknum as u64;
    assert(size * number <= 2048 * 0xffff_ffff) by (nonlinear_arith)
        requires
            size <= 2048,
            number <= 0xffff_ffff,
    ;
    let offset: u64 = size * number;
    if offset > isize::MAX as u64 {
        return Err(BlockwiseError::BlockNumberOverflow);
    }
    let start_cursor: isize = -(offset as isize);
    let type_bits = (first_byte & 0x30) >> 4u8;
    assert(type_bits as int == (first_byte / 16) % 4) by (bit_vector)
        requires
            type_bits == (first_byte & 0x30) >> 4u8,
    ;
    let new_first: u8 = if type_bits == COAP_TYPE_CON {
        let b = (first_byte & 0xcf) | (COAP_TYPE_ACK << 4u8);
        assert(b as int == first_byte + 32) by (bit_vector)
            requires
                b == (first_byte & 0xcf) | (2u8 << 4u8),
                (first_byte & 0x30) >> 4u8 == 0,
        ;
        b
    } else {
        first_byte
    };
    let low = code & 0xff;
    assert(low < 256 && low == code % 256) by (bit_vector)
        requires
            low == code & 0xff,
    ;
    let code_byte = low as u8;
    Ok(
        BlockwisePlan {
            first_byte: new_first,
            code: code_byte,
            payload_start: headroom,
            payload_len: available,
            block,
            start_cursor,
        },
    )
}

/// The value of a Block2 option: block number, more flag and size exponent
pub open spec fn block2_value(blknum: u32, more: bool, szx: u32) -> int {
    (blknum as int * 16) % 0x1_0000_0000 + (if more { 8int } else { 0int }) + szx as int
}

/// The options (number and integer value, in order) and payload size of one block of a
/// block-wise response
pub struct BlockResponse {
    pub options: Vec<(u16, u32)>,
    pub payload_len: usize,
}

/// The options a block of a block-wise response carries
///
/// `written` is the total payload length the writer counted, `etag` its checksum; `observe_value`
/// is the request's observe value (`u32::MAX` when it is not observed).
pub open spec fn spec_block_options(
    etag: u64,
    observe_value: u32,
    format: u32,
    blknum: u32,
    more: bool,
    szx: u32,
    written: int,
) -> Seq<(u16, u32)> {
    let with_etag = seq![(COAP_OPT_ETAG, (etag % 0x1_0000_0000) as u32)];
    let with_observe = if blknum == 0 && observe_value != u32::MAX {
        with_etag.push((COAP_OPT_OBSERVE, observe_value))
    } else {
        with_etag
    };
    let with_block = with_observe.push((COAP_OPT_CONTENT_FORMAT, format)).push(
        (COAP_OPT_BLOCK2, block2_value(blknum, more, szx) as u32),
    );
    if blknum == 0 {
        with_block.push((COAP_OPT_SIZE2, (written % 0x1_0000_0000) as u32))
    } else {
        with_block
    }
}

/// The Block2 option of a block of a block-wise response, whatever the block number: the block
/// number times 16 (in 32 bits), plus 8 exactly when more of the payload follows the block, plus
/// the size exponent. Every block carries exactly this one Block2 value.
pub proof fn law_block2_option(
    etag: u64,
    observe_value: u32,
    format: u32,
    blknum: u32,
    more: bool,
    szx: u32,
    written: int,
)
    ensures
        ({
            let opts = spec_block_options(etag, observe_value, format, blknum, more, szx, written);
            let v = ((blknum as int * 16) % 0x1_0000_0000 + (if more { 8int } else { 0int })
                + szx as int) as u32;
            &&& opts.contains((COAP_OPT_BLOCK2, v))
            &&& forall|i: int|
                0 <= i < opts.len() && (#[trigger] opts[i]).0 == COAP_OPT_BLOCK2 ==> opts[i].1 == v
        }),
{
    let opts = spec_block_options(etag, observe_value, format, blknum, more, szx, written);
    let v = ((blknum as int * 16) % 0x1_0000_0000 + (if more { 8int } else { 0int })
        + szx as int) as u32;
    let idx: int = if blknum == 0 && observe_value != u32::MAX { 3 } else { 2 };
    assert(opts[idx] == (COAP_OPT_BLOCK2, v));
}

/// Decide the options and the payload size of a block after the whole payload was written
/// through `writer`, whose window is the block `blknum` of size exponent `szx`
///
/// The writer must have reached its window (otherwise there is nothing to respond with).
pub fn plan_block_response(
    writer: &BlockWriter,
    blknum: u32,
    szx: u32,
    format: u32,
    observe_value: u32,
) -> (r: BlockResponse)
    requires
        writer.cursor >= 0,
        szx < 8,
        old(writer.data)@.len() <= isize::MAX,
    ensures
        r.payload_len == if writer.cursor <= old(writer.data)@.len() {
            writer.cursor as int
        } else {
            old(writer.data)@.len() as int
        },
        r.options@ == spec_block_options(
            writer.etag,
            observe_value,
            format,
            blknum,
            writer.cursor > old(writer.data)@.len(),
            szx,
            writer.cursor as int,
        ),
        r.options@.contains(
            (
                COAP_OPT_BLOCK2,
                ((blknum as int * 16) % 0x1_0000_0000 + (if writer.cursor > old(writer.data)@.len() {
                    8int
                } else {
                    0int
                }) + szx as int) as u32,
            ),
        ),
{
    proof {
        law_block2_option(
            writer.etag,
            observe_value,
            format,
            blknum,
            writer.cursor > old(writer.data)@.len(),
            szx,
            writer.cursor as int,
        );
    }
    let payload_len = match writer.bytes_in_buffer() {
        Some(n) => n,
        None => 0,
    };
    let more = writer.did_overflow();
    let mut options: Vec<(u16, u32)> = Vec::new();
    let etag = writer.etag;
    assert((etag as u32) as int == etag % 0x1_0000_0000) by (bit_vector);
    options.push((COAP_OPT_ETAG, etag as u32));
    if blknum == 0 && observe_value != u32::MAX {
        options.push((COAP_OPT_OBSERVE, observe_value));
    }
    options.push((COAP_OPT_CONTENT_FORMAT, format));
    let more_bit: u32 = if more {
        1
    } else {
        0
    };
    let block2 = (blknum << 4u32) | (more_bit << 3u32) | szx;
    assert(((blknum << 4u32) | (more_bit << 3u32) | szx) as int == (blknum as int * 16)
        % 0x1_0000_0000 + more_bit as int * 8 + szx as int) by (bit_vector)
        requires
            szx < 8,
            more_bit <= 1,
    ;
    options.push((COAP_OPT_BLOCK2, block2));
    if blknum == 0 {
        let total = writer.cursor as u64;
        assert((total as u32) as int == total % 0x1_0000_0000) by (bit_vector);
        options.push((COAP_OPT_SIZE2, total as u32));
    }
    proof {
        assert(options@ =~= spec_block_options(
            writer.etag,
            observe_value,
            format,
            blknum,
            more,
            szx,
            writer.cursor as int,
        ));
    }
    BlockResponse { options, payload_len }
}

/// A C style return value that is zero on success
pub trait ZeroOk {
    /// The value as an integer
    spec fn spec_value(&self) -> int;

    /// Ok if the value is zero, an error otherwise
    fn convert(self) -> (r: Result<(), ()>)
        ensures
            r is Ok <==> self.spec_value() == 0,
    ;
}

impl ZeroOk for i32 {
    open spec fn spec_value(&self) -> int {
        *self as int
    }

    fn convert(self) -> (r: Result<(), ()>) {
        if self == 0 {
            Ok(())
        } else {
            Err(())
        }
    }
}

impl ZeroOk for isize {
    open spec fn spec_value(&self) -> int {
        *self as int
    }

    fn convert(self) -> (r: Result<(), ()>) {
        if self == 0 {
            Ok(())
        } else {
            Err(())
        }
    }
}

/// The buffer of a CoAP message being processed by Gcoap: the message bytes (starting with the
/// 4-byte CoAP header and the token), and the window that nanocoap currently designates as the
/// payload
///
/// Before the options are finished, the payload window is the space after the options added so
/// far.
pub struct PacketBuffer<'b> {
    buf: &'b mut [u8],
    payload_start: usize,
    payload_len: usize,
}

impl<'b> PacketBuffer<'b> {
    #[verifier::type_invariant]
    spec fn window_inside(self) -> bool {
        &&& self.buf@.len() >= 4
        &&& self.buf@.len() <= usize::MAX
        &&& self.payload_start + self.payload_len <= self.buf@.len()
    }

    /// The bytes of the buffer
    pub closed spec fn bytes(&self) -> Seq<u8> {
        self.buf@
    }

    /// The offset of the payload window
    pub closed spec fn spec_payload_start(&self) -> nat {
        self.payload_start as nat
    }

    /// The length of the payload window
    pub closed spec fn spec_payload_len(&self) -> nat {
        self.payload_len as nat
    }

    /// A message in `buf` whose payload window starts at `payload_start` and is `payload_len`
    /// bytes long
    pub fn new(buf: &'b mut [u8], payload_start: usize, payload_len: usize) -> (r: Option<Self>)
        ensures
            r is Some <==> old(buf)@.len() >= 4 && payload_start + payload_len <= old(buf)@.len(),
            r matches Some(p) ==> p.bytes() == old(buf)@ && p.spec_payload_start() == payload_start
                && p.spec_payload_len() == payload_len,
    {
        if buf.len() < 4 || payload_start > buf.len() || payload_len > buf.len() - payload_start {
            None
        } else {
            Some(PacketBuffer { buf, payload_start, payload_len })
        }
    }

    /// Move the payload window, as nanocoap does when options are added or the response is
    /// initialized
    pub fn set_payload_window(&mut self, payload_start: usize, payload_len: usize) -> (ok: bool)
        ensures
            ok <==> payload_start + payload_len <= old(self).bytes().len(),
            final(self).bytes() == old(self).bytes(),
            ok ==> final(self).spec_payload_start() == payload_start && final(self).spec_payload_len() == payload_len,
            !ok ==> final(self).spec_payload_start() == old(self).spec_payload_start() && final(self).spec_payload_len() == old(self).spec_payload_len(),
    {
        proof {
            use_type_invariant(&*self);
        }
        if payload_start > self.buf.len() || payload_len > self.buf.len() - payload_start {
            false
        } else {
            self.payload_len = 0;
            self.payload_start = payload_start;
            self.payload_len = payload_len;
            true
        }
    }

    /// The message code (the header's second byte)
    pub fn get_code_raw(&self) -> (c: u8)
        ensures
            c == self.bytes()[1],
    {
        proof {
            use_type_invariant(self);
        }
        self.buf[1]
    }

    /// Set the message code
    pub fn set_code_raw(&mut self, code: u8)
        ensures
            final(self).bytes() == old(self).bytes().update(1, code),
            final(self).spec_payload_start() == old(self).spec_payload_start(),
            final(self).spec_payload_len() == old(self).spec_payload_len(),
    {
        proof {
            use_type_invariant(&*self);
        }
        self.buf[1] = code;
    }

    /// The length of header and token (the token length is the low nibble of the first byte)
    pub fn get_total_hdr_len(&self) -> (l: usize)
        ensures
            l == 4 + self.bytes()[0] % 16,
    {
        proof {
            use_type_invariant(self);
        }
        4 + (self.buf[0] % 16) as usize
    }

    /// Return the total number of bytes in the message, given that `payload_used` bytes (including
    /// the payload marker) were written at the start of the payload window.
    pub fn get_length(&self, payload_used: usize) -> (l: usize)
        requires
            self.spec_payload_start() + payload_used <= self.bytes().len(),
        ensures
            l == self.spec_payload_start() + payload_used,
    {
        proof {
            use_type_invariant(self);
        }
        self.payload_start + payload_used
    }

    /// A view of the current payload window
    pub fn payload(&self) -> (p: &[u8])
        ensures
            p@ == self.bytes().subrange(
                self.spec_payload_start() as int,
                (self.spec_payload_start() + self.spec_payload_len()) as int,
            ),
            p@.len() == self.spec_payload_len(),
            self.spec_payload_start() + self.spec_payload_len() <= self.bytes().len(),
    {
        proof {
            use_type_invariant(self);
        }
        &self.buf[self.payload_start..self.payload_start + self.payload_len]
    }

    /// Write the payload marker (0xff) and `data` at the start of the payload window, if both fit
    /// into it; otherwise leave the buffer unchanged.
    pub fn write_payload(&mut self, data: &[u8]) -> (ok: bool)
        ensures
            ok <==> data@.len() + 1 <= old(self).spec_payload_len(),
            final(self).spec_payload_start() == old(self).spec_payload_start(),
            final(self).spec_payload_len() == old(self).spec_payload_len(),
            ok ==> final(self).bytes() == window_write(
                old(self).bytes(),
                old(self).spec_payload_start() as int,
                seq![0xffu8] + data@,
            ),
            !ok ==> final(self).bytes() == old(self).bytes(),
    {
        proof {
            use_type_invariant(&*self);
        }
        if data.len() >= self.payload_len {
            return false;
        }
        let ghost old_bytes = self.buf@;
        let start = self.payload_start;
        self.buf[start] = 0xff;
        let mut i: usize = 0;
        while i < data.len()
            invariant
                i <= data@.len(),
                start == self.payload_start,
                start + data@.len() + 1 <= self.buf@.len(),
                self.buf@.len() == old_bytes.len(),
                old_bytes.len() <= usize::MAX,
                old_bytes.len() >= 4,
                self.payload_start + self.payload_len <= old_bytes.len(),
                self.payload_len == old(self).spec_payload_len(),
                self.payload_start == old(self).spec_payload_start(),
                forall|j: int|
                    0 <= j < self.buf@.len() ==> self.buf@[j] == if start <= j < start + 1 + i {
                        (seq![0xffu8] + data@)[j - start]
                    } else {
                        old_bytes[j]
                    },
            decreases data@.len() - i,
        {
            let di = start + 1 + i;
            let b = data[i];
            self.buf[di] = b;
            i = i + 1;
        }
        assert(self.buf@ =~= window_write(old_bytes, start as int, seq![0xffu8] + data@));
        true
    }
}


} // verus!
