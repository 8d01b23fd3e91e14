//! The blob-transfer protocol.
//!
//! A request is the UTF-8 text of a blob hash, written as is and read back
//! through a buffer of `REQUEST_BUFFER_LEN` bytes.  A response is a blob:
//! a four-byte big-endian length header followed by the blob's bytes, read
//! until the end of the stream.
use vstd::prelude::*;
use vstd::slice::slice_subrange;
use vstd::string::StrSliceExecFns;
use vstd::utf8::{decode_utf8, encode_utf8, encode_utf8_decode_utf8, encode_utf8_valid_utf8, valid_utf8};

verus! {

/// Size of the buffer that a request is read into: a request is at most
/// this many bytes, and any byte beyond is not read.
pub const REQUEST_BUFFER_LEN: usize = 1024;

/// Size of the buffer through which a response body is read.
pub const RESPONSE_CHUNK_LEN: usize = 65536;

/// Number of bytes of the length header in front of a response body.
pub const RESPONSE_HEADER_LEN: usize = 4;

/// The low 32 bits of a body length: what the length header carries.
pub open spec fn wire_length(len: nat) -> u32 {
    (len % 0x1_0000_0000) as u32
}

/// The four big-endian bytes of `v`.
pub open spec fn be_bytes(v: u32) -> Seq<u8> {
    seq![(v >> 24u32) as u8, ((v >> 16u32) & 0xffu32) as u8, ((v >> 8u32) & 0xffu32) as u8, (v & 0xffu32) as u8]
}

/// The number whose big-endian bytes are the four bytes of `b`.
pub open spec fn be_value(b: Seq<u8>) -> u32
    recommends
        b.len() == 4,
{
    ((b[0] as u32) << 24u32) | ((b[1] as u32) << 16u32) | ((b[2] as u32) << 8u32) | (b[3] as u32)
}

/// The length header of a response whose body is `len` bytes long.
pub open spec fn response_header_bytes(len: nat) -> Seq<u8> {
    be_bytes(wire_length(len))
}

/// Reading a header gives back the number that was written into it.
pub proof fn be_value_of_be_bytes(v: u32)
    ensures
        be_value(be_bytes(v)) == v,
{
    let b0 = (v >> 24u32) as u8;
    let b1 = ((v >> 16u32) & 0xffu32) as u8;
    let b2 = ((v >> 8u32) & 0xffu32) as u8;
    let b3 = (v & 0xffu32) as u8;
    assert(((b0 as u32) << 24u32) | ((b1 as u32) << 16u32) | ((b2 as u32) << 8u32) | (b3 as u32) == v)
        by (bit_vector)
        requires
            b0 == (v >> 24u32) as u8,
            b1 == ((v >> 16u32) & 0xffu32) as u8,
            b2 == ((v >> 8u32) & 0xffu32) as u8,
            b3 == (v & 0xffu32) as u8,
    ;
}

/// Every four bytes are the header of exactly one number.
pub proof fn be_bytes_of_be_value(b: Seq<u8>)
    requires
        b.len() == 4,
    ensures
        be_bytes(be_value(b)) == b,
{
    let (b0, b1, b2, b3) = (b[0], b[1], b[2], b[3]);
    let v = be_value(b);
    assert((v >> 24u32) as u8 == b0 && ((v >> 16u32) & 0xffu32) as u8 == b1 && ((v >> 8u32)
        & 0xffu32) as u8 == b2 && (v & 0xffu32) as u8 == b3) by (bit_vector)
        requires
            v == ((b0 as u32) << 24u32) | ((b1 as u32) << 16u32) | ((b2 as u32) << 8u32) | (
            b3 as u32),
    ;
    assert(be_bytes(v) =~= b);
}

/// The bytes of a read that make up a request: all of them, up to the size of
/// the request buffer.
pub open spec fn request_payload(received: Seq<u8>) -> Seq<u8> {
    if received.len() <= REQUEST_BUFFER_LEN {
        received
    } else {
        received.take(REQUEST_BUFFER_LEN as int)
    }
}

/// What a request is read from: the first bytes received, as many as were
/// received up to the size of the request buffer, and in the order received.
pub proof fn request_payload_is_first_bytes(received: Seq<u8>)
    ensures
        request_payload(received).len() == if received.len() <= REQUEST_BUFFER_LEN {
            received.len()
        } else {
            REQUEST_BUFFER_LEN as nat
        },
        forall|i: int|
            0 <= i < request_payload(received).len() ==> #[trigger] request_payload(received)[i]
                == received[i],
{
}

/// The text that `String::from_utf8_lossy` makes of `bytes`.
pub uninterp spec fn lossy_utf8(bytes: Seq<u8>) -> Seq<char>;

/// Calls `String::from_utf8_lossy` and takes the result as an owned string.
/// Claimed of it: the result is a function of the bytes alone, and where the
/// bytes are valid UTF-8 it is the text they encode.  What it makes of
/// invalid bytes (each invalid sequence replaced by U+FFFD) is left unsaid.
#[verifier::external_body]
fn string_from_utf8_lossy(bytes: &[u8]) -> (s: String)
    ensures
        s@ == lossy_utf8(bytes@),
        valid_utf8(bytes@) ==> s@ == decode_utf8(bytes@),
{
    String::from_utf8_lossy(bytes).into_owned()
}

/// A request written by `encode_request` that fits the request buffer is read
/// back by `decode_request` as the same text: its bytes are valid UTF-8 and
/// decode to it.
pub proof fn request_roundtrip(text: Seq<char>)
    requires
        encode_utf8(text).len() <= REQUEST_BUFFER_LEN,
    ensures
        request_payload(encode_utf8(text)) == encode_utf8(text),
        valid_utf8(request_payload(encode_utf8(text))),
        decode_utf8(request_payload(encode_utf8(text))) == text,
{
    encode_utf8_valid_utf8(text);
    encode_utf8_decode_utf8(text);
}

/// A response framed as its header followed by its body, when read back
/// (the first `RESPONSE_HEADER_LEN` bytes given to `start_response`, the rest
/// to `on_read`), announces the body length cut to 32 bits, which is the
/// length itself below 4 GiB, and yields the body unchanged.
pub proof fn response_frame_roundtrip(body: Seq<u8>)
    ensures
        response_header_bytes(body.len()).len() == RESPONSE_HEADER_LEN,
        be_value((response_header_bytes(body.len()) + body).take(RESPONSE_HEADER_LEN as int))
            == wire_length(body.len()),
        (response_header_bytes(body.len()) + body).skip(RESPONSE_HEADER_LEN as int) == body,
        body.len() < 0x1_0000_0000 ==> wire_length(body.len()) == body.len(),
{
    be_value_of_be_bytes(wire_length(body.len()));
}

/// The state of a `ResponseReader` after a non-empty read of `chunk`: the
/// announced length kept, the chunk appended to the body.
pub open spec fn read_step(state: (u32, Seq<u8>), chunk: Seq<u8>) -> (u32, Seq<u8>) {
    (state.0, state.1 + chunk)
}

/// The state of a `ResponseReader` after the non-empty reads `reads`, in order.
pub open spec fn after_reads(state: (u32, Seq<u8>), reads: Seq<Seq<u8>>) -> (u32, Seq<u8>)
    decreases reads.len(),
{
    if reads.len() == 0 {
        state
    } else {
        read_step(after_reads(state, reads.drop_last()), reads.last())
    }
}

/// The bytes of the reads `reads`, in order.
pub open spec fn concat_reads(reads: Seq<Seq<u8>>) -> Seq<u8>
    decreases reads.len(),
{
    if reads.len() == 0 {
        Seq::empty()
    } else {
        concat_reads(reads.drop_last()) + reads.last()
    }
}

/// The progress that the reads `reads` report, added up.
pub open spec fn total_progress(reads: Seq<Seq<u8>>) -> nat
    decreases reads.len(),
{
    if reads.len() == 0 {
        0
    } else {
        total_progress(reads.drop_last()) + reads.last().len()
    }
}

/// Reading in chunks: after any number of non-empty reads, the announced
/// length is unchanged, the body has grown by the reads' bytes in order, and
/// the progress reported adds up to the number of those bytes.
pub proof fn reads_append_in_order(state: (u32, Seq<u8>), reads: Seq<Seq<u8>>)
    ensures
        after_reads(state, reads) == (state.0, state.1 + concat_reads(reads)),
        total_progress(reads) == concat_reads(reads).len(),
    decreases reads.len(),
{
    if reads.len() > 0 {
        reads_append_in_order(state, reads.drop_last());
        assert(state.1 + concat_reads(reads.drop_last()) + reads.last() =~= state.1
            + concat_reads(reads));
    }
}

/// How the stream splits its bytes into reads does not matter: two runs of
/// non-empty reads with the same bytes leave a reader in the same state.
pub proof fn reads_independent_of_chunking(
    state: (u32, Seq<u8>),
    reads1: Seq<Seq<u8>>,
    reads2: Seq<Seq<u8>>,
)
    requires
        concat_reads(reads1) == concat_reads(reads2),
    ensures
        after_reads(state, reads1) == after_reads(state, reads2),
{
    reads_append_in_order(state, reads1);
    reads_append_in_order(state, reads2);
}

/// Reading back what was written: a reader started on the header of a
/// response (the state `start_response` gives), then fed the body in any
/// non-empty reads, holds the body unchanged and announces its length cut to
/// 32 bits, which is the length itself below 4 GiB.
pub proof fn response_read_back(body: Seq<u8>, reads: Seq<Seq<u8>>)
    requires
        concat_reads(reads) == body,
    ensures
        after_reads((be_value(response_header_bytes(body.len())), Seq::<u8>::empty()), reads)
            == (wire_length(body.len()), body),
        body.len() < 0x1_0000_0000 ==> wire_length(body.len()) == body.len(),
{
    be_value_of_be_bytes(wire_length(body.len()));
    reads_append_in_order((be_value(response_header_bytes(body.len())), Seq::<u8>::empty()), reads);
    assert(Seq::<u8>::empty() + body =~= body);
}

/// The codec of the blob-transfer protocol.
#[derive(Debug, Clone)]
pub struct BlobCodec;

/// A request for a blob, named by its hash.
#[derive(Debug, Clone, PartialEq, Eq)]
pub struct Request(pub String);

/// A blob's data.
#[derive(Debug, Clone, PartialEq, Eq)]
pub struct Response(pub Vec<u8>);

/// What a `ResponseReader` asks of its driver after a read.
#[derive(Debug, Clone, Copy, PartialEq, Eq, Structural)]
pub enum ReadStep {
    /// The stream ended: the response is complete.
    Finished,
    /// `bytes` more bytes of the body arrived; read on.
    Progress { bytes: u64 },
}

/// The state of a response being read: the length its header announced and
/// the body bytes received so far.
pub struct ResponseReader {
    total_size: u32,
    body: Vec<u8>,
}

impl View for ResponseReader {
    /// The announced length and the body received so far.
    type V = (u32, Seq<u8>);

    closed spec fn view(&self) -> (u32, Seq<u8>) {
        (self.total_size, self.body@)
    }
}

impl BlobCodec {
    /// The bytes that carry `req`: the UTF-8 encoding of its text.
    pub fn encode_request(&self, req: &Request) -> (bytes: Vec<u8>)
        ensures
            bytes@ == encode_utf8(req.0@),
    {
        req.0.as_str().as_bytes_vec()
    }

    /// The request carried by the bytes of one read: the first
    /// `REQUEST_BUFFER_LEN` of them at most, decoded as UTF-8 with invalid
    /// sequences replaced.
    pub fn decode_request(&self, received: &[u8]) -> (req: Request)
        ensures
            req.0@ == lossy_utf8(request_payload(received@)),
            valid_utf8(request_payload(received@)) ==> req.0@ == decode_utf8(
                request_payload(received@),
            ),
            request_payload(received@) == received@.subrange(
                0,
                if received@.len() <= REQUEST_BUFFER_LEN {
                    received@.len() as int
                } else {
                    REQUEST_BUFFER_LEN as int
                },
            ),
    {
        let n: usize = if received.len() <= REQUEST_BUFFER_LEN {
            received.len()
        } else {
            REQUEST_BUFFER_LEN
        };
        let payload = slice_subrange(received, 0, n);
        assert(payload@ =~= request_payload(received@));
        Request(string_from_utf8_lossy(payload))
    }

    /// The length header written in front of `res`'s bytes: the body length,
    /// cut to 32 bits, in big-endian order.
    pub fn response_header(&self, res: &Response) -> (header: [u8; 4])
        ensures
            header@ == response_header_bytes(res.0@.len()),
    {
        let len64 = res.0.len() as u64;
        let v = (len64 % 0x1_0000_0000u64) as u32;
        let header = [(v >> 24u32) as u8, ((v >> 16u32) & 0xffu32) as u8, ((v >> 8u32) & 0xffu32) as u8, (v & 0xffu32) as u8];
        header
    }

    /// Starts reading a response whose length header is `header`.
    pub fn start_response(&self, header: [u8; 4]) -> (reader: ResponseReader)
        ensures
            reader@.0 == be_value(header@),
            reader@.1 == Seq::<u8>::empty(),
    {
        let total_size: u32 = ((header[0] as u32) << 24u32) | ((header[1] as u32) << 16u32) | ((
        header[2] as u32) << 8u32) | (header[3] as u32);
        ResponseReader { total_size, body: Vec::new() }
    }
}

impl ResponseReader {
    /// The body length that the header announced.
    pub fn total_size(&self) -> (n: u32)
        ensures
            n == self@.0,
    {
        self.total_size
    }

    /// The number of body bytes received so far.
    pub fn received_len(&self) -> (n: usize)
        ensures
            n == self@.1.len(),
    {
        self.body.len()
    }

    /// Takes the bytes of one read: an empty read is the end of the stream,
    /// any other is appended to the body and reported as progress.
    pub fn on_read(&mut self, chunk: &[u8]) -> (step: ReadStep)
        requires
            old(self)@.1.len() + chunk@.len() <= usize::MAX,
        ensures
            chunk@.len() == 0 ==> step == ReadStep::Finished && final(self)@ == old(self)@,
            chunk@.len() > 0 ==> step == (ReadStep::Progress { bytes: chunk@.len() as u64 })
                && final(self)@ == read_step(old(self)@, chunk@),
    {
        if chunk.len() == 0 {
            return ReadStep::Finished;
        }
        self.body.extend_from_slice(chunk);
        ReadStep::Progress { bytes: chunk.len() as u64 }
    }

    /// The response made of the body received.
    pub fn finish(self) -> (res: Response)
        ensures
            res.0@ == self@.1,
    {
        Response(self.body)
    }
}

} // verus!
