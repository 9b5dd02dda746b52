//! The GLB binary container: a 12-byte header followed by a JSON chunk and a binary chunk,
//! each preceded by its length and type and padded to a multiple of four bytes.

use vstd::prelude::*;
use crate::bytes::{u32_le, read_u32_le, lemma_read_u32_le, pad4, fill, push_u32_le, append_bytes, append_fill, padding_for};

verus! {

broadcast use crate::bytes::lemma_u32_le_len;

/// The magic number at the start of every GLB file ("glTF" in ASCII, read little-endian).
pub const GLB_MAGIC: u32 = 0x46546C67;
/// The GLB container version written by this library.
pub const GLB_VERSION: u32 = 2;
/// Chunk type of the JSON chunk ("JSON").
pub const GLB_CHUNK_TYPE_JSON: u32 = 0x4E4F534A;
/// Chunk type of the binary chunk ("BIN\0").
pub const GLB_CHUNK_TYPE_BIN: u32 = 0x004E4942;
/// Length of the GLB file header in bytes.
pub const GLB_HEADER_LENGTH: usize = 12;
/// Length of a chunk header in bytes.
pub const GLB_CHUNK_HEADER_LENGTH: usize = 8;

/// A chunk: declared length (the payload padded to four bytes), type, payload, padding.
#[verifier::opaque]
pub open spec fn chunk(kind: u32, payload: Seq<u8>, pad_byte: u8) -> Seq<u8> {
    u32_le(payload.len() as int + pad4(payload.len() as int)) + u32_le(kind as int) + payload + fill(
        pad_byte,
        pad4(payload.len() as int),
    )
}

/// The 12-byte header: magic, version and the total length of the file.
#[verifier::opaque]
pub open spec fn header(total: int) -> Seq<u8> {
    u32_le(GLB_MAGIC as int) + u32_le(GLB_VERSION as int) + u32_le(total)
}

/// The file written for a document: the JSON chunk padded with spaces and, only when the
/// binary buffer is not empty, the binary chunk padded with zeros.
pub open spec fn document_glb(json: Seq<u8>, bin: Seq<u8>) -> Seq<u8> {
    let body = chunk(GLB_CHUNK_TYPE_JSON, json, 0x20) + if bin.len() == 0 {
        Seq::empty()
    } else {
        chunk(GLB_CHUNK_TYPE_BIN, bin, 0)
    };
    header(12 + body.len() as int) + body
}

/// Appends `payload` as a chunk of type `kind`, padded with `pad_byte`.
pub fn push_chunk(out: &mut Vec<u8>, kind: u32, payload: &[u8], pad_byte: u8)
    requires
        payload@.len() + 4 <= usize::MAX,
    ensures
        final(out)@ == old(out)@ + chunk(kind, payload@, pad_byte),
{
    reveal(chunk);
    let pad = padding_for(payload.len());
    let declared = ((payload.len() + pad) as u64 % 0x1_0000_0000u64) as u32;
    proof {
        lemma_u32_le_mod((payload.len() + pad) as int);
    }
    push_u32_le(out, declared);
    push_u32_le(out, kind);
    append_bytes(out, payload);
    append_fill(out, pad_byte, pad);
    assert(final(out)@ =~= old(out)@ + chunk(kind, payload@, pad_byte));
}

/// Appends the 12-byte header declaring a file of `total` bytes (modulo 2^32).
pub fn push_header(out: &mut Vec<u8>, total: usize)
    ensures
        final(out)@ == old(out)@ + header(total as int),
{
    reveal(header);
    proof {
        lemma_u32_le_mod(total as int);
    }
    push_u32_le(out, GLB_MAGIC);
    push_u32_le(out, GLB_VERSION);
    push_u32_le(out, (total as u64 % 0x1_0000_0000u64) as u32);
    assert(final(out)@ =~= old(out)@ + header(total as int));
}

/// Writing a length modulo 2^32 writes the same bytes as writing the length itself.
pub proof fn lemma_u32_le_mod(v: int)
    requires
        v >= 0,
    ensures
        u32_le(v % 0x1_0000_0000) == u32_le(v),
{
    reveal(u32_le);
    assert((v % 0x1_0000_0000) % 0x1_0000_0000 == v % 0x1_0000_0000) by (nonlinear_arith)
        requires
            v >= 0,
    ;
}

/// Writes the GLB container of a document whose JSON text is `json` and whose binary buffer
/// is `bin`: the JSON chunk is padded with spaces, the binary chunk (left out when `bin` is
/// empty) with zeros, and the header records the length of the whole file (modulo 2^32).
pub fn document_glb_bytes(json: &[u8], bin: &[u8]) -> (out: Vec<u8>)
    requires
        json@.len() + bin@.len() + 64 <= usize::MAX,
    ensures
        out@ == document_glb(json@, bin@),
{
    broadcast use group_glb_lengths;

    let mut body: Vec<u8> = Vec::new();
    push_chunk(&mut body, GLB_CHUNK_TYPE_JSON, json, 0x20);
    let ghost json_part = body@;
    if bin.len() > 0 {
        push_chunk(&mut body, GLB_CHUNK_TYPE_BIN, bin, 0);
    } else {
        assert(body@ =~= json_part + Seq::<u8>::empty());
    }
    assert(body@.len() == json@.len() + pad4(json@.len() as int) + 8 + if bin@.len() == 0 {
        0
    } else {
        bin@.len() + pad4(bin@.len() as int) + 8
    });
    let mut out: Vec<u8> = Vec::new();
    push_header(&mut out, body.len() + 12);
    append_bytes(&mut out, body.as_slice());
    assert(out@ =~= document_glb(json@, bin@));
    out
}

/// The file a [`GlbWriter`] writes: both chunks are always present and both are padded with
/// zero bytes.
pub open spec fn writer_glb(json: Seq<u8>, bin: Seq<u8>) -> Seq<u8> {
    let body = chunk(GLB_CHUNK_TYPE_JSON, json, 0) + chunk(GLB_CHUNK_TYPE_BIN, bin, 0);
    header(12 + body.len() as int) + body
}

/// Collects the JSON text and the binary data of a GLB file and writes the container.
pub struct GlbWriter {
    /// The JSON chunk's payload (UTF-8 text).
    pub json_chunk: Vec<u8>,
    /// The binary chunk's payload.
    pub bin_chunk: Vec<u8>,
}

impl GlbWriter {
    /// Creates a writer with empty JSON and binary payloads.
    pub fn new() -> (w: Self)
        ensures
            w.json_chunk@ == Seq::<u8>::empty(),
            w.bin_chunk@ == Seq::<u8>::empty(),
    {
        GlbWriter { json_chunk: Vec::new(), bin_chunk: Vec::new() }
    }

    /// Replaces the JSON payload with the UTF-8 bytes of `json`.
    pub fn set_json(&mut self, json: String)
        ensures
            final(self).json_chunk@ == vstd::utf8::encode_utf8(json@),
            final(self).bin_chunk == old(self).bin_chunk,
    {
        let bytes = json.as_str().as_bytes();
        self.json_chunk = vstd::slice::slice_to_vec(bytes);
    }

    /// Appends `data` to the binary payload and returns the offset at which it starts.
    pub fn add_binary_data(&mut self, data: &[u8]) -> (offset: usize)
        ensures
            offset == old(self).bin_chunk@.len(),
            final(self).bin_chunk@ == old(self).bin_chunk@ + data@,
            final(self).json_chunk == old(self).json_chunk,
    {
        let offset = self.bin_chunk.len();
        append_bytes(&mut self.bin_chunk, data);
        offset
    }

    /// The length of `buffer` rounded up to the next multiple of four.
    pub fn padded_length(buffer: &[u8]) -> (n: usize)
        requires
            buffer@.len() + 3 <= usize::MAX,
        ensures
            n == buffer@.len() + pad4(buffer@.len() as int),
            n % 4 == 0,
            buffer@.len() <= n < buffer@.len() + 4,
    {
        let remainder = buffer.len() % 4;
        if remainder == 0 {
            buffer.len()
        } else {
            buffer.len() + (4 - remainder)
        }
    }

    /// Appends the zero bytes that align the end of `buffer` to four bytes.
    pub fn write_padding(writer: &mut Vec<u8>, buffer: &[u8])
        ensures
            final(writer)@ == old(writer)@ + fill(0, pad4(buffer@.len() as int)),
    {
        let remainder = buffer.len() % 4;
        if remainder != 0 {
            append_fill(writer, 0, 4 - remainder);
        } else {
            append_fill(writer, 0, 0);
        }
    }

    /// Appends the whole GLB file: header, zero-padded JSON chunk and zero-padded binary chunk.
    pub fn write(&self, writer: &mut Vec<u8>)
        requires
            self.json_chunk@.len() + self.bin_chunk@.len() + 64 <= usize::MAX,
        ensures
            final(writer)@ == old(writer)@ + writer_glb(self.json_chunk@, self.bin_chunk@),
    {
        let json_padded_length = Self::padded_length(self.json_chunk.as_slice());
        let bin_padded_length = Self::padded_length(self.bin_chunk.as_slice());
        let total_length = GLB_HEADER_LENGTH + 2 * GLB_CHUNK_HEADER_LENGTH + json_padded_length
            + bin_padded_length;
        broadcast use group_glb_lengths;

        let ghost start = writer@;
        push_header(writer, total_length);
        push_chunk(writer, GLB_CHUNK_TYPE_JSON, self.json_chunk.as_slice(), 0);
        push_chunk(writer, GLB_CHUNK_TYPE_BIN, self.bin_chunk.as_slice(), 0);
        assert(writer@ =~= start + writer_glb(self.json_chunk@, self.bin_chunk@));
    }
}

/// A chunk is eight header bytes, the payload and its padding; a header is twelve bytes.
pub broadcast proof fn lemma_chunk_len(kind: u32, payload: Seq<u8>, pad_byte: u8)
    ensures
        #[trigger] chunk(kind, payload, pad_byte).len() == 8 + payload.len() + pad4(
            payload.len() as int,
        ),
{
    reveal(chunk);
}

/// A header is twelve bytes long.
pub broadcast proof fn lemma_header_len(total: int)
    ensures
        #[trigger] header(total).len() == 12,
{
    reveal(header);
}

/// Layout facts of a chunk written at the start of `rest`.
proof fn lemma_chunk_layout(kind: u32, payload: Seq<u8>, pad_byte: u8, pre: Seq<u8>, post: Seq<u8>)
    ensures
        ({
            let s = pre + chunk(kind, payload, pad_byte) + post;
            let o = pre.len() as int;
            &&& read_u32_le(s, o) == (payload.len() + pad4(payload.len() as int)) % 0x1_0000_0000
            &&& read_u32_le(s, o + 4) == kind
            &&& s.subrange(o + 8, o + 8 + payload.len()) == payload
        }),
{
    reveal(chunk);
    let c = chunk(kind, payload, pad_byte);
    let len_bytes = u32_le(payload.len() + pad4(payload.len() as int));
    let rest1 = u32_le(kind as int) + payload + fill(pad_byte, pad4(payload.len() as int)) + post;
    assert(pre + c + post =~= pre + len_bytes + rest1);
    lemma_read_u32_le(payload.len() + pad4(payload.len() as int), pre, rest1);
    let rest2 = payload + fill(pad_byte, pad4(payload.len() as int)) + post;
    assert(pre + c + post =~= (pre + len_bytes) + u32_le(kind as int) + rest2);
    lemma_read_u32_le(kind as int, pre + len_bytes, rest2);
    assert((kind as int) % 0x1_0000_0000 == kind as int);
    let s = pre + c + post;
    let o = pre.len() as int;
    assert(s.subrange(o + 8, o + 8 + payload.len()) =~= payload);
}

/// Layout facts of the 12-byte header at the start of `s`.
proof fn lemma_header_layout(total: int, post: Seq<u8>)
    ensures
        ({
            let s = header(total) + post;
            &&& read_u32_le(s, 0) == GLB_MAGIC
            &&& read_u32_le(s, 4) == GLB_VERSION
            &&& read_u32_le(s, 8) == total % 0x1_0000_0000
        }),
{
    reveal(header);
    let e = Seq::<u8>::empty();
    let m = u32_le(GLB_MAGIC as int);
    let v = u32_le(GLB_VERSION as int);
    let t = u32_le(total);
    assert(header(total) + post =~= e + m + (v + t + post));
    lemma_read_u32_le(GLB_MAGIC as int, e, v + t + post);
    assert(header(total) + post =~= m + v + (t + post));
    lemma_read_u32_le(GLB_VERSION as int, m, t + post);
    assert(header(total) + post =~= (m + v) + t + post);
    lemma_read_u32_le(total, m + v, post);
}

/// The lengths, header and JSON chunk of a file whose header is followed by the JSON chunk
/// and then by `rest`.
proof fn lemma_front_reads_back(json: Seq<u8>, json_pad: u8, rest: Seq<u8>)
    ensures
        ({
            let body = chunk(GLB_CHUNK_TYPE_JSON, json, json_pad) + rest;
            let f = header(12 + body.len() as int) + body;
            let jp = json.len() as int + pad4(json.len() as int);
            &&& f.len() == 20 + jp + rest.len()
            &&& read_u32_le(f, 0) == GLB_MAGIC
            &&& read_u32_le(f, 4) == GLB_VERSION
            &&& read_u32_le(f, 8) == f.len() % 0x1_0000_0000
            &&& read_u32_le(f, 12) == jp % 0x1_0000_0000
            &&& read_u32_le(f, 16) == GLB_CHUNK_TYPE_JSON
            &&& f.subrange(20, 20 + json.len() as int) == json
        }),
{
    broadcast use group_glb_lengths;

    let jc = chunk(GLB_CHUNK_TYPE_JSON, json, json_pad);
    let body = jc + rest;
    let h = header(12 + body.len() as int);
    let f = h + body;
    lemma_header_layout(12 + body.len() as int, body);
    assert(f =~= h + jc + rest);
    lemma_chunk_layout(GLB_CHUNK_TYPE_JSON, json, json_pad, h, rest);
}

/// The binary chunk of a file whose header is followed by the JSON chunk and then by it.
proof fn lemma_bin_reads_back(json: Seq<u8>, json_pad: u8, bin: Seq<u8>)
    ensures
        ({
            let body = chunk(GLB_CHUNK_TYPE_JSON, json, json_pad) + chunk(GLB_CHUNK_TYPE_BIN, bin, 0);
            let f = header(12 + body.len() as int) + body;
            let b = 20 + json.len() as int + pad4(json.len() as int);
            &&& read_u32_le(f, b) == (bin.len() + pad4(bin.len() as int)) % 0x1_0000_0000
            &&& read_u32_le(f, b + 4) == GLB_CHUNK_TYPE_BIN
            &&& f.subrange(b + 8, b + 8 + bin.len()) == bin
        }),
{
    broadcast use group_glb_lengths;

    let jc = chunk(GLB_CHUNK_TYPE_JSON, json, json_pad);
    let bc = chunk(GLB_CHUNK_TYPE_BIN, bin, 0);
    let body = jc + bc;
    let h = header(12 + body.len() as int);
    let f = h + body;
    assert(f =~= (h + jc) + bc + Seq::<u8>::empty());
    lemma_chunk_layout(GLB_CHUNK_TYPE_BIN, bin, 0, h + jc, Seq::<u8>::empty());
}

/// A GLB file written for a document reads back as written: it starts with the magic number
/// and version 2, its header declares its own length, its length is a multiple of four, the JSON
/// chunk declares its padded length and holds the JSON text, and, when there is binary data,
/// the binary chunk follows the JSON chunk, declares its padded length and holds that data.
pub proof fn lemma_document_glb_reads_back(json: Seq<u8>, bin: Seq<u8>)
    ensures
        ({
            let f = document_glb(json, bin);
            let jp = json.len() as int + pad4(json.len() as int);
            let b = 20 + jp;
            &&& f.len() % 4 == 0
            &&& f.len() == 20 + jp + if bin.len() == 0 { 0 } else { 8 + bin.len() + pad4(bin.len() as int) }
            &&& read_u32_le(f, 0) == GLB_MAGIC
            &&& read_u32_le(f, 4) == GLB_VERSION
            &&& read_u32_le(f, 8) == f.len() % 0x1_0000_0000
            &&& read_u32_le(f, 12) == jp % 0x1_0000_0000
            &&& read_u32_le(f, 16) == GLB_CHUNK_TYPE_JSON
            &&& f.subrange(20, 20 + json.len() as int) == json
            &&& bin.len() > 0 ==> {
                &&& read_u32_le(f, b) == (bin.len() + pad4(bin.len() as int)) % 0x1_0000_0000
                &&& read_u32_le(f, b + 4) == GLB_CHUNK_TYPE_BIN
                &&& f.subrange(b + 8, b + 8 + bin.len()) == bin
            }
        }),
{
    broadcast use group_glb_lengths;

    lemma_pad4(json.len() as int);
    lemma_pad4(bin.len() as int);
    if bin.len() == 0 {
        lemma_front_reads_back(json, 0x20, Seq::<u8>::empty());
        lemma_aligned_sum(20, json.len() + pad4(json.len() as int), 0);
    } else {
        lemma_front_reads_back(json, 0x20, chunk(GLB_CHUNK_TYPE_BIN, bin, 0));
        lemma_bin_reads_back(json, 0x20, bin);
        lemma_aligned_sum(
            28,
            json.len() + pad4(json.len() as int),
            bin.len() + pad4(bin.len() as int),
        );
    }
}

/// The same read-back facts for the file a [`GlbWriter`] writes, whose binary chunk is always
/// present.
pub proof fn lemma_writer_glb_reads_back(json: Seq<u8>, bin: Seq<u8>)
    ensures
        ({
            let f = writer_glb(json, bin);
            let jp = json.len() as int + pad4(json.len() as int);
            let b = 20 + jp;
            &&& f.len() % 4 == 0
            &&& f.len() == 28 + jp + bin.len() + pad4(bin.len() as int)
            &&& read_u32_le(f, 0) == GLB_MAGIC
            &&& read_u32_le(f, 4) == GLB_VERSION
            &&& read_u32_le(f, 8) == f.len() % 0x1_0000_0000
            &&& read_u32_le(f, 12) == jp % 0x1_0000_0000
            &&& read_u32_le(f, 16) == GLB_CHUNK_TYPE_JSON
            &&& f.subrange(20, 20 + json.len() as int) == json
            &&& read_u32_le(f, b) == (bin.len() + pad4(bin.len() as int)) % 0x1_0000_0000
            &&& read_u32_le(f, b + 4) == GLB_CHUNK_TYPE_BIN
            &&& f.subrange(b + 8, b + 8 + bin.len()) == bin
        }),
{
    broadcast use group_glb_lengths;

    lemma_pad4(json.len() as int);
    lemma_pad4(bin.len() as int);
    lemma_front_reads_back(json, 0, chunk(GLB_CHUNK_TYPE_BIN, bin, 0));
    lemma_bin_reads_back(json, 0, bin);
    lemma_aligned_sum(
        28,
        json.len() + pad4(json.len() as int),
        bin.len() + pad4(bin.len() as int),
    );
}

/// A sum of multiples of four is a multiple of four.
proof fn lemma_aligned_sum(a: int, b: int, c: int)
    requires
        a % 4 == 0,
        b % 4 == 0,
        c % 4 == 0,
    ensures
        (a + b + c) % 4 == 0,
{
    assert((a + b + c) % 4 == 0) by (nonlinear_arith)
        requires
            a % 4 == 0,
            b % 4 == 0,
            c % 4 == 0,
    ;
}

/// Padding brings a length to a multiple of four with fewer than four bytes.
pub proof fn lemma_pad4(n: int)
    requires
        n >= 0,
    ensures
        0 <= pad4(n) < 4,
        (n + pad4(n)) % 4 == 0,
{
}

/// The file the mesh exporters write: the JSON chunk padded with spaces and the binary chunk,
/// always present, padded with zeros.
pub open spec fn export_glb(json: Seq<u8>, bin: Seq<u8>) -> Seq<u8> {
    let body = chunk(GLB_CHUNK_TYPE_JSON, json, 0x20) + chunk(GLB_CHUNK_TYPE_BIN, bin, 0);
    header(12 + body.len() as int) + body
}

/// Writes the GLB file of the mesh exporters (see [`export_glb`]).
pub fn export_glb_bytes(json: &[u8], bin: &[u8]) -> (out: Vec<u8>)
    requires
        json@.len() + bin@.len() + 64 <= usize::MAX,
    ensures
        out@ == export_glb(json@, bin@),
{
    broadcast use group_glb_lengths;

    let mut body: Vec<u8> = Vec::new();
    push_chunk(&mut body, GLB_CHUNK_TYPE_JSON, json, 0x20);
    push_chunk(&mut body, GLB_CHUNK_TYPE_BIN, bin, 0);
    let mut out: Vec<u8> = Vec::new();
    push_header(&mut out, body.len() + 12);
    append_bytes(&mut out, body.as_slice());
    assert(out@ =~= export_glb(json@, bin@));
    out
}

/// For non-empty binary data the exporters' file is the document's file, so it reads back as
/// [`lemma_document_glb_reads_back`] states.
pub proof fn lemma_export_glb_is_document_glb(json: Seq<u8>, bin: Seq<u8>)
    requires
        bin.len() > 0,
    ensures
        export_glb(json, bin) == document_glb(json, bin),
{
}

broadcast group group_glb_lengths {
    lemma_chunk_len,
    lemma_header_len,
}

} // verus!
