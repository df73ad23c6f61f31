//! Frame codec: the fixed-layout call envelope.
//!
//! A frame is `header byte | 4-byte big-endian correlation id | 1-byte
//! timeout hint | payload bytes`. The top three bits of the header byte name
//! the compression algorithm applied to the payload (none or block); the low
//! five bits carry the protocol version, currently always zero. Payloads
//! longer than [`COMPRESS_THRESHOLD`] bytes are block-compressed.
use vstd::prelude::*;

verus! {

/// Compression algorithm identifier: payload carried raw.
pub const COMPRESS_NONE: u8 = 0;

/// Compression algorithm identifier: payload block-compressed.
pub const COMPRESS_BLOCK: u8 = 2;

/// Header byte of a frame whose payload is raw: compression bits zero,
/// version bits zero.
pub const HEADER_NONE: u8 = 0x00;

/// Header byte of a frame whose payload is block-compressed: compression
/// bits two, version bits zero.
pub const HEADER_BLOCK: u8 = 0x40;

/// Payloads strictly longer than this many bytes are compressed.
pub const COMPRESS_THRESHOLD: usize = 64;

/// The longest payload the block compressor accepts: its format records the
/// uncompressed length in four bytes.
pub const MAX_PAYLOAD_LEN: usize = 0xFFFF_FFFF;

/// Why an inbound frame could not be decoded.
#[derive(Clone, Copy, Debug, PartialEq, Eq, Structural)]
pub enum DecodeError {
    /// The frame is shorter than the six-byte envelope.
    FrameTooShort,
    /// The header names a compression algorithm this layer does not
    /// implement: corruption or an unsupported peer, fatal for the
    /// connection.
    UnsupportedCompression,
    /// The header names block compression but the payload bytes were
    /// rejected by the decompressor: fatal for the connection.
    DecompressionFailure,
}

/// Why an outbound call could not be encoded.
#[derive(Clone, Copy, Debug, PartialEq, Eq, Structural)]
pub enum EncodeError {
    /// The payload exceeds [`MAX_PAYLOAD_LEN`], the block compressor's
    /// limit.
    PayloadTooLarge,
}

/// The block compressor's output on the given bytes: a pure function of the
/// input, left abstract here. What is known of it is stated by the contracts
/// of the two compressor wrappers.
pub uninterp spec fn block_compress(payload: Seq<u8>) -> Seq<u8>;

/// The four big-endian bytes of a correlation id.
pub open spec fn be32_bytes(id: u32) -> Seq<u8> {
    seq![
        ((id >> 24) & 0xff) as u8,
        ((id >> 16) & 0xff) as u8,
        ((id >> 8) & 0xff) as u8,
        (id & 0xff) as u8,
    ]
}

/// The correlation id read from four big-endian bytes.
pub open spec fn be32_value(s: Seq<u8>) -> u32
    recommends
        s.len() == 4,
{
    (((s[0] as u32) << 24) | (((s[1] as u32) << 16) | (((s[2] as u32) << 8) | (s[3] as u32))))
}

/// The compression bits of a header byte.
pub open spec fn compression_bits(header: u8) -> u8 {
    header >> 5
}

/// The exact bytes that encoding the triple yields: the envelope, then the
/// payload, raw when short enough and block-compressed otherwise.
pub open spec fn encode_spec(id: u32, timeout: u8, payload: Seq<u8>) -> Seq<u8> {
    if payload.len() > COMPRESS_THRESHOLD {
        seq![HEADER_BLOCK] + be32_bytes(id) + seq![timeout] + block_compress(payload)
    } else {
        seq![HEADER_NONE] + be32_bytes(id) + seq![timeout] + payload
    }
}

/// Decoding `raw` is obliged to yield exactly the correlation id `id` and
/// the payload `payload`: the envelope is well-formed, the id stands
/// big-endian in bytes one to four, and the bytes after the envelope are the
/// payload, raw or block-compressed as the header says.
pub open spec fn decodes_to(raw: Seq<u8>, id: u32, payload: Seq<u8>) -> bool {
    &&& raw.len() >= 6
    &&& id == be32_value(raw.subrange(1, 5))
    &&& {
        ||| (compression_bits(raw[0]) == COMPRESS_NONE && payload == raw.skip(6))
        ||| (compression_bits(raw[0]) == COMPRESS_BLOCK && raw.skip(6) == block_compress(payload))
    }
}

/// Reading the big-endian bytes of an id gives the id back.
pub proof fn lemma_be32_roundtrip(id: u32)
    ensures
        be32_value(be32_bytes(id)) == id,
{
    let b0: u8 = ((id >> 24) & 0xff) as u8;
    let b1: u8 = ((id >> 16) & 0xff) as u8;
    let b2: u8 = ((id >> 8) & 0xff) as u8;
    let b3: u8 = (id & 0xff) as u8;
    assert((((b0 as u32) << 24) | (((b1 as u32) << 16) | (((b2 as u32) << 8) | (b3 as u32))))
        == id) by (bit_vector)
        requires
            b0 == ((id >> 24) & 0xff) as u8,
            b1 == ((id >> 16) & 0xff) as u8,
            b2 == ((id >> 8) & 0xff) as u8,
            b3 == (id & 0xff) as u8,
    ;
}

/// Law: the codec round-trips. A frame encoded from any valid (id, timeout,
/// payload) triple, payload short or long, decodes back to exactly that id
/// and payload; together with the contract of [`decode`], which returns
/// `Ok((id, payload))` whenever `decodes_to(raw, id, payload)` holds, this
/// gives `decode(encode(id, timeout, payload)) == Ok((id, payload))`.
pub proof fn lemma_round_trip(id: u32, timeout: u8, payload: Seq<u8>)
    requires
        payload.len() <= MAX_PAYLOAD_LEN,
    ensures
        decodes_to(encode_spec(id, timeout, payload), id, payload),
{
    let raw = encode_spec(id, timeout, payload);
    assert(raw.subrange(1, 5) =~= be32_bytes(id));
    lemma_be32_roundtrip(id);
    assert(0x00u8 >> 5 == 0) by (bit_vector);
    assert(0x40u8 >> 5 == 2) by (bit_vector);
    if payload.len() > COMPRESS_THRESHOLD {
        assert(raw.skip(6) =~= block_compress(payload));
    } else {
        assert(raw.skip(6) =~= payload);
    }
}

/// Law: the choice of compression is visible in the header byte. Encoding a
/// payload longer than the threshold sets the block compression bits;
/// encoding a shorter one leaves the compression bits at none.
pub proof fn lemma_header_marks_compression(id: u32, timeout: u8, payload: Seq<u8>)
    ensures
        payload.len() > COMPRESS_THRESHOLD ==> compression_bits(encode_spec(id, timeout, payload)[0])
            == COMPRESS_BLOCK,
        payload.len() <= COMPRESS_THRESHOLD ==> compression_bits(
            encode_spec(id, timeout, payload)[0],
        ) == COMPRESS_NONE,
{
    assert(0x00u8 >> 5 == 0) by (bit_vector);
    assert(0x40u8 >> 5 == 2) by (bit_vector);
}

/// Law: the envelope occupies exactly the first six bytes of every frame.
/// The timeout hint travels in byte five, after the header byte and the four
/// id bytes, wherever the payload begins.
pub proof fn lemma_timeout_hint_position(id: u32, timeout: u8, payload: Seq<u8>)
    ensures
        encode_spec(id, timeout, payload).len() == 6 + if payload.len() > COMPRESS_THRESHOLD {
            block_compress(payload).len()
        } else {
            payload.len()
        },
        encode_spec(id, timeout, payload)[5] == timeout,
{
}

/// Relies on `lz4_flex::block::compress_prepend_size`: block-compresses the
/// input and prepends the uncompressed length, infallibly for inputs whose
/// length fits in four bytes; the result is a function of the input bytes
/// alone.
#[verifier::external_body]
fn compress_block(data: &Vec<u8>) -> (r: Vec<u8>)
    requires
        data@.len() <= MAX_PAYLOAD_LEN,
    ensures
        r@ == block_compress(data@),
{
    lz4_flex::block::compress_prepend_size(data.as_slice())
}

/// Relies on `lz4_flex::block::decompress_size_prepended`: the inverse of
/// `compress_prepend_size`, so a block that compressor produced decompresses
/// to exactly the bytes it was given; on any other input the call returns
/// some result without a stated relation to the input.
#[verifier::external_body]
fn decompress_block(data: &Vec<u8>) -> (r: Result<Vec<u8>, DecodeError>)
    ensures
        r matches Ok(v) ==> forall|s: Seq<u8>| data@ == block_compress(s) ==> v@ == s,
        r matches Err(e) ==> (e == DecodeError::DecompressionFailure && !(exists|s: Seq<u8>|
            data@ == block_compress(s))),
{
    match lz4_flex::block::decompress_size_prepended(data.as_slice()) {
        Ok(v) => Ok(v),
        Err(_) => Err(DecodeError::DecompressionFailure),
    }
}

/// Copies every byte of `src` onto the end of `dst`.
fn append_bytes(dst: &mut Vec<u8>, src: &Vec<u8>)
    ensures
        final(dst)@ == old(dst)@ + src@,
{
    let mut i: usize = 0;
    while i < src.len()
        invariant
            i <= src.len(),
            dst@ == old(dst)@ + src@.subrange(0, i as int),
        decreases src.len() - i,
    {
        dst.push(src[i]);
        proof {
            assert(old(dst)@ + src@.subrange(0, i as int) + seq![src@[i as int]] =~= old(dst)@
                + src@.subrange(0, i + 1));
        }
        i = i + 1;
    }
    proof {
        assert(old(dst)@ + src@.subrange(0, src@.len() as int) =~= old(dst)@ + src@);
    }
}

/// Encodes one call: selects compression by the payload length, writes the
/// envelope, and appends the payload bytes. A payload beyond the block
/// compressor's limit is refused rather than silently corrupted.
pub fn encode(id: u32, timeout: u8, payload: &Vec<u8>) -> (r: Result<Vec<u8>, EncodeError>)
    ensures
        payload@.len() <= MAX_PAYLOAD_LEN ==> (r matches Ok(frame) && frame@ == encode_spec(
            id,
            timeout,
            payload@,
        )),
        payload@.len() > MAX_PAYLOAD_LEN ==> (r matches Err(e) && e
            == EncodeError::PayloadTooLarge),
{
    if payload.len() > MAX_PAYLOAD_LEN {
        return Err(EncodeError::PayloadTooLarge);
    }
    proof {
        assert(((id >> 24) & 0xff) < 256 && ((id >> 16) & 0xff) < 256 && ((id >> 8) & 0xff) < 256
            && (id & 0xff) < 256) by (bit_vector);
    }
    let mut frame: Vec<u8> = Vec::new();
    if payload.len() > COMPRESS_THRESHOLD {
        frame.push(HEADER_BLOCK);
    } else {
        frame.push(HEADER_NONE);
    }
    frame.push(((id >> 24) & 0xff) as u8);
    frame.push(((id >> 16) & 0xff) as u8);
    frame.push(((id >> 8) & 0xff) as u8);
    frame.push((id & 0xff) as u8);
    frame.push(timeout);
    if payload.len() > COMPRESS_THRESHOLD {
        let body = compress_block(payload);
        append_bytes(&mut frame, &body);
        proof {
            assert(frame@ =~= encode_spec(id, timeout, payload@));
        }
    } else {
        append_bytes(&mut frame, payload);
        proof {
            assert(frame@ =~= encode_spec(id, timeout, payload@));
        }
    }
    Ok(frame)
}

/// Decodes one inbound frame: checks the envelope, reads the correlation id,
/// and hands back the payload, decompressed when the header says so. A frame
/// under six bytes, an unrecognized compression value, and a payload the
/// decompressor rejects are each an error.
pub fn decode(raw: &Vec<u8>) -> (r: Result<(u32, Vec<u8>), DecodeError>)
    ensures
        r matches Err(e) && e == DecodeError::FrameTooShort <==> raw@.len() < 6,
        r matches Err(e) && e == DecodeError::UnsupportedCompression <==> (raw@.len() >= 6
            && compression_bits(raw@[0]) != COMPRESS_NONE && compression_bits(raw@[0])
            != COMPRESS_BLOCK),
        raw@.len() >= 6 && compression_bits(raw@[0]) == COMPRESS_NONE ==> (r matches Ok(p) && p.0
            == be32_value(raw@.subrange(1, 5)) && p.1@ == raw@.skip(6)),
        raw@.len() >= 6 && compression_bits(raw@[0]) == COMPRESS_BLOCK ==> {
            &&& (r matches Ok(p) ==> p.0 == be32_value(raw@.subrange(1, 5)))
            &&& (r matches Err(e) ==> (e == DecodeError::DecompressionFailure && !(exists|s: Seq<u8>|
                raw@.skip(6) == block_compress(s))))
        },
        forall|id: u32, payload: Seq<u8>| #[trigger]
            decodes_to(raw@, id, payload) ==> (r matches Ok(p) && p.0 == id && p.1@ == payload),
{
    if raw.len() < 6 {
        return Err(DecodeError::FrameTooShort);
    }
    let header: u8 = raw[0];
    let comp: u8 = header >> 5;
    let id: u32 = (((raw[1] as u32) << 24) | (((raw[2] as u32) << 16) | (((raw[3] as u32) << 8) | (
    raw[4] as u32))));
    proof {
        assert(raw@.subrange(1, 5) =~= seq![raw@[1], raw@[2], raw@[3], raw@[4]]);
    }
    let mut tail: Vec<u8> = Vec::new();
    let mut i: usize = 6;
    while i < raw.len()
        invariant
            6 <= i <= raw@.len(),
            tail@ == raw@.subrange(6, i as int),
        decreases raw@.len() - i,
    {
        tail.push(raw[i]);
        proof {
            assert(raw@.subrange(6, i as int) + seq![raw@[i as int]] =~= raw@.subrange(
                6,
                i + 1,
            ));
        }
        i = i + 1;
    }
    proof {
        assert(tail@ =~= raw@.skip(6));
    }
    if comp == COMPRESS_NONE {
        Ok((id, tail))
    } else if comp == COMPRESS_BLOCK {
        match decompress_block(&tail) {
            Ok(payload) => Ok((id, payload)),
            Err(e) => Err(e),
        }
    } else {
        Err(DecodeError::UnsupportedCompression)
    }
}

} // verus!
