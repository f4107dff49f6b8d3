//! Framing of messages on a byte stream: every message travels behind a
//! header of six bytes, which gives the length of the whole frame and the
//! encoding of the message.

use vstd::prelude::*;

verus! {

/// The length of the header of a frame: four bytes for the length of the
/// frame, most significant byte first, and two for the encoding type.
pub const HEADER_LEN: usize = 6;

/// The longest payload that a frame can carry: with the header, its length
/// still fits the four bytes that give it.
pub const MAX_PAYLOAD_LEN: usize = 0xffff_fff9;

/// Why no frame could be taken from a stream.
#[derive(Debug, Copy, Clone, PartialEq, Eq, Structural)]
pub enum FrameError {
    /// The stream ended in the middle of a header or of a payload.
    IncompleteFrame,
    /// The header gives a length for the frame that is smaller than the
    /// header itself.
    MalformedFrameHeader,
}

/// What the bytes at the head of a stream hold.
#[derive(Debug, Copy, Clone, PartialEq, Eq, Structural)]
pub enum FrameStatus {
    /// A whole frame of `length` bytes, header included. Its payload stands
    /// behind the header, from [`HEADER_LEN`] to `length`.
    Complete { encoding_type: u16, length: usize },
    /// Only the beginning of a frame. At least `missing` more bytes are
    /// needed: the rest of the header or, once the header is there, the rest
    /// of the payload.
    Incomplete { missing: usize },
}

/// One frame taken from a stream: the encoding type from its header, and
/// its payload.
#[derive(Debug, Clone, PartialEq, Eq)]
pub struct Frame {
    /// The code that says how the payload is encoded.
    pub encoding_type: u16,
    /// The bytes behind the header.
    pub payload: Vec<u8>,
}

/// The length of the whole frame as the first four bytes of `data` give it,
/// most significant byte first.
pub open spec fn declared_length(data: Seq<u8>) -> int
    recommends
        data.len() >= 4,
{
    data[0] * 0x100_0000 + data[1] * 0x1_0000 + data[2] * 0x100 + data[3]
}

/// The encoding type as the fifth and sixth byte of `data` give it, most
/// significant byte first.
pub open spec fn declared_encoding_type(data: Seq<u8>) -> int
    recommends
        data.len() >= HEADER_LEN,
{
    data[4] * 0x100 + data[5]
}

/// What `data`, the bytes at the head of a stream, holds. The header is
/// judged as soon as it is there, whether or not the payload has come.
pub open spec fn spec_parse_frame(data: Seq<u8>) -> Result<FrameStatus, FrameError> {
    if data.len() < HEADER_LEN {
        Ok(FrameStatus::Incomplete { missing: (HEADER_LEN - data.len()) as usize })
    } else if declared_length(data) < HEADER_LEN {
        Err(FrameError::MalformedFrameHeader)
    } else if data.len() < declared_length(data) {
        Ok(FrameStatus::Incomplete { missing: (declared_length(data) - data.len()) as usize })
    } else {
        Ok(
            FrameStatus::Complete {
                encoding_type: declared_encoding_type(data) as u16,
                length: declared_length(data) as usize,
            },
        )
    }
}

/// Looks for a frame at the start of `data`. Bytes behind the frame are not
/// looked at.
pub fn parse_frame(data: &[u8]) -> (result: Result<FrameStatus, FrameError>)
    ensures
        result == spec_parse_frame(data@),
{
    let n: usize = data.len();
    if n < HEADER_LEN {
        return Ok(FrameStatus::Incomplete { missing: HEADER_LEN - n });
    }
    let declared: u32 = data[0] as u32 * 0x100_0000 + data[1] as u32 * 0x1_0000 + data[2] as u32
        * 0x100 + data[3] as u32;
    let encoding_type: u16 = data[4] as u16 * 0x100 + data[5] as u16;
    let length: usize = declared as usize;
    if length < HEADER_LEN {
        Err(FrameError::MalformedFrameHeader)
    } else if n < length {
        Ok(FrameStatus::Incomplete { missing: length - n })
    } else {
        Ok(FrameStatus::Complete { encoding_type, length })
    }
}

/// The header of a frame with the given encoding type and a payload of
/// `payload_len` bytes.
pub open spec fn spec_frame_header(encoding_type: u16, payload_len: int) -> Seq<u8> {
    let length = payload_len + HEADER_LEN;
    seq![
        (length / 0x100_0000) as u8,
        (length / 0x1_0000 % 0x100) as u8,
        (length / 0x100 % 0x100) as u8,
        (length % 0x100) as u8,
        (encoding_type / 0x100) as u8,
        (encoding_type % 0x100) as u8,
    ]
}

/// The frame that carries `payload` with the given encoding type.
pub open spec fn spec_frame(encoding_type: u16, payload: Seq<u8>) -> Seq<u8> {
    spec_frame_header(encoding_type, payload.len() as int) + payload
}

/// Appends to `buffer` the frame that carries `payload` with the given
/// encoding type, and returns the length of the frame.
pub fn encode_frame(encoding_type: u16, payload: &[u8], buffer: &mut Vec<u8>) -> (written: usize)
    requires
        payload@.len() <= MAX_PAYLOAD_LEN,
    ensures
        final(buffer)@ == old(buffer)@ + spec_frame(encoding_type, payload@),
        written == payload@.len() + HEADER_LEN,
{
    let length: usize = payload.len() + HEADER_LEN;
    buffer.push((length / 0x100_0000) as u8);
    buffer.push((length / 0x1_0000 % 0x100) as u8);
    buffer.push((length / 0x100 % 0x100) as u8);
    buffer.push((length % 0x100) as u8);
    buffer.push((encoding_type / 0x100) as u8);
    buffer.push((encoding_type % 0x100) as u8);
    buffer.extend_from_slice(payload);
    proof {
        assert(buffer@ =~= old(buffer)@ + spec_frame(encoding_type, payload@));
    }
    length
}

/// Takes frames out of a stream of bytes that arrives piece by piece.
///
/// The reader does not read the stream itself. Its owner hands it the bytes
/// as they arrive, with [`FrameReader::supply`], asks it for the frames that
/// are complete, with [`FrameReader::next_frame`], and tells it when the
/// stream has ended, with [`FrameReader::end_of_stream`].
pub struct FrameReader {
    pending: Vec<u8>,
}

impl View for FrameReader {
    type V = Seq<u8>;

    /// The bytes that have arrived and belong to no frame that was handed
    /// out.
    closed spec fn view(&self) -> Seq<u8> {
        self.pending@
    }
}

impl FrameReader {
    /// Creates a reader that has received nothing yet.
    pub fn new() -> (reader: Self)
        ensures
            reader@ == Seq::<u8>::empty(),
    {
        FrameReader { pending: Vec::new() }
    }

    /// Takes in `bytes`, the next bytes of the stream.
    pub fn supply(&mut self, bytes: &[u8])
        ensures
            final(self)@ == old(self)@ + bytes@,
    {
        self.pending.extend_from_slice(bytes);
        proof {
            assert(self.pending@ =~= old(self).pending@ + bytes@);
        }
    }

    /// The number of bytes that have arrived and belong to no frame that was
    /// handed out.
    pub fn pending_len(&self) -> (n: usize)
        ensures
            n == self@.len(),
    {
        self.pending.len()
    }

    /// Hands out the next frame, if all of it has arrived, and forgets its
    /// bytes. Returns `None`, and keeps what has arrived, while bytes of the
    /// frame are still missing. Fails, and keeps what has arrived, if the
    /// header is malformed; it is judged as soon as it has arrived.
    pub fn next_frame(&mut self) -> (result: Result<Option<Frame>, FrameError>)
        ensures
            match spec_parse_frame(old(self)@) {
                Ok(FrameStatus::Complete { encoding_type, length }) => {
                    &&& result is Ok
                    &&& result->Ok_0 is Some
                    &&& result->Ok_0->0.encoding_type == encoding_type
                    &&& result->Ok_0->0.payload@ == old(self)@.subrange(
                        HEADER_LEN as int,
                        length as int,
                    )
                    &&& final(self)@ == old(self)@.skip(length as int)
                },
                Ok(FrameStatus::Incomplete { missing }) => {
                    &&& result is Ok
                    &&& result->Ok_0 is None
                    &&& final(self)@ == old(self)@
                },
                Err(e) => {
                    &&& result == Err::<Option<Frame>, FrameError>(e)
                    &&& final(self)@ == old(self)@
                },
            },
    {
        match parse_frame(self.pending.as_slice()) {
            Err(e) => Err(e),
            Ok(FrameStatus::Incomplete { missing: _ }) => Ok(None),
            Ok(FrameStatus::Complete { encoding_type, length }) => {
                let rest: Vec<u8> = self.pending.split_off(length);
                let payload: Vec<u8> = self.pending.split_off(HEADER_LEN);
                self.pending = rest;
                Ok(Some(Frame { encoding_type, payload }))
            },
        }
    }

    /// Tells what the end of the stream means here: nothing is wrong if no
    /// byte is left over; a frame was cut short if some are.
    pub fn end_of_stream(&self) -> (result: Result<(), FrameError>)
        ensures
            result is Ok <==> self@.len() == 0,
            result is Err ==> result == Err::<(), FrameError>(FrameError::IncompleteFrame),
    {
        if self.pending.len() == 0 {
            Ok(())
        } else {
            Err(FrameError::IncompleteFrame)
        }
    }
}

/// The header written for a payload gives back the length of the frame and
/// the encoding type.
pub proof fn lemma_frame_header(encoding_type: u16, payload_len: int)
    requires
        0 <= payload_len <= MAX_PAYLOAD_LEN,
    ensures
        spec_frame_header(encoding_type, payload_len).len() == HEADER_LEN,
        declared_length(spec_frame_header(encoding_type, payload_len)) == payload_len + HEADER_LEN,
        declared_encoding_type(spec_frame_header(encoding_type, payload_len)) == encoding_type,
{
}

/// A frame at the head of a stream is found whole, whatever follows it:
/// with its encoding type, its length and its payload.
pub proof fn lemma_frame_is_found(encoding_type: u16, payload: Seq<u8>, rest: Seq<u8>)
    requires
        payload.len() <= MAX_PAYLOAD_LEN,
    ensures
        spec_parse_frame(spec_frame(encoding_type, payload) + rest) == Ok::<
            FrameStatus,
            FrameError,
        >(
            FrameStatus::Complete {
                encoding_type,
                length: (payload.len() + HEADER_LEN) as usize,
            },
        ),
        (spec_frame(encoding_type, payload) + rest).subrange(
            HEADER_LEN as int,
            payload.len() + HEADER_LEN,
        ) == payload,
        (spec_frame(encoding_type, payload) + rest).skip(payload.len() + HEADER_LEN) == rest,
{
    let header = spec_frame_header(encoding_type, payload.len() as int);
    let data = spec_frame(encoding_type, payload) + rest;
    lemma_frame_header(encoding_type, payload.len() as int);
    assert(data[0] == header[0] && data[1] == header[1] && data[2] == header[2] && data[3]
        == header[3] && data[4] == header[4] && data[5] == header[5]);
    assert(data.subrange(HEADER_LEN as int, payload.len() + HEADER_LEN) =~= payload);
    assert(data.skip(payload.len() + HEADER_LEN) =~= rest);
}

/// While a frame has not arrived whole, the reader waits: what has arrived
/// of it is found incomplete, never in error, and never taken for a frame.
pub proof fn lemma_part_of_frame_is_incomplete(encoding_type: u16, payload: Seq<u8>, arrived: int)
    requires
        payload.len() <= MAX_PAYLOAD_LEN,
        0 <= arrived < payload.len() + HEADER_LEN,
    ensures
        spec_parse_frame(spec_frame(encoding_type, payload).take(arrived)) matches Ok(
            FrameStatus::Incomplete { missing },
        ) && 1 <= missing <= payload.len() + HEADER_LEN - arrived,
{
    let header = spec_frame_header(encoding_type, payload.len() as int);
    let data = spec_frame(encoding_type, payload).take(arrived);
    lemma_frame_header(encoding_type, payload.len() as int);
    if arrived >= HEADER_LEN {
        assert(data[0] == header[0] && data[1] == header[1] && data[2] == header[2] && data[3]
            == header[3]);
    }
}

/// A stream that holds one frame and then ends gives that one frame and no
/// error: the frame is found whole, nothing is left behind it, and in nothing
/// there is neither a frame nor an error.
pub proof fn lemma_one_frame_then_end(encoding_type: u16, payload: Seq<u8>)
    requires
        payload.len() <= MAX_PAYLOAD_LEN,
    ensures
        spec_parse_frame(spec_frame(encoding_type, payload)) == Ok::<FrameStatus, FrameError>(
            FrameStatus::Complete {
                encoding_type,
                length: (payload.len() + HEADER_LEN) as usize,
            },
        ),
        spec_frame(encoding_type, payload).subrange(
            HEADER_LEN as int,
            payload.len() + HEADER_LEN,
        ) == payload,
        spec_frame(encoding_type, payload).skip(payload.len() + HEADER_LEN).len() == 0,
        spec_parse_frame(Seq::<u8>::empty()) == Ok::<FrameStatus, FrameError>(
            FrameStatus::Incomplete { missing: HEADER_LEN },
        ),
{
    lemma_frame_is_found(encoding_type, payload, Seq::<u8>::empty());
    assert(spec_frame(encoding_type, payload) + Seq::<u8>::empty() =~= spec_frame(
        encoding_type,
        payload,
    ));
}

} // verus!
