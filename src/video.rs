//! Video relay: producers announce a stream identifier, then send
//! length-prefixed JPEG frames; each stream's latest frame lives in its own
//! broadcast cell, looked up by identifier.

use crate::cell::{next_version, BroadcastCell};
use vstd::bytes::*;
use vstd::prelude::*;
use vstd::std_specs::hash::group_hash_axioms;
use vstd::string::StringSliceAdditionalSpecFns;
use std::collections::HashMap;

verus! {

broadcast use group_hash_axioms;

/// Length of the textual identifier a producer sends first.
pub const ID_LEN: usize = 36;

/// Length of the little-endian size that precedes each frame.
pub const LENGTH_PREFIX_LEN: usize = 8;

/// Largest frame accepted, in bytes.
pub const MAX_FRAME_LEN: usize = 4000000;

/// Whether `s` starts with the JPEG start-of-image marker `FF D8 FF E0`.
pub open spec fn has_jpeg_magic(s: Seq<u8>) -> bool {
    s.len() >= 4 && s[0] == 0xFFu8 && s[1] == 0xD8u8 && s[2] == 0xFFu8 && s[3] == 0xE0u8
}

/// The ASCII decimal digits of `n`, most significant first.
pub open spec fn decimal(n: nat) -> Seq<u8>
    decreases n,
{
    if n < 10 {
        seq![(48 + n) as u8]
    } else {
        decimal(n / 10).push((48 + n % 10) as u8)
    }
}

/// The multipart part header that precedes a JPEG body of `len` bytes.
pub open spec fn multipart_header(len: nat) -> Seq<u8> {
    "--frame\r\nContent-type: image/jpeg\r\nContent-Length: ".spec_bytes() + decimal(len) + seq![
        13u8,
        10u8,
        13u8,
        10u8,
    ]
}

fn push_decimal(out: &mut Vec<u8>, n: usize)
    ensures
        final(out)@ == old(out)@ + decimal(n as nat),
    decreases n,
{
    if n >= 10 {
        push_decimal(out, n / 10);
    }
    out.push((n % 10) as u8 + 48);
    assert(out@ =~= old(out)@ + decimal(n as nat));
}

/// One frame of a stream: its multipart part header, computed once, and the
/// JPEG body.
pub struct VideoFrame {
    pub header: Vec<u8>,
    pub jpeg: Vec<u8>,
}

impl VideoFrame {
    /// The frame a new stream starts with: nothing at all.
    pub fn empty() -> (r: Self)
        ensures
            r.header@.len() == 0,
            r.jpeg@.len() == 0,
    {
        VideoFrame { header: Vec::new(), jpeg: Vec::new() }
    }
}

/// Wraps a JPEG body in its multipart part header.
pub fn prepare_frame(image: Vec<u8>) -> (r: VideoFrame)
    ensures
        r.header@ == multipart_header(image@.len()),
        r.jpeg@ == image@,
{
    let mut header: Vec<u8> = Vec::new();
    header.extend_from_slice("--frame\r\nContent-type: image/jpeg\r\nContent-Length: ".as_bytes());
    let ghost prefix = header@;
    push_decimal(&mut header, image.len());
    header.push(13);
    header.push(10);
    header.push(13);
    header.push(10);
    assert(prefix =~= "--frame\r\nContent-type: image/jpeg\r\nContent-Length: ".spec_bytes());
    assert(header@ =~= multipart_header(image@.len()));
    VideoFrame { header, jpeg: image }
}

/// Why a producer's connection ends.
#[derive(Clone, Copy, Debug, PartialEq, Eq, Structural)]
pub enum IngestError {
    /// The declared frame length is over `MAX_FRAME_LEN`.
    FrameTooLarge { declared: u64 },
    /// The frame does not start with the JPEG marker.
    BadMagic,
    /// The producer's stream is no longer registered.
    UnknownStream,
}

/// What the 8-byte length prefix `p` allows: a frame of that many bytes, or
/// the end of the connection when it declares more than `MAX_FRAME_LEN`.
pub open spec fn declared_length(p: Seq<u8>) -> Result<usize, IngestError> {
    let n = spec_u64_from_le_bytes(p);
    if n > MAX_FRAME_LEN {
        Err(IngestError::FrameTooLarge { declared: n })
    } else {
        Ok(n as usize)
    }
}

/// Reads a frame's length prefix and decides whether to read the frame.
pub fn frame_length(prefix: &[u8]) -> (r: Result<usize, IngestError>)
    requires
        prefix@.len() == LENGTH_PREFIX_LEN,
    ensures
        r == declared_length(prefix@),
{
    let n = u64_from_le_bytes(prefix);
    if n > MAX_FRAME_LEN as u64 {
        Err(IngestError::FrameTooLarge { declared: n })
    } else {
        Ok(n as usize)
    }
}

/// Whether `b` starts with the JPEG marker.
pub fn check_jpeg_magic(b: &[u8]) -> (r: bool)
    ensures
        r == has_jpeg_magic(b@),
{
    b.len() >= 4 && b[0] == 0xFF && b[1] == 0xD8 && b[2] == 0xFF && b[3] == 0xE0
}

/// What `uuid::Uuid::try_parse_ascii` reads from `text`: the identifier's 128
/// bits, most significant first, or nothing when `text` is no UUID.
pub uninterp spec fn uuid_parsed(text: Seq<u8>) -> Option<u128>;

/// Relies on `uuid::Uuid::try_parse_ascii` to read a UUID in any textual form
/// the crate accepts, and on `Uuid::as_u128` for its value; the outcome
/// depends on the bytes alone.
#[verifier::external_body]
fn parse_uuid(text: &[u8]) -> (r: Option<u128>)
    ensures
        r == uuid_parsed(text@),
{
    match uuid::Uuid::try_parse_ascii(text) {
        Ok(id) => Some(id.as_u128()),
        Err(_) => None,
    }
}

/// Why a viewer's request for a stream fails.
#[derive(Clone, Copy, Debug, PartialEq, Eq, Structural)]
pub enum StreamError {
    /// The identifier is not a UUID.
    BadRequest,
    /// No producer is registered under the identifier.
    NotFound,
}

/// A stream that was just opened: empty frame, no publish yet.
pub open spec fn fresh_stream(c: BroadcastCell<VideoFrame>) -> bool {
    c.value().header@.len() == 0 && c.value().jpeg@.len() == 0 && c.version() == 0
}

/// The registry of live streams, keyed by identifier.
pub struct Registry {
    streams: HashMap<u128, BroadcastCell<VideoFrame>>,
}

impl View for Registry {
    type V = Map<u128, BroadcastCell<VideoFrame>>;

    closed spec fn view(&self) -> Map<u128, BroadcastCell<VideoFrame>> {
        self.streams@
    }
}

/// What a request for stream `parsed` gets from registry `m`.
pub open spec fn resolved(
    m: Map<u128, BroadcastCell<VideoFrame>>,
    parsed: Option<u128>,
) -> Result<u128, StreamError> {
    match parsed {
        None => Err(StreamError::BadRequest),
        Some(id) => if m.contains_key(id) {
            Ok(id)
        } else {
            Err(StreamError::NotFound)
        },
    }
}

impl Registry {
    /// No stream.
    pub fn new() -> (r: Self)
        ensures
            r@ == Map::<u128, BroadcastCell<VideoFrame>>::empty(),
    {
        Registry { streams: HashMap::new() }
    }

    /// Opens stream `id` with a fresh cell, replacing any stream of that id.
    pub fn open_stream(&mut self, id: u128)
        ensures
            final(self)@ == old(self)@.insert(id, final(self)@[id]),
            fresh_stream(final(self)@[id]),
    {
        self.streams.insert(id, BroadcastCell::new(VideoFrame::empty()));
    }

    /// A producer's opening: `ID_LEN` bytes that must read as a UUID. On
    /// success the stream is opened and its identifier returned; otherwise the
    /// registry is left as it was.
    pub fn register(&mut self, preamble: &[u8]) -> (r: Option<u128>)
        ensures
            r == (if preamble@.len() == ID_LEN {
                uuid_parsed(preamble@)
            } else {
                None
            }),
            r matches Some(id) ==> final(self)@ == old(self)@.insert(id, final(self)@[id])
                && fresh_stream(final(self)@[id]),
            r is None ==> final(self)@ == old(self)@,
    {
        if preamble.len() != ID_LEN {
            return None;
        }
        let parsed = parse_uuid(preamble);
        if let Some(id) = parsed {
            self.open_stream(id);
        }
        parsed
    }

    /// Ends stream `id`: later lookups of it find nothing.
    pub fn close_stream(&mut self, id: u128)
        ensures
            final(self)@ == old(self)@.remove(id),
            !final(self)@.contains_key(id),
    {
        self.streams.remove(&id);
    }

    /// The cell of stream `id`, if it is registered.
    pub fn lookup(&self, id: u128) -> (r: Option<&BroadcastCell<VideoFrame>>)
        ensures
            r matches Some(c) ==> self@.contains_key(id) && *c == self@[id],
            r is None <==> !self@.contains_key(id),
    {
        self.streams.get(&id)
    }

    /// Validates a frame of stream `id` and publishes it, wrapped in its part
    /// header, to the stream's cell. A frame without the JPEG marker, or for
    /// a stream that is gone, is refused and nothing changes.
    pub fn publish_frame(&mut self, id: u128, payload: Vec<u8>) -> (r: Result<(), IngestError>)
        ensures
            !has_jpeg_magic(payload@) ==> r == Err::<(), IngestError>(IngestError::BadMagic)
                && final(self)@ == old(self)@,
            has_jpeg_magic(payload@) && !old(self)@.contains_key(id) ==> r == Err::<
                (),
                IngestError,
            >(IngestError::UnknownStream) && final(self)@ == old(self)@,
            has_jpeg_magic(payload@) && old(self)@.contains_key(id) ==> {
                &&& r == Ok::<(), IngestError>(())
                &&& final(self)@ == old(self)@.insert(id, final(self)@[id])
                &&& final(self)@[id].value().header@ == multipart_header(payload@.len())
                &&& final(self)@[id].value().jpeg@ == payload@
                &&& final(self)@[id].version() == next_version(old(self)@[id].version())
            },
    {
        if !check_jpeg_magic(payload.as_slice()) {
            return Err(IngestError::BadMagic);
        }
        match self.streams.remove(&id) {
            None => Err(IngestError::UnknownStream),
            Some(mut cell) => {
                cell.publish(prepare_frame(payload));
                self.streams.insert(id, cell);
                assert(self.streams@ =~= old(self).streams@.insert(id, self.streams@[id]));
                Ok(())
            },
        }
    }

    /// Which stream a request for `parsed` reaches.
    pub fn resolve_parsed(&self, parsed: Option<u128>) -> (r: Result<u128, StreamError>)
        ensures
            r == resolved(self@, parsed),
    {
        match parsed {
            None => Err(StreamError::BadRequest),
            Some(id) => if self.streams.contains_key(&id) {
                Ok(id)
            } else {
                Err(StreamError::NotFound)
            },
        }
    }

    /// Which stream a request for the path identifier `path_id` reaches: not
    /// a UUID is a bad request, an unknown one is not found.
    pub fn resolve(&self, path_id: &str) -> (r: Result<u128, StreamError>)
        ensures
            r == resolved(self@, uuid_parsed(path_id.spec_bytes())),
    {
        self.resolve_parsed(parse_uuid(path_id.as_bytes()))
    }
}

/// Once a producer's stream is closed, a request for its identifier is not
/// found, whatever the registry held before.
pub proof fn lemma_closed_stream_not_found(m: Map<u128, BroadcastCell<VideoFrame>>, id: u128)
    ensures
        resolved(m.remove(id), Some(id)) == Err::<u128, StreamError>(StreamError::NotFound),
{
}

} // verus!
