//! The framing of a container's streamed output. The runtime interleaves
//! standard output and standard error on one connection as frames: a header
//! of eight bytes, which holds the channel's tag in its first byte and the
//! payload's length in its last four, most significant byte first, and then
//! the payload.

use vstd::prelude::*;
use vstd::slice::{slice_subrange, slice_to_vec};

verus! {

/// The sink that a frame's payload goes to.
#[derive(Debug, Copy, Clone, PartialEq, Eq, Structural)]
pub enum StreamType {
    Stdout,
    Stderr,
}

/// A tag that names no channel.
#[derive(Debug, Copy, Clone, PartialEq, Eq, Structural)]
pub enum StreamTypeError {
    InvalidByte(u8),
}

impl StreamType {
    /// The sink that a tag selects: 0, the echo of standard input, and 1 go to
    /// standard output, 2 to standard error; no other tag is valid.
    pub open spec fn of_tag(byte: u8) -> Option<StreamType> {
        if byte == 0 || byte == 1 {
            Some(StreamType::Stdout)
        } else if byte == 2 {
            Some(StreamType::Stderr)
        } else {
            None
        }
    }

    /// The tag under which a sink's frames are written.
    pub open spec fn spec_tag(self) -> u8 {
        match self {
            StreamType::Stdout => 1,
            StreamType::Stderr => 2,
        }
    }

    /// The sink that a tag selects.
    pub fn try_from(byte: u8) -> (stream: Result<StreamType, StreamTypeError>)
        ensures
            stream == match StreamType::of_tag(byte) {
                Some(s) => Ok::<StreamType, StreamTypeError>(s),
                None => Err(StreamTypeError::InvalidByte(byte)),
            },
    {
        match byte {
            0 => Ok(StreamType::Stdout),
            1 => Ok(StreamType::Stdout),
            2 => Ok(StreamType::Stderr),
            _ => Err(StreamTypeError::InvalidByte(byte)),
        }
    }

    /// The tag under which this sink's frames are written.
    pub fn tag(self) -> (byte: u8)
        ensures
            byte == self.spec_tag(),
            StreamType::of_tag(byte) == Some(self),
    {
        match self {
            StreamType::Stdout => 1,
            StreamType::Stderr => 2,
        }
    }
}

/// Why a stream of frames cannot be read to its end.
#[derive(Debug, Copy, Clone, PartialEq, Eq, Structural)]
pub enum StreamError {
    /// A header's tag names no channel.
    InvalidTag(u8),
    /// The stream ended inside a header or inside a payload.
    Truncated,
}

/// One payload and the sink it goes to.
#[derive(Debug, Clone, PartialEq, Eq)]
pub struct Frame {
    pub stream: StreamType,
    pub payload: Vec<u8>,
}

impl View for Frame {
    type V = (StreamType, Seq<u8>);

    open spec fn view(&self) -> (StreamType, Seq<u8>) {
        (self.stream, self.payload@)
    }
}

/// The frames of a list, each as its sink and its payload.
pub open spec fn frame_views(frames: Seq<Frame>) -> Seq<(StreamType, Seq<u8>)> {
    Seq::new(frames.len(), |i: int| frames[i]@)
}

/// The number that four bytes hold, most significant byte first.
pub open spec fn be32(b0: u8, b1: u8, b2: u8, b3: u8) -> int {
    (b0 as int) * 0x100_0000 + (b1 as int) * 0x1_0000 + (b2 as int) * 0x100 + (b3 as int)
}

/// The header of a frame: the tag, three reserved bytes, which are written as
/// zero, and the payload's length.
pub open spec fn header(tag: u8, len: nat) -> Seq<u8> {
    seq![
        tag,
        0u8,
        0u8,
        0u8,
        ((len / 0x100_0000) % 0x100) as u8,
        ((len / 0x1_0000) % 0x100) as u8,
        ((len / 0x100) % 0x100) as u8,
        (len % 0x100) as u8,
    ]
}

/// The bytes of a stream that carries the given frames, each a tag and a
/// payload, in their order.
pub open spec fn encode(frames: Seq<(u8, Seq<u8>)>) -> Seq<u8>
    decreases frames.len(),
{
    if frames.len() == 0 {
        Seq::empty()
    } else {
        header(frames[0].0, frames[0].1.len()) + frames[0].1 + encode(frames.drop_first())
    }
}

/// Whether a stream can carry the frames: every tag selects a sink and every
/// payload's length fits the header.
pub open spec fn encodable(frames: Seq<(u8, Seq<u8>)>) -> bool {
    forall|i: int|
        0 <= i < frames.len() ==> StreamType::of_tag(#[trigger] frames[i].0) is Some
            && frames[i].1.len() <= u32::MAX
}

/// What the frames deliver: for each, its payload to the sink that its tag
/// selects.
pub open spec fn deliveries(frames: Seq<(u8, Seq<u8>)>) -> Seq<(StreamType, Seq<u8>)> {
    Seq::new(frames.len(), |i: int| (StreamType::of_tag(frames[i].0).unwrap(), frames[i].1))
}

/// What a stream holds when it is read from its first byte.
pub struct Parsed {
    /// The complete frames, in their order, up to the first header whose tag
    /// is invalid.
    pub frames: Seq<(StreamType, Seq<u8>)>,
    /// The bytes behind the last complete frame.
    pub rest: Seq<u8>,
    /// The tag of the first complete header that names no channel.
    pub bad: Option<u8>,
}

/// Reads a stream frame by frame. Reading stops at a header that is not
/// complete, at a complete header with an invalid tag, or at a payload that is
/// shorter than its header says; the bytes from there on are the rest.
pub open spec fn parse(stream: Seq<u8>) -> Parsed
    decreases stream.len(),
{
    if stream.len() < 8 {
        Parsed { frames: Seq::empty(), rest: stream, bad: None }
    } else {
        match StreamType::of_tag(stream[0]) {
            None => Parsed { frames: Seq::empty(), rest: stream, bad: Some(stream[0]) },
            Some(sink) => {
                let len = be32(stream[4], stream[5], stream[6], stream[7]);
                if stream.len() < 8 + len {
                    Parsed { frames: Seq::empty(), rest: stream, bad: None }
                } else {
                    let tail = parse(stream.skip(8 + len));
                    Parsed {
                        frames: seq![(sink, stream.subrange(8, 8 + len))] + tail.frames,
                        rest: tail.rest,
                        bad: tail.bad,
                    }
                }
            },
        }
    }
}

/// How a stream ends that was read as `parsed`: in an error where a tag was
/// invalid, truncated where bytes are left behind the last complete frame.
pub open spec fn end_of(parsed: Parsed) -> Result<(), StreamError> {
    match parsed.bad {
        Some(tag) => Err(StreamError::InvalidTag(tag)),
        None => if parsed.rest.len() == 0 {
            Ok(())
        } else {
            Err(StreamError::Truncated)
        },
    }
}

/// Reading a stream that was extended goes on where reading the shorter one
/// stopped: the frames that were complete stay, and unless a tag was invalid,
/// the rest and the new bytes are read as a stream of their own.
pub proof fn lemma_parse_append(a: Seq<u8>, b: Seq<u8>)
    ensures
        parse(a).bad is Some ==> parse(a + b) == (Parsed {
            frames: parse(a).frames,
            rest: parse(a).rest + b,
            bad: parse(a).bad,
        }),
        parse(a).bad is None ==> parse(a + b) == (Parsed {
            frames: parse(a).frames + parse(parse(a).rest + b).frames,
            rest: parse(parse(a).rest + b).rest,
            bad: parse(parse(a).rest + b).bad,
        }),
    decreases a.len(),
{
    let ab = a + b;
    if a.len() < 8 {
        assert(parse(a).frames + parse(a + b).frames =~= parse(a + b).frames);
    } else {
        assert(ab[0] == a[0] && ab[4] == a[4] && ab[5] == a[5] && ab[6] == a[6] && ab[7] == a[7]);
        match StreamType::of_tag(a[0]) {
            None => {},
            Some(sink) => {
                let len = be32(a[4], a[5], a[6], a[7]);
                if a.len() < 8 + len {
                    assert(parse(a).frames + parse(a + b).frames =~= parse(a + b).frames);
                } else {
                    let a2 = a.skip(8 + len);
                    lemma_parse_append(a2, b);
                    assert(ab.skip(8 + len) =~= a2 + b);
                    assert(ab.subrange(8, 8 + len) =~= a.subrange(8, 8 + len));
                    let first = seq![(sink, a.subrange(8, 8 + len))];
                    if parse(a2).bad is None {
                        assert((first + parse(a2).frames) + parse(parse(a2).rest + b).frames
                            =~= first + (parse(a2).frames + parse(parse(a2).rest + b).frames));
                    }
                }
            },
        }
    }
}

/// The frames of a stream are still there, at the front and in their order,
/// after more bytes have come.
pub proof fn lemma_parse_prefix(a: Seq<u8>, b: Seq<u8>)
    ensures
        parse(a).frames.len() <= parse(a + b).frames.len(),
        parse(a + b).frames.take(parse(a).frames.len() as int) == parse(a).frames,
{
    lemma_parse_append(a, b);
    assert(parse(a + b).frames.take(parse(a).frames.len() as int) =~= parse(a).frames);
}

/// The header of a frame is read back as the frame's length.
proof fn lemma_header_length(tag: u8, len: nat)
    requires
        len <= u32::MAX,
    ensures
        header(tag, len).len() == 8,
        header(tag, len)[0] == tag,
        be32(header(tag, len)[4], header(tag, len)[5], header(tag, len)[6], header(tag, len)[7])
            == len,
{
}

/// A stream that carries frames is read back as what those frames deliver,
/// with nothing left over and no error: every payload, also an empty one,
/// goes to the sink of its tag, in the order of the frames.
pub proof fn lemma_round_trip(frames: Seq<(u8, Seq<u8>)>)
    requires
        encodable(frames),
    ensures
        parse(encode(frames)) == (Parsed {
            frames: deliveries(frames),
            rest: Seq::empty(),
            bad: None,
        }),
    decreases frames.len(),
{
    if frames.len() == 0 {
        assert(deliveries(frames) =~= Seq::empty());
    } else {
        let tag = frames[0].0;
        let payload = frames[0].1;
        let len = payload.len() as int;
        let rest = frames.drop_first();
        let stream = encode(frames);
        assert(encodable(rest)) by {
            assert forall|i: int| 0 <= i < rest.len() implies StreamType::of_tag(
                #[trigger] rest[i].0,
            ) is Some && rest[i].1.len() <= u32::MAX by {
                assert(rest[i] == frames[i + 1]);
            }
        }
        lemma_round_trip(rest);
        lemma_header_length(tag, len as nat);
        let h = header(tag, len as nat);
        assert(stream == h + payload + encode(rest));
        assert(stream[0] == h[0] && stream[4] == h[4] && stream[5] == h[5] && stream[6] == h[6]
            && stream[7] == h[7]);
        assert(stream.skip(8 + len) =~= encode(rest));
        assert(stream.subrange(8, 8 + len) =~= payload);
        assert(deliveries(frames) =~= seq![(StreamType::of_tag(tag).unwrap(), payload)]
            + deliveries(rest)) by {
            assert forall|i: int| 0 <= i < frames.len() implies deliveries(frames)[i] == (seq![
                (StreamType::of_tag(tag).unwrap(), payload),
            ] + deliveries(rest))[i] by {
                if i > 0 {
                    assert(rest[i - 1] == frames[i]);
                }
            }
        }
    }
}

/// A stream that ends inside a frame, after the frame's header but before the
/// end of its payload, delivers the frames before it and nothing of the
/// frame that was cut short, and its end is reported as truncated.
pub proof fn lemma_truncated_payload(frames: Seq<(u8, Seq<u8>)>, tag: u8, len: nat, partial: Seq<u8>)
    requires
        encodable(frames),
        StreamType::of_tag(tag) is Some,
        len <= u32::MAX,
        partial.len() < len,
    ensures
        parse(encode(frames) + header(tag, len) + partial).frames == deliveries(frames),
        end_of(parse(encode(frames) + header(tag, len) + partial)) == Err::<(), StreamError>(
            StreamError::Truncated,
        ),
{
    let cut = header(tag, len) + partial;
    lemma_round_trip(frames);
    lemma_parse_append(encode(frames), cut);
    lemma_header_length(tag, len);
    assert(Seq::<u8>::empty() + cut =~= cut);
    assert(cut[0] == tag && cut[4] == header(tag, len)[4] && cut[5] == header(tag, len)[5]
        && cut[6] == header(tag, len)[6] && cut[7] == header(tag, len)[7]);
    assert(parse(cut) == (Parsed { frames: Seq::empty(), rest: cut, bad: None }));
    assert(encode(frames) + header(tag, len) + partial =~= encode(frames) + cut);
    assert(deliveries(frames) + Seq::<(StreamType, Seq<u8>)>::empty() =~= deliveries(frames));
}

/// A stream that ends inside a header is reported as truncated too.
pub proof fn lemma_truncated_header(frames: Seq<(u8, Seq<u8>)>, partial: Seq<u8>)
    requires
        encodable(frames),
        0 < partial.len() < 8,
    ensures
        parse(encode(frames) + partial).frames == deliveries(frames),
        end_of(parse(encode(frames) + partial)) == Err::<(), StreamError>(StreamError::Truncated),
{
    lemma_round_trip(frames);
    lemma_parse_append(encode(frames), partial);
    assert(Seq::<u8>::empty() + partial =~= partial);
    assert(deliveries(frames) + Seq::<(StreamType, Seq<u8>)>::empty() =~= deliveries(frames));
}

impl Frame {
    /// The bytes that carry this frame, or `None` where the payload is too
    /// long for a header.
    pub fn encode(&self) -> (bytes: Option<Vec<u8>>)
        ensures
            self.payload@.len() <= u32::MAX ==> bytes is Some && bytes.unwrap()@ == encode(
                seq![(self.stream.spec_tag(), self.payload@)],
            ),
            self.payload@.len() > u32::MAX ==> bytes is None,
    {
        let len: usize = self.payload.len();
        if len > 0xffff_ffff {
            return None;
        }
        let mut bytes: Vec<u8> = Vec::new();
        bytes.push(self.stream.tag());
        bytes.push(0);
        bytes.push(0);
        bytes.push(0);
        bytes.push(((len / 0x100_0000) % 0x100) as u8);
        bytes.push(((len / 0x1_0000) % 0x100) as u8);
        bytes.push(((len / 0x100) % 0x100) as u8);
        bytes.push((len % 0x100) as u8);
        bytes.extend_from_slice(self.payload.as_slice());
        proof {
            let frames = seq![(self.stream.spec_tag(), self.payload@)];
            assert(encode(frames.drop_first()) =~= Seq::<u8>::empty());
            assert(bytes@ =~= header(self.stream.spec_tag(), len as nat) + self.payload@
                + Seq::<u8>::empty());
        }
        Some(bytes)
    }
}

/// The decoder of a stream of frames that arrives in chunks. It holds the
/// bytes that belong to no complete frame yet, and whether it waits for a
/// header or, with the header read and dropped, for a payload.
pub struct Demultiplexer {
    buf: Vec<u8>,
    pending: Option<(StreamType, usize)>,
    failed: Option<u8>,
    seen: Ghost<Seq<u8>>,
    head: Ghost<Seq<u8>>,
}

/// The unread bytes: the header that was dropped, where a payload is awaited,
/// and what is buffered.
spec fn unread(pending: Option<(StreamType, usize)>, head: Seq<u8>, buffered: Seq<u8>) -> Seq<u8> {
    match pending {
        None => buffered,
        Some(_) => head + buffered,
    }
}

/// The header that was dropped is the one whose payload is awaited.
spec fn head_matches(pending: Option<(StreamType, usize)>, head: Seq<u8>) -> bool {
    match pending {
        None => true,
        Some((sink, len)) => {
            &&& head.len() == 8
            &&& StreamType::of_tag(head[0]) == Some(sink)
            &&& len == be32(head[4], head[5], head[6], head[7])
        },
    }
}

/// Too few bytes are buffered for the next step.
spec fn starved(pending: Option<(StreamType, usize)>, buffered: Seq<u8>) -> bool {
    match pending {
        None => buffered.len() < 8,
        Some((_, len)) => buffered.len() < len,
    }
}

impl Demultiplexer {
    /// Every byte that was fed so far, in the order of arrival.
    pub closed spec fn received(&self) -> Seq<u8> {
        self.seen@
    }

    /// The decoder's state agrees with what it has received: it has failed
    /// on the tag that the reading fails on, and else holds the rest of the
    /// reading, with too few bytes for the next step.
    #[verifier::type_invariant]
    spec fn wf(&self) -> bool {
        let parsed = parse(self.seen@);
        &&& self.failed == parsed.bad
        &&& head_matches(self.pending, self.head@)
        &&& parsed.bad is None ==> {
            &&& unread(self.pending, self.head@, self.buf@) == parsed.rest
            &&& starved(self.pending, self.buf@)
        }
    }

    /// A decoder that has received nothing.
    pub fn new() -> (demux: Demultiplexer)
        ensures
            demux.received() == Seq::<u8>::empty(),
    {
        Demultiplexer {
            buf: Vec::new(),
            pending: None,
            failed: None,
            seen: Ghost(Seq::empty()),
            head: Ghost(Seq::empty()),
        }
    }

    /// Takes the next chunk of the stream and appends to `out` the frames that
    /// it completes, in their order. The chunks may be cut anywhere: what has
    /// been appended over all calls is the frames of the bytes received, read
    /// as one stream. Fails, from the chunk on that completes such a header,
    /// where a header's tag names no channel; the frames before that header
    /// are still appended.
    pub fn feed(&mut self, chunk: &[u8], out: &mut Vec<Frame>) -> (result: Result<(), StreamError>)
        ensures
            final(self).received() == old(self).received() + chunk@,
            frame_views(final(out)@) == frame_views(old(out)@) + parse(
                final(self).received(),
            ).frames.skip(parse(old(self).received()).frames.len() as int),
            final(out)@.take(old(out)@.len() as int) == old(out)@,
            result == match parse(final(self).received()).bad {
                Some(tag) => Err::<(), StreamError>(StreamError::InvalidTag(tag)),
                None => Ok(()),
            },
    {
        proof {
            use_type_invariant(&*self);
        }
        let ghost before = self.seen@;
        let ghost total = self.seen@ + chunk@;
        let ghost out_before = out@;
        proof {
            lemma_parse_append(before, chunk@);
        }
        let mut pending = self.pending;
        let mut failed = self.failed;
        let ghost mut head = self.head@;
        let mut buf: Vec<u8> = Vec::new();
        let mut pos: usize = 0;
        let ghost mut fresh: Seq<(StreamType, Seq<u8>)> = Seq::empty();
        let mut result: Result<(), StreamError> = Ok(());
        match failed {
            Some(tag) => {
                result = Err(StreamError::InvalidTag(tag));
            },
            None => {
                buf.extend_from_slice(self.buf.as_slice());
                buf.extend_from_slice(chunk);
                assert(buf@ =~= self.buf@ + chunk@);
                assert(unread(pending, head, buf@) =~= unread(pending, head, self.buf@) + chunk@);
                assert(buf@.skip(0) =~= buf@);
                assert(parse(before).frames + fresh + parse(unread(pending, head, buf@)).frames
                    =~= parse(before).frames + parse(unread(pending, head, buf@)).frames);
                loop
                    invariant_except_break
                        result == Ok::<(), StreamError>(()),
                        failed is None,
                    invariant
                        pos <= buf@.len(),
                        head_matches(pending, head),
                        out@.len() == out_before.len() + fresh.len(),
                        out@.take(out_before.len() as int) == out_before,
                        frame_views(out@) == frame_views(out_before) + fresh,
                        parse(total).frames == parse(before).frames + fresh + parse(
                            unread(pending, head, buf@.skip(pos as int)),
                        ).frames,
                        parse(total).rest == parse(
                            unread(pending, head, buf@.skip(pos as int)),
                        ).rest,
                        parse(total).bad == parse(unread(pending, head, buf@.skip(pos as int))).bad,
                    ensures
                        pos <= buf@.len(),
                        head_matches(pending, head),
                        out@.take(out_before.len() as int) == out_before,
                        frame_views(out@) == frame_views(out_before) + fresh,
                        parse(total).frames == parse(before).frames + fresh,
                        failed == parse(total).bad,
                        result == match parse(total).bad {
                            Some(tag) => Err::<(), StreamError>(StreamError::InvalidTag(tag)),
                            None => Ok(()),
                        },
                        parse(total).bad is None ==> {
                            &&& parse(total).rest == unread(pending, head, buf@.skip(pos as int))
                            &&& starved(pending, buf@.skip(pos as int))
                        },
                    decreases buf@.len() - pos, if pending is Some { 1int } else { 0int },
                {
                    let ghost stream = unread(pending, head, buf@.skip(pos as int));
                    match pending {
                        None => {
                            if buf.len() - pos < 8 {
                                proof {
                                    assert(parse(before).frames + fresh + Seq::<
                                        (StreamType, Seq<u8>),
                                    >::empty() =~= parse(before).frames + fresh);
                                }
                                break ;
                            }
                            assert(stream[0] == buf@[pos as int]);
                            assert(stream[4] == buf@[pos + 4] && stream[5] == buf@[pos + 5]
                                && stream[6] == buf@[pos + 6] && stream[7] == buf@[pos + 7]);
                            match StreamType::try_from(buf[pos]) {
                                Err(StreamTypeError::InvalidByte(tag)) => {
                                    failed = Some(tag);
                                    result = Err(StreamError::InvalidTag(tag));
                                    proof {
                                        assert(parse(before).frames + fresh + Seq::<
                                            (StreamType, Seq<u8>),
                                        >::empty() =~= parse(before).frames + fresh);
                                    }
                                    break ;
                                },
                                Ok(sink) => {
                                    let len: u32 = (buf[pos + 4] as u32) * 0x100_0000 + (buf[pos
                                        + 5] as u32) * 0x1_0000 + (buf[pos + 6] as u32) * 0x100
                                        + (buf[pos + 7] as u32);
                                    proof {
                                        head = stream.take(8);
                                    }
                                    pending = Some((sink, len as usize));
                                    pos = pos + 8;
                                    assert(unread(pending, head, buf@.skip(pos as int))
                                        =~= stream);
                                },
                            }
                        },
                        Some((sink, len)) => {
                            assert(stream[0] == head[0] && stream[4] == head[4] && stream[5]
                                == head[5] && stream[6] == head[6] && stream[7] == head[7]);
                            if buf.len() - pos < len {
                                proof {
                                    assert(parse(before).frames + fresh + Seq::<
                                        (StreamType, Seq<u8>),
                                    >::empty() =~= parse(before).frames + fresh);
                                }
                                break ;
                            }
                            let payload = slice_to_vec(
                                slice_subrange(buf.as_slice(), pos, pos + len),
                            );
                            assert(payload@ =~= stream.subrange(8, 8 + len));
                            let ghost delivered_before = out@;
                            out.push(Frame { stream: sink, payload });
                            pending = None;
                            pos = pos + len;
                            proof {
                                let delivered = seq![(sink, stream.subrange(8, 8 + len))];
                                let ahead = unread(pending, head, buf@.skip(pos as int));
                                assert(ahead =~= stream.skip(8 + len));
                                assert(parse(before).frames + fresh.push((sink, payload@)) + parse(
                                    ahead,
                                ).frames =~= parse(before).frames + fresh + (delivered + parse(
                                    ahead,
                                ).frames));
                                assert(frame_views(out@) =~= frame_views(delivered_before).push(
                                    (sink, payload@),
                                ));
                                assert(frame_views(out@) =~= frame_views(out_before) + fresh.push(
                                    (sink, payload@),
                                ));
                                assert(out@.take(out_before.len() as int) =~= out_before);
                                fresh = fresh.push((sink, payload@));
                            }
                        },
                    }
                }
            },
        }
        let rest = buf.split_off(pos);
        proof {
            assert(parse(total).frames.skip(parse(before).frames.len() as int) =~= fresh);
            assert(frame_views(out@) + Seq::<(StreamType, Seq<u8>)>::empty() =~= frame_views(
                out@,
            ));
        }
        *self = Demultiplexer { buf: rest, pending, failed, seen: Ghost(total), head: Ghost(head) };
        result
    }

    /// How the stream ends if no more bytes come: well where every frame was
    /// complete, truncated where it stops inside a header or a payload.
    pub fn finish(&self) -> (result: Result<(), StreamError>)
        ensures
            result == end_of(parse(self.received())),
    {
        proof {
            use_type_invariant(self);
        }
        match self.failed {
            Some(tag) => Err(StreamError::InvalidTag(tag)),
            None => {
                match self.pending {
                    Some(_) => Err(StreamError::Truncated),
                    None => if self.buf.len() == 0 {
                        Ok(())
                    } else {
                        Err(StreamError::Truncated)
                    },
                }
            },
        }
    }
}

/// The bytes of a stream that arrived in the given chunks.
pub open spec fn concat(chunks: Seq<Vec<u8>>) -> Seq<u8>
    decreases chunks.len(),
{
    if chunks.len() == 0 {
        Seq::empty()
    } else {
        concat(chunks.drop_last()) + chunks.last()@
    }
}

/// Frames that are written to a stream come out as they went in, however the
/// stream is cut into chunks on its way, one byte at a time included: each
/// payload goes to the sink of its tag, in the order of the frames, and the
/// stream ends well.
pub proof fn lemma_round_trip_in_chunks(frames: Seq<(u8, Seq<u8>)>, chunks: Seq<Vec<u8>>)
    requires
        encodable(frames),
        concat(chunks) == encode(frames),
    ensures
        parse(concat(chunks)).frames == deliveries(frames),
        end_of(parse(concat(chunks))) == Ok::<(), StreamError>(()),
{
    lemma_round_trip(frames);
}

/// Decodes a stream that has arrived completely, in chunks that were cut
/// anywhere: the frames of the whole stream, and how it ends.
pub fn demultiplex(chunks: &Vec<Vec<u8>>) -> (done: (Vec<Frame>, Result<(), StreamError>))
    ensures
        frame_views(done.0@) == parse(concat(chunks@)).frames,
        done.1 == end_of(parse(concat(chunks@))),
{
    let mut demux = Demultiplexer::new();
    let mut frames: Vec<Frame> = Vec::new();
    let mut i: usize = 0;
    assert(chunks@.take(0) =~= Seq::<Vec<u8>>::empty());
    assert(frame_views(frames@) =~= parse(demux.received()).frames);
    while i < chunks.len()
        invariant
            i <= chunks@.len(),
            demux.received() == concat(chunks@.take(i as int)),
            frame_views(frames@) == parse(demux.received()).frames,
        decreases chunks@.len() - i,
    {
        let ghost before = demux.received();
        let _ = demux.feed(chunks[i].as_slice(), &mut frames);
        proof {
            lemma_parse_prefix(before, chunks@[i as int]@);
            assert(chunks@.take(i + 1).drop_last() =~= chunks@.take(i as int));
            assert(frame_views(frames@) =~= parse(demux.received()).frames);
        }
        i = i + 1;
    }
    assert(chunks@.take(i as int) =~= chunks@);
    let end = demux.finish();
    (frames, end)
}

} // verus!
