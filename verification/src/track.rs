//! The track event stream and the track chunk around it.
//!
//! A track payload is a run of records, each a delta time and an event, with
//! the running status threaded from one record to the next.  The stream must
//! be non-empty and end with the end-of-track meta event.  The chunk wraps
//! the payload in the four-character tag and a length that encoding always
//! recomputes from the serialized bytes, never trusts.

use crate::errors::CodecError;
use crate::variable_length_quantity::vlq_encoding;
use crate::event::meta_event::MetaEvent;
use crate::event::meta_event::MetaEventView;
use crate::event::{
    event_status, event_tag_unambiguous, lemma_mtrk_round_trip_at, mtrk_bytes, mtrk_parse,
    sysex_open_ended, Event, EventView, MTrkEvent, MTrkEventView,
};
use vstd::prelude::*;
use vstd::slice::slice_subrange;

verus! {

broadcast use vstd::slice::group_slice_axioms;

impl DeepView for MTrkEvent {
    type V = MTrkEventView;

    open spec fn deep_view(&self) -> MTrkEventView {
        self@
    }
}

/// Whether a record is the end-of-track marker.
pub open spec fn is_end_of_track(v: MTrkEventView) -> bool {
    v.event matches EventView::MetaEvent(MetaEventView::EndOfTrack)
}

/// What repeatedly decoding records from `pos` to the end of the payload
/// yields, threading each event's status to the next record.
pub open spec fn track_events_parse(s: Seq<u8>, pos: int, running_status: u8) -> Result<
    Seq<MTrkEventView>,
    CodecError,
>
    decreases s.len() - pos,
{
    if pos >= s.len() {
        Ok(Seq::empty())
    } else {
        match mtrk_parse(s, pos, running_status) {
            Err(e) => Err(e),
            Ok((ev, end)) => if pos < end <= s.len() {
                match track_events_parse(s, end, event_status(ev.event)) {
                    Err(e) => Err(e),
                    Ok(rest) => Ok(seq![ev] + rest),
                }
            } else {
                Err(CodecError::MissingEndOfTrack)
            },
        }
    }
}

/// What decoding a whole track payload yields: its records, provided the
/// stream is non-empty and closes with the end-of-track meta event.
pub open spec fn track_parse(s: Seq<u8>) -> Result<Seq<MTrkEventView>, CodecError> {
    match track_events_parse(s, 0, 0xff) {
        Err(e) => Err(e),
        Ok(evs) => if evs.len() > 0 && is_end_of_track(evs.last()) {
            Ok(evs)
        } else {
            Err(CodecError::MissingEndOfTrack)
        },
    }
}

/// The concatenated encodings of a run of records.
pub open spec fn track_events_bytes(evs: Seq<MTrkEventView>) -> Seq<u8>
    decreases evs.len(),
{
    if evs.len() == 0 {
        Seq::empty()
    } else {
        mtrk_bytes(evs[0]) + track_events_bytes(evs.drop_first())
    }
}

/// Every record of a run is well-formed.
pub open spec fn track_events_wf(evs: Seq<MTrkEventView>) -> bool {
    forall|i: int| 0 <= i < evs.len() ==> (#[trigger] evs[i]).wf()
}

/// Appending a record extends the encoding by that record's bytes.
pub proof fn lemma_track_events_bytes_push(evs: Seq<MTrkEventView>, x: MTrkEventView)
    ensures
        track_events_bytes(evs.push(x)) == track_events_bytes(evs) + mtrk_bytes(x),
    decreases evs.len(),
{
    assert(evs.push(x)[0] == if evs.len() == 0 {
        x
    } else {
        evs[0]
    });
    if evs.len() == 0 {
        assert(evs.push(x).drop_first() =~= Seq::<MTrkEventView>::empty());
        assert(track_events_bytes(Seq::<MTrkEventView>::empty()) == Seq::<u8>::empty());
        assert(track_events_bytes(evs.push(x)) == mtrk_bytes(x) + track_events_bytes(
            Seq::<MTrkEventView>::empty(),
        ));
        assert(mtrk_bytes(x) + Seq::<u8>::empty() =~= mtrk_bytes(x));
        assert(track_events_bytes(evs) + mtrk_bytes(x) =~= mtrk_bytes(x));
    } else {
        lemma_track_events_bytes_push(evs.drop_first(), x);
        assert(evs.push(x).drop_first() =~= evs.drop_first().push(x));
        assert(track_events_bytes(evs.push(x)) =~= track_events_bytes(evs) + mtrk_bytes(x));
    }
}

/// Decodes a whole track payload into its event stream.
pub fn decode_track(bytes: &[u8]) -> (r: Result<Vec<MTrkEvent>, CodecError>)
    ensures
        match track_parse(bytes@) {
            Ok(evs) => r matches Ok(v) && v.deep_view() == evs,
            Err(e) => r matches Err(e2) && e2 == e,
        },
{
    let mut events: Vec<MTrkEvent> = Vec::new();
    let mut pos: usize = 0;
    let mut rs: u8 = 0xff;
    while pos < bytes.len()
        invariant
            pos <= bytes@.len(),
            match track_events_parse(bytes@, pos as int, rs) {
                Ok(rest) => track_events_parse(bytes@, 0, 0xff) == Ok::<
                    Seq<MTrkEventView>,
                    CodecError,
                >(events.deep_view() + rest),
                Err(e) => track_events_parse(bytes@, 0, 0xff) == Err::<
                    Seq<MTrkEventView>,
                    CodecError,
                >(e),
            },
        decreases bytes@.len() - pos,
    {
        assert(events.deep_view() + Seq::<MTrkEventView>::empty() =~= events.deep_view());
        match MTrkEvent::parse(bytes, pos, rs) {
            Err(e) => {
                return Err(e);
            },
            Ok((ev, end)) => {
                let ghost old_events = events.deep_view();
                let status = ev.get_status();
                events.push(ev);
                proof {
                    assert(events.deep_view() =~= old_events.push(ev@));
                    match track_events_parse(bytes@, end as int, status) {
                        Ok(rest) => {
                            assert(old_events + (seq![ev@] + rest) =~= events.deep_view() + rest);
                        },
                        Err(e) => {},
                    }
                }
                pos = end;
                rs = status;
            },
        }
    }
    assert(track_events_parse(bytes@, pos as int, rs) == Ok::<_, CodecError>(
        Seq::<MTrkEventView>::empty(),
    ));
    assert(events.deep_view() + Seq::<MTrkEventView>::empty() =~= events.deep_view());
    if events.len() == 0 {
        return Err(CodecError::MissingEndOfTrack);
    }
    let last_is_end = match &events[events.len() - 1].event {
        Event::MetaEvent(MetaEvent::EndOfTrack) => true,
        _ => false,
    };
    assert(events.deep_view().last() == events@[events@.len() - 1]@);
    if last_is_end {
        Ok(events)
    } else {
        Err(CodecError::MissingEndOfTrack)
    }
}

/// Encodes an event stream back into a track payload: each record's delta
/// time and event bytes, in order.
pub fn encode_track(events: &Vec<MTrkEvent>) -> (r: Vec<u8>)
    requires
        track_events_wf(events.deep_view()),
    ensures
        r@ == track_events_bytes(events.deep_view()),
{
    let mut r: Vec<u8> = Vec::new();
    let mut i: usize = 0;
    while i < events.len()
        invariant
            i <= events@.len(),
            track_events_wf(events.deep_view()),
            r@ == track_events_bytes(events.deep_view().subrange(0, i as int)),
        decreases events@.len() - i,
    {
        let ghost done = events.deep_view().subrange(0, i as int);
        assert(events.deep_view()[i as int] == events@[i as int]@);
        let mut ev_bytes = events[i].to_bytes();
        r.append(&mut ev_bytes);
        proof {
            lemma_track_events_bytes_push(done, events.deep_view()[i as int]);
            assert(events.deep_view().subrange(0, i + 1) =~= done.push(
                events.deep_view()[i as int],
            ));
        }
        i = i + 1;
    }
    assert(events.deep_view().subrange(0, events@.len() as int) =~= events.deep_view());
    r
}

/// Whether a stream's encoding reads back record by record without
/// ambiguity: no event encodes as a bare meta or system-exclusive opening,
/// and no open-ended system-exclusive block is followed by a record whose
/// first byte is 0xF7.
pub open spec fn track_stream_decodable(evs: Seq<MTrkEventView>) -> bool {
    &&& forall|i: int| 0 <= i < evs.len() ==> event_tag_unambiguous((#[trigger] evs[i]).event)
    &&& forall|i: int|
        0 <= i && i + 1 < evs.len() ==> (sysex_open_ended((#[trigger] evs[i]).event)
            ==> mtrk_bytes(evs[i + 1])[0] != 0xf7)
}

/// The induction behind the track round trip: decoding a stream's encoding
/// after any prefix, from any starting status, yields the stream back.
#[verifier::rlimit(100)]
#[verifier::spinoff_prover]
proof fn lemma_track_events_round_trip_rec(
    pre: Seq<u8>,
    evs: Seq<MTrkEventView>,
    running_status: u8,
)
    requires
        track_events_wf(evs),
        track_stream_decodable(evs),
    ensures
        track_events_parse(pre + track_events_bytes(evs), pre.len() as int, running_status)
            == Ok::<_, CodecError>(evs),
    decreases evs.len(),
{
    let s = pre + track_events_bytes(evs);
    if evs.len() == 0 {
        assert(track_events_bytes(evs) =~= Seq::<u8>::empty());
        assert(s =~= pre);
        assert(evs =~= Seq::<MTrkEventView>::empty());
    } else {
        let v0 = evs[0];
        let rest = evs.drop_first();
        let tail = track_events_bytes(rest);
        assert(v0.wf());
        if rest.len() > 0 {
            assert(rest[0] == evs[1]);
            assert(tail[0] == mtrk_bytes(rest[0])[0]) by {
                assert(mtrk_bytes(rest[0]).len() >= 1) by {
                    assert(vlq_encoding(rest[0].delta_time.value as nat).len() >= 1);
                }
            }
            assert(sysex_open_ended(v0.event) ==> tail[0] != 0xf7);
        }
        lemma_mtrk_round_trip_at(pre, v0, running_status, tail);
        assert(pre + mtrk_bytes(v0) + tail =~= s);
        assert forall|j: int| 0 <= j < rest.len() implies (#[trigger] rest[j]).wf()
            && event_tag_unambiguous(rest[j].event) by {
            assert(rest[j] == evs[j + 1]);
        }
        assert forall|j: int|
            0 <= j && j + 1 < rest.len() implies (sysex_open_ended((#[trigger] rest[j]).event)
            ==> mtrk_bytes(rest[j + 1])[0] != 0xf7) by {
            assert(rest[j] == evs[j + 1] && rest[j + 1] == evs[j + 2]);
        }
        lemma_track_events_round_trip_rec(pre + mtrk_bytes(v0), rest, event_status(v0.event));
        assert((pre + mtrk_bytes(v0)) + tail =~= s);
        assert(seq![v0] + rest =~= evs);
    }
}

/// The track round trip: decoding the encoding of any well-formed,
/// unambiguous event stream that closes with the end-of-track marker yields
/// the stream back.
pub proof fn lemma_track_round_trip(evs: Seq<MTrkEventView>)
    requires
        track_events_wf(evs),
        track_stream_decodable(evs),
        evs.len() > 0,
        is_end_of_track(evs.last()),
    ensures
        track_parse(track_events_bytes(evs)) == Ok::<_, CodecError>(evs),
{
    lemma_track_events_round_trip_rec(Seq::empty(), evs, 0xff);
    assert(Seq::<u8>::empty() + track_events_bytes(evs) =~= track_events_bytes(evs));
}

/// The big-endian bytes of a 32-bit chunk length.
pub open spec fn be_u32_bytes(x: u32) -> Seq<u8> {
    seq![(x >> 24) as u8, ((x >> 16) & 0xff) as u8, ((x >> 8) & 0xff) as u8, (x & 0xff) as u8]
}

/// A track chunk: the four-character tag, the declared payload length, and
/// the decoded event stream.
#[derive(Debug, PartialEq, Eq, Clone)]
pub struct TrackChunk {
    pub chunk_type: String,
    pub length: u32,
    pub data: Vec<MTrkEvent>,
}

/// The mathematical shape of a track chunk.
#[verifier::ext_equal]
pub struct TrackChunkView {
    pub chunk_type: Seq<char>,
    pub length: u32,
    pub data: Seq<MTrkEventView>,
}

impl View for TrackChunk {
    type V = TrackChunkView;

    open spec fn view(&self) -> TrackChunkView {
        TrackChunkView {
            chunk_type: self.chunk_type@,
            length: self.length,
            data: self.data.deep_view(),
        }
    }
}

impl DeepView for TrackChunk {
    type V = TrackChunkView;

    open spec fn deep_view(&self) -> TrackChunkView {
        self@
    }
}

impl TrackChunkView {
    /// The tag reads MTrk, the stream is non-empty, well-formed and closed
    /// by the end-of-track marker, and its serialized form fits the length
    /// field that encoding recomputes.  The stored length itself is what the
    /// wire declared and is never trusted on encode.
    pub open spec fn wf(self) -> bool {
        &&& self.chunk_type == "MTrk"@
        &&& self.data.len() > 0
        &&& is_end_of_track(self.data.last())
        &&& track_events_wf(self.data)
        &&& track_events_bytes(self.data).len() <= u32::MAX
    }
}

/// The encoding of a track chunk: the tag, the recomputed payload length,
/// then the payload.
pub open spec fn track_chunk_bytes(v: TrackChunkView) -> Seq<u8> {
    seq![0x4du8, 0x54u8, 0x72u8, 0x6bu8] + be_u32_bytes(
        track_events_bytes(v.data).len() as u32,
    ) + track_events_bytes(v.data)
}

/// What decoding a track chunk at `pos` yields: the MTrk tag, a 32-bit
/// length, and that many payload bytes decoded as an event stream.
pub open spec fn track_chunk_parse(s: Seq<u8>, pos: int) -> Result<(TrackChunkView, int), CodecError> {
    if pos < 0 || pos + 8 > s.len() {
        Err(CodecError::TruncatedChunk)
    } else if !(s[pos] == 0x4d && s[pos + 1] == 0x54 && s[pos + 2] == 0x72 && s[pos + 3] == 0x6b) {
        Err(CodecError::InvalidChunkType)
    } else {
        let len = (((s[pos + 4] as u32) << 24) | ((s[pos + 5] as u32) << 16) | ((s[pos
            + 6] as u32) << 8) | (s[pos + 7] as u32)) as int;
        if pos + 8 + len > s.len() {
            Err(CodecError::TruncatedChunk)
        } else {
            match track_parse(s.subrange(pos + 8, pos + 8 + len)) {
                Err(e) => Err(e),
                Ok(evs) => Ok(
                    (
                        TrackChunkView {
                            chunk_type: "MTrk"@,
                            length: len as u32,
                            data: evs,
                        },
                        pos + 8 + len,
                    ),
                ),
            }
        }
    }
}

impl TrackChunk {
    /// Decodes a track chunk whose tag stands at `pos`.
    pub fn parse(bytes: &[u8], pos: usize) -> (r: Result<(Self, usize), CodecError>)
        ensures
            match track_chunk_parse(bytes@, pos as int) {
                Ok((v, end)) => r matches Ok(p) && p.0@ == v && p.1 == end && pos < end
                    <= bytes@.len(),
                Err(e) => r matches Err(e2) && e2 == e,
            },
    {
        let n: usize = bytes.len();
        if pos >= n || n - pos < 8 {
            return Err(CodecError::TruncatedChunk);
        }
        if !(bytes[pos] == 0x4d && bytes[pos + 1] == 0x54 && bytes[pos + 2] == 0x72 && bytes[pos
            + 3] == 0x6b) {
            return Err(CodecError::InvalidChunkType);
        }
        let len_u32: u32 = ((bytes[pos + 4] as u32) << 24) | ((bytes[pos + 5] as u32) << 16) | ((
        bytes[pos + 6] as u32) << 8) | (bytes[pos + 7] as u32);
        let len: usize = len_u32 as usize;
        if len > n - (pos + 8) {
            return Err(CodecError::TruncatedChunk);
        }
        let payload = slice_subrange(bytes, pos + 8, pos + 8 + len);
        let data = decode_track(payload)?;
        let chunk = Self { chunk_type: "MTrk".to_string(), length: len_u32, data };
        assert(chunk@ =~= track_chunk_parse(bytes@, pos as int)->Ok_0.0) by {
            assert(chunk@.data =~= data.deep_view());
        }
        Ok((chunk, pos + 8 + len))
    }

    /// Decides well-formedness at run time: the tag, the closing marker, the
    /// events, and that the stored length counts the serialized events.
    pub fn check_wf(&self) -> (r: bool)
        ensures
            r == self@.wf(),
    {
        if !(self.chunk_type == "MTrk".to_string()) {
            return false;
        }
        if self.data.len() == 0 {
            return false;
        }
        let last_is_end = match &self.data[self.data.len() - 1].event {
            Event::MetaEvent(MetaEvent::EndOfTrack) => true,
            _ => false,
        };
        assert(self.data.deep_view().last() == self.data@[self.data@.len() - 1]@);
        if !last_is_end {
            return false;
        }
        let mut i: usize = 0;
        while i < self.data.len()
            invariant
                i <= self.data@.len(),
                forall|j: int| 0 <= j < i ==> (#[trigger] self.data.deep_view()[j]).wf(),
            decreases self.data@.len() - i,
        {
            assert(self.data.deep_view()[i as int] == self.data@[i as int]@);
            if !self.data[i].check_wf() {
                return false;
            }
            i = i + 1;
        }
        assert(track_events_wf(self.data.deep_view()));
        let payload = encode_track(&self.data);
        proof {
            assert(self.data.deep_view() =~= self@.data);
        }
        payload.len() <= 0xffff_ffff as usize
    }

    /// Encodes the chunk: the tag, a length recomputed from the serialized
    /// events and never taken from the stored field, then the payload.
    pub fn to_bytes(&self) -> (r: Vec<u8>)
        requires
            self@.wf(),
        ensures
            r@ == track_chunk_bytes(self@),
    {
        let payload = encode_track(&self.data);
        proof {
            assert(self.data.deep_view() =~= self@.data);
        }
        let len_u32: u32 = payload.len() as u32;
        let mut r: Vec<u8> = vec![
            0x4d,
            0x54,
            0x72,
            0x6b,
            (len_u32 >> 24) as u8,
            ((len_u32 >> 16) & 0xff) as u8,
            ((len_u32 >> 8) & 0xff) as u8,
            (len_u32 & 0xff) as u8,
        ];
        let mut p = payload;
        r.append(&mut p);
        assert(r@ =~= track_chunk_bytes(self@));
        r
    }
}

} // verus!
