//! The events of a track, and the running-status state machine.
//!
//! The first byte of a record decides its codec: 0xF0 or 0xF7 opens a
//! system-exclusive block, 0xFF a meta event, any other byte with the high
//! bit set an explicit channel or system message.  A byte with the high bit
//! clear is a data byte continuing the previous channel message under the
//! running status; only channel messages support that elision.  Each event's
//! own status becomes the running status for the next one, with 0xFF serving
//! as the token after a meta event and before the first event.

pub mod meta_event;
pub mod midi_event;
pub mod sysex_event;

use crate::errors::CodecError;
use crate::event::meta_event::{lemma_meta_round_trip, meta_bytes, meta_parse, MetaEvent, MetaEventView};
use crate::event::midi_event::{
    channel_data_bytes, channel_parse, channel_status, lemma_channel_round_trip,
    lemma_channel_status_parts, lemma_midi_message_round_trip, lemma_midi_message_status_range,
    midi_message_bytes, midi_message_parse, midi_message_status, ChannelMessage,
    ChannelVoiceMessage, MidiMessage, SystemCommonMessage, SystemMessage, SystemRealTimeMessage,
};
use crate::event::sysex_event::{
    lemma_sysex_round_trip, sysex_bytes, sysex_parse, SysExEvent, SysExEventView,
};
use crate::variable_length_quantity::{vlq_encoding, vlq_parse, VariableLengthQuantity};
use vstd::prelude::*;

verus! {

/// One event of a track stream.
#[derive(Debug, PartialEq, Eq, Clone)]
pub enum Event {
    MidiEvent(MidiMessage),
    SysExEvent(SysExEvent),
    MetaEvent(MetaEvent),
}

/// The mathematical shape of an event.
#[verifier::ext_equal]
pub enum EventView {
    MidiEvent(MidiMessage),
    SysExEvent(SysExEventView),
    MetaEvent(MetaEventView),
}

impl View for Event {
    type V = EventView;

    open spec fn view(&self) -> EventView {
        match self {
            Event::MidiEvent(m) => EventView::MidiEvent(*m),
            Event::SysExEvent(e) => EventView::SysExEvent(e@),
            Event::MetaEvent(e) => EventView::MetaEvent(e@),
        }
    }
}

impl EventView {
    /// Every kind is well-formed under its own notion.
    pub open spec fn wf(self) -> bool {
        match self {
            EventView::MidiEvent(m) => m.wf(),
            EventView::SysExEvent(e) => e.wf(),
            EventView::MetaEvent(e) => e.wf(),
        }
    }
}

/// The running status an event leaves behind: a message's own status byte, a
/// system-exclusive block's tag, and the fixed token 0xFF for a meta event.
pub open spec fn event_status(e: EventView) -> u8 {
    match e {
        EventView::MidiEvent(m) => midi_message_status(m),
        EventView::SysExEvent(s) => s.prefix,
        EventView::MetaEvent(_) => 0xff,
    }
}

/// The encoding of an event, its status always explicit.
pub open spec fn event_bytes(e: EventView) -> Seq<u8> {
    match e {
        EventView::MidiEvent(m) => midi_message_bytes(m),
        EventView::SysExEvent(s) => sysex_bytes(s),
        EventView::MetaEvent(m) => meta_bytes(m),
    }
}

/// The encoding of an event under a running status: a channel message whose
/// status equals the running one sheds its status byte; everything else
/// encodes as usual.
pub open spec fn event_bytes_with_running_status(e: EventView, running_status: u8) -> Seq<u8> {
    match e {
        EventView::MidiEvent(MidiMessage::ChannelMessage(c)) => if channel_status(c)
            == running_status {
            channel_data_bytes(c)
        } else {
            event_bytes(e)
        },
        _ => event_bytes(e),
    }
}

/// What decoding one event at `pos` under `running_status` yields.  A data
/// byte in first position is an implicit continuation; it is
/// `MissingRunningStatus` unless the running status names a channel message
/// kind.
pub open spec fn event_parse(s: Seq<u8>, pos: int, running_status: u8) -> Result<
    (EventView, int),
    CodecError,
>
    recommends
        0 <= pos < s.len(),
{
    if pos < 0 || pos >= s.len() {
        Err(CodecError::MissingEndOfTrack)
    } else {
        let b = s[pos];
        if b == 0xf0 || b == 0xf7 {
            match sysex_parse(s, pos) {
                Err(e) => Err(e),
                Ok((v, end)) => Ok((EventView::SysExEvent(v), end)),
            }
        } else if b == 0xff {
            match meta_parse(s, pos) {
                Err(e) => Err(e),
                Ok((v, end)) => Ok((EventView::MetaEvent(v), end)),
            }
        } else if b >= 0x80 {
            match midi_message_parse(s, pos + 1, b) {
                Err(e) => Err(e),
                Ok((m, end)) => Ok((EventView::MidiEvent(m), end)),
            }
        } else if 0x8 <= running_status >> 4 && running_status >> 4 <= 0xe {
            match channel_parse(s, pos, running_status) {
                Err(e) => Err(e),
                Ok((m, end)) => Ok((EventView::MidiEvent(MidiMessage::ChannelMessage(m)), end)),
            }
        } else {
            Err(CodecError::MissingRunningStatus)
        }
    }
}

impl Event {
    /// Decodes one event at `pos`, interpreting a leading data byte under
    /// `running_status`.
    pub fn parse(bytes: &[u8], pos: usize, running_status: u8) -> (r: Result<
        (Self, usize),
        CodecError,
    >)
        requires
            pos < bytes@.len(),
        ensures
            match event_parse(bytes@, pos as int, running_status) {
                Ok((v, end)) => r matches Ok(p) && p.0@ == v && p.1 == end && pos < end
                    <= bytes@.len(),
                Err(e) => r matches Err(e2) && e2 == e,
            },
    {
        let b: u8 = bytes[pos];
        if b == 0xf0 || b == 0xf7 {
            let (ev, end) = SysExEvent::parse(bytes, pos)?;
            Ok((Self::SysExEvent(ev), end))
        } else if b == 0xff {
            let (ev, end) = MetaEvent::parse(bytes, pos)?;
            Ok((Self::MetaEvent(ev), end))
        } else if b >= 0x80 {
            let (m, end) = MidiMessage::parse(bytes, pos + 1, b)?;
            Ok((Self::MidiEvent(m), end))
        } else {
            let hi: u8 = running_status >> 4;
            if 0x8 <= hi && hi <= 0xe {
                let (m, end) = ChannelMessage::parse(bytes, pos, running_status)?;
                Ok((Self::MidiEvent(MidiMessage::ChannelMessage(m)), end))
            } else {
                Err(CodecError::MissingRunningStatus)
            }
        }
    }

    /// Decides well-formedness at run time.
    pub fn check_wf(&self) -> (r: bool)
        ensures
            r == self@.wf(),
    {
        match self {
            Self::MidiEvent(m) => m.check_wf(),
            Self::SysExEvent(e) => e.check_wf(),
            Self::MetaEvent(e) => e.check_wf(),
        }
    }

    /// Encodes the event with its status explicit.
    pub fn to_bytes(&self) -> (r: Vec<u8>)
        requires
            self@.wf(),
        ensures
            r@ == event_bytes(self@),
    {
        match self {
            Self::MidiEvent(m) => m.to_bytes(),
            Self::SysExEvent(e) => e.to_bytes(),
            Self::MetaEvent(e) => e.to_bytes(),
        }
    }

    /// Encodes the event under a running status after checking it is
    /// well-formed; a value that is not yields nothing.
    pub fn try_to_bytes_with_running_status(&self, running_status: u8) -> (r: Option<Vec<u8>>)
        ensures
            self@.wf() ==> (r matches Some(b) && b@ == event_bytes_with_running_status(
                self@,
                running_status,
            )),
            !self@.wf() ==> r is None,
    {
        if self.check_wf() {
            Some(self.to_bytes_with_running_status(running_status))
        } else {
            None
        }
    }

    /// Encodes the event under a running status, shedding the status byte of
    /// a channel message that repeats it.
    pub fn to_bytes_with_running_status(&self, running_status: u8) -> (r: Vec<u8>)
        requires
            self@.wf(),
        ensures
            r@ == event_bytes_with_running_status(self@, running_status),
    {
        match self {
            Self::MidiEvent(MidiMessage::ChannelMessage(c)) => {
                if c.get_status() == running_status {
                    c.to_data_bytes()
                } else {
                    self.to_bytes()
                }
            },
            _ => self.to_bytes(),
        }
    }

    /// The running status this event leaves behind.
    pub fn get_status(&self) -> (r: u8)
        ensures
            r == event_status(self@),
    {
        match self {
            Self::MidiEvent(m) => m.get_status(),
            Self::SysExEvent(e) => e.get_status(),
            Self::MetaEvent(_) => 0xff,
        }
    }
}

/// A delta time and the event it times: one record of a track stream.
#[derive(Debug, PartialEq, Eq, Clone)]
pub struct MTrkEvent {
    pub delta_time: VariableLengthQuantity,
    pub event: Event,
}

/// The mathematical shape of a track record.
#[verifier::ext_equal]
pub struct MTrkEventView {
    pub delta_time: VariableLengthQuantity,
    pub event: EventView,
}

impl View for MTrkEvent {
    type V = MTrkEventView;

    open spec fn view(&self) -> MTrkEventView {
        MTrkEventView { delta_time: self.delta_time, event: self.event@ }
    }
}

impl MTrkEventView {
    /// The delta time is in range and the event is well-formed.
    pub open spec fn wf(self) -> bool {
        self.delta_time.wf() && self.event.wf()
    }
}

/// The encoding of a record: the delta time, then the event.
pub open spec fn mtrk_bytes(v: MTrkEventView) -> Seq<u8> {
    vlq_encoding(v.delta_time.value as nat) + event_bytes(v.event)
}

/// What decoding one record at `pos` under `running_status` yields: a delta
/// time, then one event.  A payload that ends right after the delta time has
/// run out without its end-of-track marker.
pub open spec fn mtrk_parse(s: Seq<u8>, pos: int, running_status: u8) -> Result<
    (MTrkEventView, int),
    CodecError,
> {
    match vlq_parse(s, pos) {
        Err(e) => Err(e),
        Ok((dv, p)) => if p >= s.len() {
            Err(CodecError::MissingEndOfTrack)
        } else {
            match event_parse(s, p, running_status) {
                Err(e) => Err(e),
                Ok((ev, end)) => Ok(
                    (
                        MTrkEventView {
                            delta_time: VariableLengthQuantity { value: dv as u32 },
                            event: ev,
                        },
                        end,
                    ),
                ),
            }
        },
    }
}

impl MTrkEvent {
    /// Decodes one record at `pos` under `running_status`.
    pub fn parse(bytes: &[u8], pos: usize, running_status: u8) -> (r: Result<
        (Self, usize),
        CodecError,
    >)
        ensures
            match mtrk_parse(bytes@, pos as int, running_status) {
                Ok((v, end)) => r matches Ok(p) && p.0@ == v && p.1 == end && pos < end
                    <= bytes@.len(),
                Err(e) => r matches Err(e2) && e2 == e,
            },
    {
        let (delta_time, p) = VariableLengthQuantity::parse(bytes, pos)?;
        if p >= bytes.len() {
            return Err(CodecError::MissingEndOfTrack);
        }
        let (event, end) = Event::parse(bytes, p, running_status)?;
        let ev = Self { delta_time, event };
        assert(ev@ =~= mtrk_parse(bytes@, pos as int, running_status)->Ok_0.0);
        Ok((ev, end))
    }

    /// Decides well-formedness at run time.
    pub fn check_wf(&self) -> (r: bool)
        ensures
            r == self@.wf(),
    {
        self.delta_time.value <= 0x0fff_ffff && self.event.check_wf()
    }

    /// Encodes the record: delta time, then event.
    pub fn to_bytes(&self) -> (r: Vec<u8>)
        requires
            self@.wf(),
        ensures
            r@ == mtrk_bytes(self@),
    {
        let mut r = self.delta_time.to_bytes();
        let mut ev = self.event.to_bytes();
        r.append(&mut ev);
        assert(r@ =~= mtrk_bytes(self@));
        r
    }

    /// The running status this record's event leaves behind.
    pub fn get_status(&self) -> (r: u8)
        ensures
            r == event_status(self@.event),
    {
        self.event.get_status()
    }
}

// ------------------------------------------------------------------
// Round-trip lemmas
// ------------------------------------------------------------------

/// Whether an event's encoding opens with a byte the dispatcher reads back
/// as the same kind of event.  The system reset message and the
/// end-of-exclusive message encode as the bare bytes 0xFF and 0xF7, which
/// open a meta event and a system-exclusive block instead; every other event
/// opens unambiguously.
pub open spec fn event_tag_unambiguous(e: EventView) -> bool {
    &&& !(e matches EventView::MidiEvent(
        MidiMessage::SystemMessage(
            SystemMessage::SystemRealTimeMessage(SystemRealTimeMessage::SystemReset),
        ),
    ))
    &&& !(e matches EventView::MidiEvent(
        MidiMessage::SystemMessage(
            SystemMessage::SystemCommonMessage(SystemCommonMessage::EndOfExclusive),
        ),
    ))
}

/// Whether an event is a system-exclusive block without an uncounted
/// terminator: the one shape whose decoding reads one byte past its own
/// encoding when a 0xF7 happens to follow.
pub open spec fn sysex_open_ended(e: EventView) -> bool {
    e matches EventView::SysExEvent(x) && !x.uncounted_terminator
}

/// Decoding the encoding of an event embedded after any prefix yields it
/// back, under any running status and whatever bytes follow, for every
/// unambiguous well-formed event whose following bytes cannot be mistaken
/// for its terminator.
#[verifier::rlimit(100)]
#[verifier::spinoff_prover]
pub proof fn lemma_event_round_trip_at(
    pre: Seq<u8>,
    e: EventView,
    running_status: u8,
    tail: Seq<u8>,
)
    requires
        e.wf(),
        event_tag_unambiguous(e),
        sysex_open_ended(e) && tail.len() > 0 ==> tail[0] != 0xf7,
    ensures
        event_parse(pre + event_bytes(e) + tail, pre.len() as int, running_status) == Ok::<
            _,
            CodecError,
        >((e, pre.len() + event_bytes(e).len() as int)),
        event_bytes(e).len() >= 1,
{
    let eb = event_bytes(e);
    let s = pre + eb + tail;
    let b = pre.len() as int;
    match e {
        EventView::MidiEvent(m) => {
            let st = midi_message_status(m);
            lemma_midi_message_status_range(m);
            lemma_midi_message_round_trip(pre + seq![st], m, tail);
            assert(eb[0] == st);
            assert(s[b] == st) by {
                assert((pre + eb)[b] == eb[0]);
            }
            assert((pre + seq![st]) + midi_message_bytes(m).drop_first() + tail =~= s) by {
                assert(seq![st] + midi_message_bytes(m).drop_first() =~= midi_message_bytes(m));
            }
            assert(st != 0xf0 && st != 0xf7 && st != 0xff);
        },
        EventView::SysExEvent(x) => {
            lemma_sysex_round_trip(pre, x, tail);
            assert(s[b] == x.prefix) by {
                assert((pre + eb)[b] == eb[0]);
            }
        },
        EventView::MetaEvent(mv) => {
            lemma_meta_round_trip(pre, mv, tail);
            assert(s[b] == 0xff) by {
                assert((pre + eb)[b] == eb[0]);
            }
        },
    }
}

/// The event round trip: decoding the encoding of any constructible,
/// well-formed event yields that event back, under any running status and
/// with any trailing bytes -- except that a system-exclusive block recorded
/// without an uncounted terminator must not be followed immediately by a
/// 0xF7, which its decoding would absorb, and the two events whose encodings
/// open like a meta event or a system-exclusive block decode as those.
pub proof fn lemma_event_round_trip(e: EventView, running_status: u8, tail: Seq<u8>)
    requires
        e.wf(),
        event_tag_unambiguous(e),
        sysex_open_ended(e) && tail.len() > 0 ==> tail[0] != 0xf7,
    ensures
        event_parse(event_bytes(e) + tail, 0, running_status) matches Ok(p) && p.0 == e && p.1
            == event_bytes(e).len(),
{
    lemma_event_round_trip_at(Seq::empty(), e, running_status, tail);
    assert(Seq::<u8>::empty() + event_bytes(e) + tail =~= event_bytes(e) + tail);
}

/// Decoding the encoding of a record embedded after any prefix yields it
/// back, under the same provisos as the event round trip.
#[verifier::rlimit(100)]
#[verifier::spinoff_prover]
pub proof fn lemma_mtrk_round_trip_at(
    pre: Seq<u8>,
    v: MTrkEventView,
    running_status: u8,
    tail: Seq<u8>,
)
    requires
        v.wf(),
        event_tag_unambiguous(v.event),
        sysex_open_ended(v.event) && tail.len() > 0 ==> tail[0] != 0xf7,
    ensures
        mtrk_parse(pre + mtrk_bytes(v) + tail, pre.len() as int, running_status) == Ok::<
            _,
            CodecError,
        >((v, pre.len() + mtrk_bytes(v).len() as int)),
        mtrk_bytes(v).len() >= 2,
{
    let enc = vlq_encoding(v.delta_time.value as nat);
    let eb = event_bytes(v.event);
    let s = pre + mtrk_bytes(v) + tail;
    crate::variable_length_quantity::lemma_vlq_round_trip_at(
        pre,
        v.delta_time.value as nat,
        eb + tail,
    );
    assert(pre + enc + (eb + tail) =~= s);
    lemma_event_round_trip_at(pre + enc, v.event, running_status, tail);
    assert((pre + enc) + eb + tail =~= s);
}

/// The running-status elision law: after a note-on, a second note-on on the
/// same channel encoded under the running status sheds exactly its status
/// byte, and decoding the two records in sequence -- threading the status of
/// the first into the second -- yields both events just as decoding the
/// fully explicit form does.
#[verifier::rlimit(100)]
#[verifier::spinoff_prover]
pub proof fn lemma_running_status_elision(
    channel: u8,
    note1: u8,
    velocity1: u8,
    note2: u8,
    velocity2: u8,
    running_status: u8,
)
    requires
        channel <= 0x0f,
        note1 <= 0x7f,
        velocity1 <= 0x7f,
        note2 <= 0x7f,
        velocity2 <= 0x7f,
    ensures
        ({
            let e1 = EventView::MidiEvent(
                MidiMessage::ChannelMessage(
                    ChannelMessage::ChannelVoiceMessage(
                        ChannelVoiceMessage::NoteOn { channel, note: note1, velocity: velocity1 },
                    ),
                ),
            );
            let e2 = EventView::MidiEvent(
                MidiMessage::ChannelMessage(
                    ChannelMessage::ChannelVoiceMessage(
                        ChannelVoiceMessage::NoteOn { channel, note: note2, velocity: velocity2 },
                    ),
                ),
            );
            let st = event_status(e1);
            let elided = event_bytes(e1) + event_bytes_with_running_status(e2, st);
            let explicit = event_bytes(e1) + event_bytes(e2);
            &&& event_bytes_with_running_status(e2, st).len() + 1 == event_bytes(e2).len()
            &&& event_parse(elided, 0, running_status) == Ok::<_, CodecError>((e1, 3int))
            &&& event_parse(elided, 3, st) == Ok::<_, CodecError>((e2, 5int))
            &&& event_parse(explicit, 0, running_status) == Ok::<_, CodecError>((e1, 3int))
            &&& event_parse(explicit, 3, st) == Ok::<_, CodecError>((e2, 6int))
        }),
{
    let m1 = ChannelVoiceMessage::NoteOn { channel, note: note1, velocity: velocity1 };
    let m2 = ChannelVoiceMessage::NoteOn { channel, note: note2, velocity: velocity2 };
    let c2 = ChannelMessage::ChannelVoiceMessage(m2);
    let e1 = EventView::MidiEvent(MidiMessage::ChannelMessage(ChannelMessage::ChannelVoiceMessage(m1)));
    let e2 = EventView::MidiEvent(MidiMessage::ChannelMessage(c2));
    let st = event_status(e1);
    lemma_channel_status_parts(channel);
    let data2 = event_bytes_with_running_status(e2, st);
    assert(data2 =~= seq![note2, velocity2]);
    let eb1 = event_bytes(e1);
    let eb2 = event_bytes(e2);
    let elided = eb1 + data2;
    let explicit = eb1 + eb2;

    lemma_event_round_trip_at(Seq::empty(), e1, running_status, data2);
    assert(Seq::<u8>::empty() + eb1 + data2 =~= elided);

    lemma_channel_round_trip(eb1, c2, Seq::empty());
    assert(eb1 + channel_data_bytes(c2) + Seq::<u8>::empty() =~= elided);
    assert(elided[3] == note2) by {
        assert(elided[eb1.len() as int + 0] == data2[0]);
    }

    lemma_event_round_trip_at(Seq::empty(), e1, running_status, eb2);
    assert(Seq::<u8>::empty() + eb1 + eb2 =~= explicit);

    lemma_event_round_trip_at(eb1, e2, st, Seq::empty());
    assert(eb1 + eb2 + Seq::<u8>::empty() =~= explicit);
}

} // verus!
