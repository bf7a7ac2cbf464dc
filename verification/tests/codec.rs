use smf_codec::errors::CodecError;
use smf_codec::event::meta_event::MetaEvent;
use smf_codec::event::midi_event::{
    ChannelMessage, ChannelModeMessage, ChannelVoiceMessage, MidiMessage, ModeMessage,
    SystemCommonMessage, SystemMessage, SystemRealTimeMessage,
};
use smf_codec::event::sysex_event::SysExEvent;
use smf_codec::event::{Event, MTrkEvent};
use smf_codec::header::{Division, HeaderChunk, HeaderData};
use smf_codec::track::{decode_track, encode_track, TrackChunk};
use smf_codec::variable_length_quantity::VariableLengthQuantity;

fn note_on(channel: u8, note: u8, velocity: u8) -> Event {
    Event::MidiEvent(MidiMessage::ChannelMessage(
        ChannelMessage::ChannelVoiceMessage(ChannelVoiceMessage::NoteOn {
            channel,
            note,
            velocity,
        }),
    ))
}

#[test]
fn mode_voice_disambiguation() {
    // A status 0xB0 event whose first data byte is an ordinary controller is
    // a control change; one whose first data byte lies in 0x7A-0x7F is a
    // channel mode message.
    let (event, consumed) = Event::parse(&[0xb0, 0x07, 0x40], 0, 0xff).unwrap();
    assert_eq!(consumed, 3);
    assert_eq!(
        event,
        Event::MidiEvent(MidiMessage::ChannelMessage(
            ChannelMessage::ChannelVoiceMessage(ChannelVoiceMessage::ControlChange {
                channel: 0,
                controller: 7,
                value: 64,
            })
        ))
    );
    let (event, consumed) = Event::parse(&[0xb0, 0x7b, 0x00], 0, 0xff).unwrap();
    assert_eq!(consumed, 3);
    assert_eq!(
        event,
        Event::MidiEvent(MidiMessage::ChannelMessage(
            ChannelMessage::ChannelModeMessage(ChannelModeMessage {
                channel: 0,
                message: ModeMessage::AllNotesOff,
            })
        ))
    );
    // Controllers 0x78 and 0x79 stay ordinary control changes.
    let (event, _) = Event::parse(&[0xb0, 0x78, 0x00], 0, 0xff).unwrap();
    assert_eq!(
        event,
        Event::MidiEvent(MidiMessage::ChannelMessage(
            ChannelMessage::ChannelVoiceMessage(ChannelVoiceMessage::ControlChange {
                channel: 0,
                controller: 0x78,
                value: 0,
            })
        ))
    );
}

#[test]
fn sysex_terminator_shapes() {
    // Terminator counted inside the declared length.
    let counted = [0xf0, 0x03, 0x41, 0x42, 0xf7];
    let (ev1, consumed1) = SysExEvent::parse(&counted, 0).unwrap();
    assert_eq!(consumed1, 5);
    assert_eq!(ev1.payload(), &[0x41, 0x42]);
    assert_eq!(ev1.to_bytes(), counted.to_vec());

    // Terminator outside the declared length.
    let uncounted = [0xf0, 0x02, 0x41, 0x42, 0xf7];
    let (ev2, consumed2) = SysExEvent::parse(&uncounted, 0).unwrap();
    assert_eq!(consumed2, 5);
    assert_eq!(ev2.payload(), &[0x41, 0x42]);
    assert_eq!(ev2.to_bytes(), uncounted.to_vec());

    // The two decoded values are distinct shapes around the same payload.
    assert_ne!(ev1, ev2);

    // No terminator at all.
    let bare = [0xf7, 0x01, 0x41];
    let (ev3, consumed3) = SysExEvent::parse(&bare, 0).unwrap();
    assert_eq!(consumed3, 3);
    assert_eq!(ev3.payload(), &[0x41]);
    assert_eq!(ev3.to_bytes(), bare.to_vec());
}

#[test]
fn three_record_track_round_trip() {
    let bytes = [
        0x00, 0xff, 0x58, 0x04, 0x04, 0x02, 0x18, 0x08, // time signature
        0x00, 0xff, 0x51, 0x03, 0x07, 0xa1, 0x20, // tempo
        0x83, 0x00, 0xff, 0x2f, 0x00, // end of track at delta 384
    ];
    let events = decode_track(&bytes).unwrap();
    assert_eq!(events.len(), 3);
    assert_eq!(events[0].delta_time.value, 0);
    assert_eq!(
        events[0].event,
        Event::MetaEvent(MetaEvent::TimeSignature {
            numerator: 4,
            denominator: 2,
            clocks_per_metronome_click: 24,
            thirty_seconds_per_quarter_note: 8,
        })
    );
    assert_eq!(events[1].delta_time.value, 0);
    assert_eq!(
        events[1].event,
        Event::MetaEvent(MetaEvent::SetTempo { tempo: 500000 })
    );
    assert_eq!(events[2].delta_time.value, 384);
    assert_eq!(events[2].event, Event::MetaEvent(MetaEvent::EndOfTrack));
    assert_eq!(encode_track(&events), bytes.to_vec());
}

#[test]
fn running_status_elision_on_the_wire() {
    let first = note_on(2, 48, 96);
    let second = note_on(2, 60, 96);
    let status = first.get_status();
    assert_eq!(status, 0x92);

    // Under the running status the second event sheds its status byte.
    let explicit = second.to_bytes();
    let elided = second.to_bytes_with_running_status(status);
    assert_eq!(explicit, vec![0x92, 60, 96]);
    assert_eq!(elided, vec![60, 96]);

    // Decoding the concatenation, threading the first status forward,
    // reproduces both events identically to the fully explicit form.
    let mut stream = first.to_bytes();
    stream.extend(elided);
    let (e1, p1) = Event::parse(&stream, 0, 0xff).unwrap();
    let (e2, p2) = Event::parse(&stream, p1, e1.get_status()).unwrap();
    assert_eq!(p2, stream.len());
    assert_eq!(e1, first);
    assert_eq!(e2, second);

    let mut full = first.to_bytes();
    full.extend(second.to_bytes());
    let (f1, q1) = Event::parse(&full, 0, 0xff).unwrap();
    let (f2, q2) = Event::parse(&full, q1, f1.get_status()).unwrap();
    assert_eq!(q2, full.len());
    assert_eq!((e1, e2), (f1, f2));
}

#[test]
fn event_round_trips() {
    let events = vec![
        note_on(5, 64, 100),
        Event::MidiEvent(MidiMessage::ChannelMessage(
            ChannelMessage::ChannelVoiceMessage(ChannelVoiceMessage::NoteOff {
                channel: 15,
                note: 0,
                velocity: 127,
            }),
        )),
        Event::MidiEvent(MidiMessage::ChannelMessage(
            ChannelMessage::ChannelVoiceMessage(ChannelVoiceMessage::PitchBendChange {
                channel: 3,
                value: 0x1234,
            }),
        )),
        Event::MidiEvent(MidiMessage::ChannelMessage(
            ChannelMessage::ChannelModeMessage(ChannelModeMessage {
                channel: 9,
                message: ModeMessage::MonoModeOn { n: 4 },
            }),
        )),
        Event::MidiEvent(MidiMessage::SystemMessage(
            SystemMessage::SystemCommonMessage(SystemCommonMessage::SongPositionPointer {
                value: 0x2345,
            }),
        )),
        Event::MidiEvent(MidiMessage::SystemMessage(
            SystemMessage::SystemRealTimeMessage(SystemRealTimeMessage::TimingClock),
        )),
        Event::SysExEvent(SysExEvent {
            prefix: 0xf0,
            data: vec![0x41, 0x42, 0xf7],
            uncounted_terminator: false,
        }),
        Event::SysExEvent(SysExEvent {
            prefix: 0xf7,
            data: vec![0x01, 0x02],
            uncounted_terminator: true,
        }),
        Event::MetaEvent(MetaEvent::SequenceNumber { number: 0xbeef }),
        Event::MetaEvent(MetaEvent::SmpteOffset {
            hour: 1,
            minute: 2,
            second: 3,
            frame: 4,
            subframe: 5,
        }),
        Event::MetaEvent(MetaEvent::KeySignature { key: 0xfd, scale: 1 }),
        Event::MetaEvent(MetaEvent::MidiChannelPrefix { channel: 9 }),
        Event::MetaEvent(MetaEvent::SequenceOrTrackName {
            length: VariableLengthQuantity { value: 4 },
            data: vec![0x54, 0x65, 0x73, 0x74],
        }),
        Event::MetaEvent(MetaEvent::SequencerSpecificEvent {
            length: VariableLengthQuantity { value: 3 },
            data: vec![0x00, 0x80, 0xff],
        }),
        Event::MetaEvent(MetaEvent::UnknownMetaEvent {
            meta_type: 0x60,
            length: VariableLengthQuantity { value: 2 },
            data: vec![0xaa, 0xbb],
        }),
    ];
    for event in events.iter() {
        let bytes = event.to_bytes();
        let (decoded, consumed) = Event::parse(&bytes, 0, 0xff).unwrap();
        assert_eq!(&decoded, event);
        assert_eq!(consumed, bytes.len());
    }
}

#[test]
fn meta_text_decodes_under_the_single_byte_table() {
    // 0x80 is the euro sign under windows-1252; a decoder that handed bytes
    // back unchanged would return U+0080 instead.
    let event = MetaEvent::SequenceOrTrackName {
        length: VariableLengthQuantity { value: 4 },
        data: vec![0x43, 0x61, 0x66, 0x80],
    };
    assert_eq!(event.text(), Some("Caf\u{20ac}".to_string()));
    assert_eq!(MetaEvent::EndOfTrack.text(), None);
}

#[test]
fn fatal_malformed_length() {
    // A payload that ends in the middle of a variable-length continuation.
    assert_eq!(
        VariableLengthQuantity::parse(&[0x81], 0),
        Err(CodecError::MalformedLength)
    );
    // More than three continuation bytes before a terminal one.
    assert_eq!(
        VariableLengthQuantity::parse(&[0x81, 0x82, 0x83, 0x84, 0x05], 0),
        Err(CodecError::MalformedLength)
    );
    assert_eq!(decode_track(&[0x83]), Err(CodecError::MalformedLength));
}

#[test]
fn fatal_missing_end_of_track() {
    // A track whose last event is not the end-of-track meta event.
    assert_eq!(
        decode_track(&[0x00, 0x90, 0x3c, 0x40]),
        Err(CodecError::MissingEndOfTrack)
    );
    assert_eq!(decode_track(&[]), Err(CodecError::MissingEndOfTrack));
}

#[test]
fn fatal_invalid_text_encoding() {
    // A byte-order mark hands the text to the UTF-8 table, under which 0xFF
    // has no representation; the failure is a recoverable parse error.
    let bytes = [0xff, 0x01, 0x04, 0xef, 0xbb, 0xbf, 0xff];
    assert_eq!(
        MetaEvent::parse(&bytes, 0),
        Err(CodecError::InvalidTextEncoding)
    );
    let track = [0x00, 0xff, 0x01, 0x04, 0xef, 0xbb, 0xbf, 0xff, 0x00, 0xff, 0x2f, 0x00];
    assert_eq!(decode_track(&track), Err(CodecError::InvalidTextEncoding));
}

#[test]
fn error_variants_each_have_a_witness() {
    // A data byte with its high bit set.
    assert_eq!(
        Event::parse(&[0x90, 0x3c, 0x80], 0, 0xff),
        Err(CodecError::InvalidDataByte)
    );
    // A mode controller/value pair outside the table.
    assert_eq!(
        Event::parse(&[0xb0, 0x7a, 0x01], 0, 0xff),
        Err(CodecError::InvalidModeMessage)
    );
    // An unassigned system status byte.
    assert_eq!(
        Event::parse(&[0xf4], 0, 0xff),
        Err(CodecError::InvalidSystemMessage)
    );
    // A fixed-size meta event declaring the wrong length.
    assert_eq!(
        MetaEvent::parse(&[0xff, 0x2f, 0x01], 0),
        Err(CodecError::InvalidMetaLength)
    );
    // A system-exclusive block declaring more payload than remains.
    assert_eq!(
        SysExEvent::parse(&[0xf0, 0x05, 0x41], 0),
        Err(CodecError::TruncatedSysEx)
    );
    // A meta event running out of payload bytes.
    assert_eq!(
        MetaEvent::parse(&[0xff, 0x51, 0x03, 0x07, 0xa1], 0),
        Err(CodecError::TruncatedMeta)
    );
    // A channel message running out of data bytes.
    assert_eq!(
        Event::parse(&[0x90, 0x3c], 0, 0xff),
        Err(CodecError::TruncatedChannelMessage)
    );
    // A data byte with no usable running status before it.
    assert_eq!(
        Event::parse(&[0x3c, 0x40], 0, 0xff),
        Err(CodecError::MissingRunningStatus)
    );
    // A chunk opening with the wrong tag.
    assert_eq!(
        TrackChunk::parse(&[0x4d, 0x54, 0x68, 0x64, 0x00, 0x00, 0x00, 0x00], 0),
        Err(CodecError::InvalidChunkType)
    );
    // A header declaring an unknown format.
    let bad_format = [
        0x4d, 0x54, 0x68, 0x64, 0x00, 0x00, 0x00, 0x06, 0x00, 0x03, 0x00, 0x00, 0x00, 0x60,
    ];
    assert_eq!(
        HeaderChunk::parse(&bad_format, 0),
        Err(CodecError::InvalidFormat)
    );
    // A chunk declaring more bytes than remain.
    let short = [0x4d, 0x54, 0x72, 0x6b, 0x00, 0x00, 0x00, 0x09, 0x00];
    assert_eq!(
        TrackChunk::parse(&short, 0),
        Err(CodecError::TruncatedChunk)
    );
}

#[test]
fn running_status_after_meta_event_is_rejected() {
    // A meta event resets the running status to the 0xFF token, under which
    // an implicit data byte cannot be interpreted.
    let bytes = [0x00, 0xff, 0x2f, 0x00, 0x00, 0x3c, 0x40];
    assert_eq!(decode_track(&bytes), Err(CodecError::MissingRunningStatus));
}

#[test]
fn well_formedness_gates_encoding() {
    let out_of_range = Event::MidiEvent(MidiMessage::ChannelMessage(
        ChannelMessage::ChannelVoiceMessage(ChannelVoiceMessage::NoteOn {
            channel: 16,
            note: 60,
            velocity: 64,
        }),
    ));
    assert!(!out_of_range.check_wf());
    assert_eq!(out_of_range.try_to_bytes_with_running_status(0x90), None);

    let fine = note_on(0, 60, 64);
    assert!(fine.check_wf());
    assert_eq!(
        fine.try_to_bytes_with_running_status(0x90),
        Some(vec![60, 64])
    );
    assert_eq!(
        fine.try_to_bytes_with_running_status(0x91),
        Some(vec![0x90, 60, 64])
    );
}

#[test]
fn file_level_checked_encoding() {
    let track = TrackChunk {
        chunk_type: "MTrk".to_string(),
        length: 4,
        data: vec![MTrkEvent {
            delta_time: VariableLengthQuantity { value: 0 },
            event: Event::MetaEvent(MetaEvent::EndOfTrack),
        }],
    };
    let file = single_track_file(track);
    let bytes = file.try_to_bytes().expect("a well-formed file encodes");
    let (reparsed, consumed) = smf_codec::midi_file::MidiFile::parse(&bytes).unwrap();
    assert_eq!(consumed, bytes.len());
    assert_eq!(reparsed, file);

    // A file whose header declares the wrong track count is refused.
    let mut wrong = file;
    wrong.header.data.ntrks = 2;
    assert_eq!(wrong.try_to_bytes(), None);
}

fn single_track_file(track: TrackChunk) -> smf_codec::midi_file::MidiFile {
    smf_codec::midi_file::MidiFile {
        header: HeaderChunk {
            chunk_type: "MThd".to_string(),
            length: 6,
            data: HeaderData {
                format: 0,
                ntrks: 1,
                division: Division::TicksPerQuarterNote { ticks: 96 },
            },
        },
        tracks: vec![track],
    }
}
