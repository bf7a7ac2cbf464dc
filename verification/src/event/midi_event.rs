//! Channel and system messages.
//!
//! A status byte with high nibble 0x8-0xE opens a channel message on the
//! channel in its low nibble; high nibble 0xF opens a system message keyed by
//! the low nibble.  A control change whose controller lies in 0x7A-0x7F is a
//! channel mode message; controllers 0x78 and 0x79 stay ordinary control
//! changes, a deliberate boundary that round-tripping depends on.

use crate::errors::CodecError;
use crate::utils::{be_u7, u7_parse};
use vstd::prelude::*;

verus! {

/// A channel voice message: a channel 0-15 and one or two seven-bit values.
/// A pitch bend packs two seven-bit values into one 14-bit value, least
/// significant seven bits first on the wire.
#[derive(Debug, PartialEq, Eq, Structural, Clone, Copy)]
pub enum ChannelVoiceMessage {
    NoteOff { channel: u8, note: u8, velocity: u8 },
    NoteOn { channel: u8, note: u8, velocity: u8 },
    PolyphonicKeyPressure { channel: u8, note: u8, pressure: u8 },
    ControlChange { channel: u8, controller: u8, value: u8 },
    ProgramChange { channel: u8, program: u8 },
    ChannelPressure { channel: u8, pressure: u8 },
    PitchBendChange { channel: u8, value: u16 },
}

/// A channel mode selection carried as a reserved control change.
#[derive(Debug, PartialEq, Eq, Structural, Clone, Copy)]
pub enum ModeMessage {
    LocalControlOff,
    LocalControlOn,
    AllNotesOff,
    OmniModeOff,
    OmniModeOn,
    MonoModeOn { n: u8 },
    PolyModeOn,
}

/// A mode message together with the channel it addresses.
#[derive(Debug, PartialEq, Eq, Structural, Clone, Copy)]
pub struct ChannelModeMessage {
    pub channel: u8,
    pub message: ModeMessage,
}

/// Either kind of message addressed to a channel.
#[derive(Debug, PartialEq, Eq, Structural, Clone, Copy)]
pub enum ChannelMessage {
    ChannelVoiceMessage(ChannelVoiceMessage),
    ChannelModeMessage(ChannelModeMessage),
}

/// A system common message, keyed by status low nibble 0x2, 0x3, 0x6 or 0x7.
#[derive(Debug, PartialEq, Eq, Structural, Clone, Copy)]
pub enum SystemCommonMessage {
    SongPositionPointer { value: u16 },
    SongSelect { song: u8 },
    TuneRequest,
    EndOfExclusive,
}

/// A system real-time message; none carries a payload.
#[derive(Debug, PartialEq, Eq, Structural, Clone, Copy)]
pub enum SystemRealTimeMessage {
    TimingClock,
    Start,
    Continue,
    Stop,
    ActiveSensing,
    SystemReset,
}

/// Either kind of system message.
#[derive(Debug, PartialEq, Eq, Structural, Clone, Copy)]
pub enum SystemMessage {
    SystemCommonMessage(SystemCommonMessage),
    SystemRealTimeMessage(SystemRealTimeMessage),
}

/// Any message opened by a status byte: channel or system.
#[derive(Debug, PartialEq, Eq, Structural, Clone, Copy)]
pub enum MidiMessage {
    ChannelMessage(ChannelMessage),
    SystemMessage(SystemMessage),
}

// ------------------------------------------------------------------
// Channel voice messages
// ------------------------------------------------------------------

/// The status byte a voice message re-derives on encode: kind nibble high,
/// channel low.
pub open spec fn voice_status(m: ChannelVoiceMessage) -> u8 {
    match m {
        ChannelVoiceMessage::NoteOff { channel, .. } => 0x80u8 | channel,
        ChannelVoiceMessage::NoteOn { channel, .. } => 0x90u8 | channel,
        ChannelVoiceMessage::PolyphonicKeyPressure { channel, .. } => 0xa0u8 | channel,
        ChannelVoiceMessage::ControlChange { channel, .. } => 0xb0u8 | channel,
        ChannelVoiceMessage::ProgramChange { channel, .. } => 0xc0u8 | channel,
        ChannelVoiceMessage::ChannelPressure { channel, .. } => 0xd0u8 | channel,
        ChannelVoiceMessage::PitchBendChange { channel, .. } => 0xe0u8 | channel,
    }
}

/// The data bytes of a voice message, without its status byte.
pub open spec fn voice_data_bytes(m: ChannelVoiceMessage) -> Seq<u8> {
    match m {
        ChannelVoiceMessage::NoteOff { note, velocity, .. } => seq![note, velocity],
        ChannelVoiceMessage::NoteOn { note, velocity, .. } => seq![note, velocity],
        ChannelVoiceMessage::PolyphonicKeyPressure { note, pressure, .. } => seq![note, pressure],
        ChannelVoiceMessage::ControlChange { controller, value, .. } => seq![controller, value],
        ChannelVoiceMessage::ProgramChange { program, .. } => seq![program],
        ChannelVoiceMessage::ChannelPressure { pressure, .. } => seq![pressure],
        ChannelVoiceMessage::PitchBendChange { value, .. } => seq![
            (value & 0x7f) as u8,
            (value >> 7) as u8,
        ],
    }
}

/// The full encoding of a voice message: status byte, then data bytes.
pub open spec fn voice_bytes(m: ChannelVoiceMessage) -> Seq<u8> {
    seq![voice_status(m)] + voice_data_bytes(m)
}

/// What decoding the data bytes of a voice message yields, the kind and
/// channel fixed by `status`.
pub open spec fn voice_parse(s: Seq<u8>, pos: int, status: u8) -> Result<
    (ChannelVoiceMessage, int),
    CodecError,
>
    recommends
        0x8 <= status >> 4 <= 0xe,
{
    let kind = status >> 4;
    let channel = status & 0x0f;
    if kind == 0xc || kind == 0xd {
        match u7_parse(s, pos) {
            Err(e) => Err(e),
            Ok((b, end)) => if kind == 0xc {
                Ok((ChannelVoiceMessage::ProgramChange { channel, program: b }, end))
            } else {
                Ok((ChannelVoiceMessage::ChannelPressure { channel, pressure: b }, end))
            },
        }
    } else {
        match u7_parse(s, pos) {
            Err(e) => Err(e),
            Ok((b1, p1)) => match u7_parse(s, p1) {
                Err(e) => Err(e),
                Ok((b2, end)) => if kind == 0x8 {
                    Ok((ChannelVoiceMessage::NoteOff { channel, note: b1, velocity: b2 }, end))
                } else if kind == 0x9 {
                    Ok((ChannelVoiceMessage::NoteOn { channel, note: b1, velocity: b2 }, end))
                } else if kind == 0xa {
                    Ok(
                        (
                            ChannelVoiceMessage::PolyphonicKeyPressure {
                                channel,
                                note: b1,
                                pressure: b2,
                            },
                            end,
                        ),
                    )
                } else if kind == 0xb {
                    Ok(
                        (
                            ChannelVoiceMessage::ControlChange {
                                channel,
                                controller: b1,
                                value: b2,
                            },
                            end,
                        ),
                    )
                } else {
                    Ok(
                        (
                            ChannelVoiceMessage::PitchBendChange {
                                channel,
                                value: ((b2 as u16) << 7) | (b1 as u16),
                            },
                            end,
                        ),
                    )
                },
            },
        }
    }
}

impl ChannelVoiceMessage {
    /// The channel fits four bits, every data value seven, a pitch bend
    /// fourteen; a control change stays below the mode-message controllers.
    pub open spec fn wf(self) -> bool {
        match self {
            ChannelVoiceMessage::NoteOff { channel, note, velocity } => channel <= 0x0f && note
                <= 0x7f && velocity <= 0x7f,
            ChannelVoiceMessage::NoteOn { channel, note, velocity } => channel <= 0x0f && note
                <= 0x7f && velocity <= 0x7f,
            ChannelVoiceMessage::PolyphonicKeyPressure { channel, note, pressure } => channel
                <= 0x0f && note <= 0x7f && pressure <= 0x7f,
            ChannelVoiceMessage::ControlChange { channel, controller, value } => channel <= 0x0f
                && controller < 0x7a && value <= 0x7f,
            ChannelVoiceMessage::ProgramChange { channel, program } => channel <= 0x0f && program
                <= 0x7f,
            ChannelVoiceMessage::ChannelPressure { channel, pressure } => channel <= 0x0f
                && pressure <= 0x7f,
            ChannelVoiceMessage::PitchBendChange { channel, value } => channel <= 0x0f && value
                <= 0x3fff,
        }
    }

    /// Decides well-formedness at run time.
    pub fn check_wf(&self) -> (r: bool)
        ensures
            r == self.wf(),
    {
        match self {
            Self::NoteOff { channel, note, velocity } => *channel <= 0x0f && *note <= 0x7f
                && *velocity <= 0x7f,
            Self::NoteOn { channel, note, velocity } => *channel <= 0x0f && *note <= 0x7f
                && *velocity <= 0x7f,
            Self::PolyphonicKeyPressure { channel, note, pressure } => *channel <= 0x0f && *note
                <= 0x7f && *pressure <= 0x7f,
            Self::ControlChange { channel, controller, value } => *channel <= 0x0f && *controller
                < 0x7a && *value <= 0x7f,
            Self::ProgramChange { channel, program } => *channel <= 0x0f && *program <= 0x7f,
            Self::ChannelPressure { channel, pressure } => *channel <= 0x0f && *pressure <= 0x7f,
            Self::PitchBendChange { channel, value } => *channel <= 0x0f && *value <= 0x3fff,
        }
    }

    /// Decodes the data bytes of a voice message whose status byte, already
    /// consumed, is `status`.
    pub fn parse(bytes: &[u8], pos: usize, status: u8) -> (r: Result<(Self, usize), CodecError>)
        requires
            0x8 <= status >> 4 <= 0xe,
        ensures
            match voice_parse(bytes@, pos as int, status) {
                Ok((m, end)) => r matches Ok(p) && p.0 == m && p.1 == end && pos < end
                    <= bytes@.len(),
                Err(e) => r matches Err(e2) && e2 == e,
            },
    {
        let kind: u8 = status >> 4;
        let channel: u8 = status & 0x0f;
        if kind == 0xc {
            let (program, end) = be_u7(bytes, pos)?;
            Ok((Self::ProgramChange { channel, program }, end))
        } else if kind == 0xd {
            let (pressure, end) = be_u7(bytes, pos)?;
            Ok((Self::ChannelPressure { channel, pressure }, end))
        } else {
            let (b1, p1) = be_u7(bytes, pos)?;
            let (b2, end) = be_u7(bytes, p1)?;
            if kind == 0x8 {
                Ok((Self::NoteOff { channel, note: b1, velocity: b2 }, end))
            } else if kind == 0x9 {
                Ok((Self::NoteOn { channel, note: b1, velocity: b2 }, end))
            } else if kind == 0xa {
                Ok((Self::PolyphonicKeyPressure { channel, note: b1, pressure: b2 }, end))
            } else if kind == 0xb {
                Ok((Self::ControlChange { channel, controller: b1, value: b2 }, end))
            } else {
                Ok((Self::PitchBendChange { channel, value: ((b2 as u16) << 7) | (b1 as u16) }, end))
            }
        }
    }

    /// Encodes the message: its re-derived status byte, then its data bytes.
    pub fn to_bytes(&self) -> (r: Vec<u8>)
        ensures
            r@ == voice_bytes(*self),
    {
        let r: Vec<u8> = match self {
            Self::NoteOff { note, velocity, .. } => vec![self.get_status(), *note, *velocity],
            Self::NoteOn { note, velocity, .. } => vec![self.get_status(), *note, *velocity],
            Self::PolyphonicKeyPressure { note, pressure, .. } => vec![
                self.get_status(),
                *note,
                *pressure,
            ],
            Self::ControlChange { controller, value, .. } => vec![
                self.get_status(),
                *controller,
                *value,
            ],
            Self::ProgramChange { program, .. } => vec![self.get_status(), *program],
            Self::ChannelPressure { pressure, .. } => vec![self.get_status(), *pressure],
            Self::PitchBendChange { value, .. } => vec![
                self.get_status(),
                (*value & 0x7f) as u8,
                (*value >> 7) as u8,
            ],
        };
        assert(r@ =~= voice_bytes(*self));
        r
    }

    /// The status byte this message encodes with.
    pub fn get_status(&self) -> (r: u8)
        ensures
            r == voice_status(*self),
    {
        match self {
            Self::NoteOff { channel, .. } => 0x80 | *channel,
            Self::NoteOn { channel, .. } => 0x90 | *channel,
            Self::PolyphonicKeyPressure { channel, .. } => 0xa0 | *channel,
            Self::ControlChange { channel, .. } => 0xb0 | *channel,
            Self::ProgramChange { channel, .. } => 0xc0 | *channel,
            Self::ChannelPressure { channel, .. } => 0xd0 | *channel,
            Self::PitchBendChange { channel, .. } => 0xe0 | *channel,
        }
    }
}

// ------------------------------------------------------------------
// Channel mode messages
// ------------------------------------------------------------------

/// The two data bytes a mode message encodes to: controller, then value.
pub open spec fn mode_data_bytes(m: ModeMessage) -> Seq<u8> {
    match m {
        ModeMessage::LocalControlOff => seq![0x7au8, 0x00u8],
        ModeMessage::LocalControlOn => seq![0x7au8, 0x7fu8],
        ModeMessage::AllNotesOff => seq![0x7bu8, 0x00u8],
        ModeMessage::OmniModeOff => seq![0x7cu8, 0x00u8],
        ModeMessage::OmniModeOn => seq![0x7du8, 0x00u8],
        ModeMessage::MonoModeOn { n } => seq![0x7eu8, n],
        ModeMessage::PolyModeOn => seq![0x7fu8, 0x00u8],
    }
}

/// What decoding a controller/value pair as a mode message yields; a pair
/// outside the table is `InvalidModeMessage`.
pub open spec fn mode_parse(s: Seq<u8>, pos: int) -> Result<(ModeMessage, int), CodecError> {
    match u7_parse(s, pos) {
        Err(e) => Err(e),
        Ok((controller, p1)) => match u7_parse(s, p1) {
            Err(e) => Err(e),
            Ok((value, end)) => if controller == 0x7a && value == 0x00 {
                Ok((ModeMessage::LocalControlOff, end))
            } else if controller == 0x7a && value == 0x7f {
                Ok((ModeMessage::LocalControlOn, end))
            } else if controller == 0x7b && value == 0x00 {
                Ok((ModeMessage::AllNotesOff, end))
            } else if controller == 0x7c && value == 0x00 {
                Ok((ModeMessage::OmniModeOff, end))
            } else if controller == 0x7d && value == 0x00 {
                Ok((ModeMessage::OmniModeOn, end))
            } else if controller == 0x7e {
                Ok((ModeMessage::MonoModeOn { n: value }, end))
            } else if controller == 0x7f && value == 0x00 {
                Ok((ModeMessage::PolyModeOn, end))
            } else {
                Err(CodecError::InvalidModeMessage)
            },
        },
    }
}

impl ModeMessage {
    /// A mono-mode channel count fits seven bits.
    pub open spec fn wf(self) -> bool {
        match self {
            ModeMessage::MonoModeOn { n } => n <= 0x7f,
            _ => true,
        }
    }

    /// Decides well-formedness at run time.
    pub fn check_wf(&self) -> (r: bool)
        ensures
            r == self.wf(),
    {
        match self {
            Self::MonoModeOn { n } => *n <= 0x7f,
            _ => true,
        }
    }

    /// Decodes a controller/value pair as a mode message.
    pub fn parse(bytes: &[u8], pos: usize) -> (r: Result<(Self, usize), CodecError>)
        ensures
            match mode_parse(bytes@, pos as int) {
                Ok((m, end)) => r matches Ok(p) && p.0 == m && p.1 == end && pos < end
                    <= bytes@.len(),
                Err(e) => r matches Err(e2) && e2 == e,
            },
    {
        let (controller, p1) = be_u7(bytes, pos)?;
        let (value, end) = be_u7(bytes, p1)?;
        match (controller, value) {
            (0x7a, 0x00) => Ok((Self::LocalControlOff, end)),
            (0x7a, 0x7f) => Ok((Self::LocalControlOn, end)),
            (0x7b, 0x00) => Ok((Self::AllNotesOff, end)),
            (0x7c, 0x00) => Ok((Self::OmniModeOff, end)),
            (0x7d, 0x00) => Ok((Self::OmniModeOn, end)),
            (0x7e, n) => Ok((Self::MonoModeOn { n }, end)),
            (0x7f, 0x00) => Ok((Self::PolyModeOn, end)),
            _ => Err(CodecError::InvalidModeMessage),
        }
    }

    /// Encodes the controller/value pair, without a status byte.
    pub fn to_bytes(&self) -> (r: Vec<u8>)
        ensures
            r@ == mode_data_bytes(*self),
    {
        let r: Vec<u8> = match self {
            Self::LocalControlOff => vec![0x7a, 0x00],
            Self::LocalControlOn => vec![0x7a, 0x7f],
            Self::AllNotesOff => vec![0x7b, 0x00],
            Self::OmniModeOff => vec![0x7c, 0x00],
            Self::OmniModeOn => vec![0x7d, 0x00],
            Self::MonoModeOn { n } => vec![0x7e, *n],
            Self::PolyModeOn => vec![0x7f, 0x00],
        };
        assert(r@ =~= mode_data_bytes(*self));
        r
    }
}

/// The status byte of a channel mode message: control-change nibble, channel
/// low.
pub open spec fn channel_mode_status(m: ChannelModeMessage) -> u8 {
    0xb0u8 | m.channel
}

/// The full encoding of a channel mode message.
pub open spec fn channel_mode_bytes(m: ChannelModeMessage) -> Seq<u8> {
    seq![channel_mode_status(m)] + mode_data_bytes(m.message)
}

/// What decoding the data bytes of a mode message on the channel of `status`
/// yields.
pub open spec fn channel_mode_parse(s: Seq<u8>, pos: int, status: u8) -> Result<
    (ChannelModeMessage, int),
    CodecError,
>
    recommends
        status >> 4 == 0xb,
{
    match mode_parse(s, pos) {
        Err(e) => Err(e),
        Ok((m, end)) => Ok((ChannelModeMessage { channel: status & 0x0f, message: m }, end)),
    }
}

impl ChannelModeMessage {
    /// The channel fits four bits and the mode message is well-formed.
    pub open spec fn wf(self) -> bool {
        self.channel <= 0x0f && self.message.wf()
    }

    /// Decides well-formedness at run time.
    pub fn check_wf(&self) -> (r: bool)
        ensures
            r == self.wf(),
    {
        self.channel <= 0x0f && self.message.check_wf()
    }

    /// Decodes the data bytes of a mode message whose status byte, already
    /// consumed, is `status`.
    pub fn parse(bytes: &[u8], pos: usize, status: u8) -> (r: Result<(Self, usize), CodecError>)
        requires
            status >> 4 == 0xb,
        ensures
            match channel_mode_parse(bytes@, pos as int, status) {
                Ok((m, end)) => r matches Ok(p) && p.0 == m && p.1 == end && pos < end
                    <= bytes@.len(),
                Err(e) => r matches Err(e2) && e2 == e,
            },
    {
        let channel: u8 = status & 0x0f;
        let (message, end) = ModeMessage::parse(bytes, pos)?;
        Ok((Self { channel, message }, end))
    }

    /// Encodes the message: its status byte, then controller and value.
    pub fn to_bytes(&self) -> (r: Vec<u8>)
        ensures
            r@ == channel_mode_bytes(*self),
    {
        let mut r: Vec<u8> = vec![self.get_status()];
        let mut data = self.message.to_bytes();
        r.append(&mut data);
        assert(r@ =~= channel_mode_bytes(*self));
        r
    }

    /// The status byte this message encodes with.
    pub fn get_status(&self) -> (r: u8)
        ensures
            r == channel_mode_status(*self),
    {
        0xb0 | self.channel
    }
}

// ------------------------------------------------------------------
// Channel messages
// ------------------------------------------------------------------

/// The status byte of either kind of channel message.
pub open spec fn channel_status(m: ChannelMessage) -> u8 {
    match m {
        ChannelMessage::ChannelVoiceMessage(v) => voice_status(v),
        ChannelMessage::ChannelModeMessage(c) => channel_mode_status(c),
    }
}

/// The full encoding of either kind of channel message.
pub open spec fn channel_bytes(m: ChannelMessage) -> Seq<u8> {
    match m {
        ChannelMessage::ChannelVoiceMessage(v) => voice_bytes(v),
        ChannelMessage::ChannelModeMessage(c) => channel_mode_bytes(c),
    }
}

/// What decoding the data bytes of a channel message under `status` yields.
/// For the control-change nibble the next data byte discriminates: 0x7A-0x7F
/// selects a mode message, anything lower an ordinary control change.
pub open spec fn channel_parse(s: Seq<u8>, pos: int, status: u8) -> Result<
    (ChannelMessage, int),
    CodecError,
>
    recommends
        0x8 <= status >> 4 <= 0xe,
{
    if status >> 4 == 0xb {
        if pos < 0 || pos >= s.len() {
            Err(CodecError::TruncatedChannelMessage)
        } else if s[pos] >= 0x80 {
            Err(CodecError::InvalidDataByte)
        } else if 0x7a <= s[pos] {
            match channel_mode_parse(s, pos, status) {
                Err(e) => Err(e),
                Ok((m, end)) => Ok((ChannelMessage::ChannelModeMessage(m), end)),
            }
        } else {
            match voice_parse(s, pos, status) {
                Err(e) => Err(e),
                Ok((m, end)) => Ok((ChannelMessage::ChannelVoiceMessage(m), end)),
            }
        }
    } else {
        match voice_parse(s, pos, status) {
            Err(e) => Err(e),
            Ok((m, end)) => Ok((ChannelMessage::ChannelVoiceMessage(m), end)),
        }
    }
}

/// The data bytes of either kind of channel message, without the status
/// byte: what running-status elision leaves on the wire.
pub open spec fn channel_data_bytes(m: ChannelMessage) -> Seq<u8> {
    match m {
        ChannelMessage::ChannelVoiceMessage(v) => voice_data_bytes(v),
        ChannelMessage::ChannelModeMessage(c) => mode_data_bytes(c.message),
    }
}

impl ChannelMessage {
    /// Both kinds are well-formed under their own notion.
    pub open spec fn wf(self) -> bool {
        match self {
            ChannelMessage::ChannelVoiceMessage(v) => v.wf(),
            ChannelMessage::ChannelModeMessage(c) => c.wf(),
        }
    }

    /// Decides well-formedness at run time.
    pub fn check_wf(&self) -> (r: bool)
        ensures
            r == self.wf(),
    {
        match self {
            Self::ChannelVoiceMessage(m) => m.check_wf(),
            Self::ChannelModeMessage(m) => m.check_wf(),
        }
    }

    /// Decodes the data bytes of a channel message whose status byte, already
    /// consumed, is `status`.
    pub fn parse(bytes: &[u8], pos: usize, status: u8) -> (r: Result<(Self, usize), CodecError>)
        requires
            0x8 <= status >> 4 <= 0xe,
        ensures
            match channel_parse(bytes@, pos as int, status) {
                Ok((m, end)) => r matches Ok(p) && p.0 == m && p.1 == end && pos < end
                    <= bytes@.len(),
                Err(e) => r matches Err(e2) && e2 == e,
            },
    {
        if status >> 4 == 0xb {
            if pos >= bytes.len() {
                return Err(CodecError::TruncatedChannelMessage);
            }
            let controller: u8 = bytes[pos];
            if controller >= 0x80 {
                return Err(CodecError::InvalidDataByte);
            }
            if 0x7a <= controller {
                let (m, end) = ChannelModeMessage::parse(bytes, pos, status)?;
                Ok((Self::ChannelModeMessage(m), end))
            } else {
                let (m, end) = ChannelVoiceMessage::parse(bytes, pos, status)?;
                Ok((Self::ChannelVoiceMessage(m), end))
            }
        } else {
            let (m, end) = ChannelVoiceMessage::parse(bytes, pos, status)?;
            Ok((Self::ChannelVoiceMessage(m), end))
        }
    }

    /// Encodes the message with its status byte.
    pub fn to_bytes(&self) -> (r: Vec<u8>)
        ensures
            r@ == channel_bytes(*self),
    {
        match self {
            Self::ChannelVoiceMessage(m) => m.to_bytes(),
            Self::ChannelModeMessage(m) => m.to_bytes(),
        }
    }

    /// Encodes the message without its status byte, as running-status
    /// elision leaves it.
    pub fn to_data_bytes(&self) -> (r: Vec<u8>)
        ensures
            r@ == channel_data_bytes(*self),
    {
        let r: Vec<u8> = match self {
            Self::ChannelVoiceMessage(m) => match m {
                ChannelVoiceMessage::NoteOff { note, velocity, .. } => vec![*note, *velocity],
                ChannelVoiceMessage::NoteOn { note, velocity, .. } => vec![*note, *velocity],
                ChannelVoiceMessage::PolyphonicKeyPressure { note, pressure, .. } => vec![
                    *note,
                    *pressure,
                ],
                ChannelVoiceMessage::ControlChange { controller, value, .. } => vec![
                    *controller,
                    *value,
                ],
                ChannelVoiceMessage::ProgramChange { program, .. } => vec![*program],
                ChannelVoiceMessage::ChannelPressure { pressure, .. } => vec![*pressure],
                ChannelVoiceMessage::PitchBendChange { value, .. } => vec![
                    (*value & 0x7f) as u8,
                    (*value >> 7) as u8,
                ],
            },
            Self::ChannelModeMessage(m) => m.message.to_bytes(),
        };
        assert(r@ =~= channel_data_bytes(*self));
        r
    }

    /// The status byte this message encodes with.
    pub fn get_status(&self) -> (r: u8)
        ensures
            r == channel_status(*self),
    {
        match self {
            Self::ChannelVoiceMessage(m) => m.get_status(),
            Self::ChannelModeMessage(m) => m.get_status(),
        }
    }
}

// ------------------------------------------------------------------
// System messages
// ------------------------------------------------------------------

/// The status byte of a system common message.
pub open spec fn system_common_status(m: SystemCommonMessage) -> u8 {
    match m {
        SystemCommonMessage::SongPositionPointer { .. } => 0xf2u8,
        SystemCommonMessage::SongSelect { .. } => 0xf3u8,
        SystemCommonMessage::TuneRequest => 0xf6u8,
        SystemCommonMessage::EndOfExclusive => 0xf7u8,
    }
}

/// The full encoding of a system common message; a song position carries its
/// 14-bit value least significant seven bits first.
pub open spec fn system_common_bytes(m: SystemCommonMessage) -> Seq<u8> {
    match m {
        SystemCommonMessage::SongPositionPointer { value } => seq![
            0xf2u8,
            (value & 0x7f) as u8,
            ((value >> 7) & 0x7f) as u8,
        ],
        SystemCommonMessage::SongSelect { song } => seq![0xf3u8, song],
        SystemCommonMessage::TuneRequest => seq![0xf6u8],
        SystemCommonMessage::EndOfExclusive => seq![0xf7u8],
    }
}

/// What decoding the data bytes of a system common message under `status`
/// yields.
pub open spec fn system_common_parse(s: Seq<u8>, pos: int, status: u8) -> Result<
    (SystemCommonMessage, int),
    CodecError,
>
    recommends
        status >> 4 == 0xf,
{
    let kind = status & 0x0f;
    if kind == 0x2 {
        match u7_parse(s, pos) {
            Err(e) => Err(e),
            Ok((lsb, p1)) => match u7_parse(s, p1) {
                Err(e) => Err(e),
                Ok((msb, end)) => Ok(
                    (
                        SystemCommonMessage::SongPositionPointer {
                            value: ((msb as u16) << 7) | (lsb as u16),
                        },
                        end,
                    ),
                ),
            },
        }
    } else if kind == 0x3 {
        match u7_parse(s, pos) {
            Err(e) => Err(e),
            Ok((song, end)) => Ok((SystemCommonMessage::SongSelect { song }, end)),
        }
    } else if kind == 0x6 {
        Ok((SystemCommonMessage::TuneRequest, pos))
    } else if kind == 0x7 {
        Ok((SystemCommonMessage::EndOfExclusive, pos))
    } else {
        Err(CodecError::InvalidSystemMessage)
    }
}

impl SystemCommonMessage {
    /// A song position fits fourteen bits, a song number seven.
    pub open spec fn wf(self) -> bool {
        match self {
            SystemCommonMessage::SongPositionPointer { value } => value <= 0x3fff,
            SystemCommonMessage::SongSelect { song } => song <= 0x7f,
            _ => true,
        }
    }

    /// Decides well-formedness at run time.
    pub fn check_wf(&self) -> (r: bool)
        ensures
            r == self.wf(),
    {
        match self {
            Self::SongPositionPointer { value } => *value <= 0x3fff,
            Self::SongSelect { song } => *song <= 0x7f,
            _ => true,
        }
    }

    /// Decodes the data bytes of a system common message whose status byte,
    /// already consumed, is `status`.
    pub fn parse(bytes: &[u8], pos: usize, status: u8) -> (r: Result<(Self, usize), CodecError>)
        requires
            status >> 4 == 0xf,
        ensures
            match system_common_parse(bytes@, pos as int, status) {
                Ok((m, end)) => r matches Ok(p) && p.0 == m && p.1 == end && pos <= end && (end
                    == pos || end <= bytes@.len()),
                Err(e) => r matches Err(e2) && e2 == e,
            },
    {
        let kind: u8 = status & 0x0f;
        if kind == 0x2 {
            let (lsb, p1) = be_u7(bytes, pos)?;
            let (msb, end) = be_u7(bytes, p1)?;
            Ok((Self::SongPositionPointer { value: ((msb as u16) << 7) | (lsb as u16) }, end))
        } else if kind == 0x3 {
            let (song, end) = be_u7(bytes, pos)?;
            Ok((Self::SongSelect { song }, end))
        } else if kind == 0x6 {
            Ok((Self::TuneRequest, pos))
        } else if kind == 0x7 {
            Ok((Self::EndOfExclusive, pos))
        } else {
            Err(CodecError::InvalidSystemMessage)
        }
    }

    /// Encodes the message with its status byte.
    pub fn to_bytes(&self) -> (r: Vec<u8>)
        ensures
            r@ == system_common_bytes(*self),
    {
        let r: Vec<u8> = match self {
            Self::SongPositionPointer { value } => vec![
                0xf2,
                (*value & 0x7f) as u8,
                ((*value >> 7) & 0x7f) as u8,
            ],
            Self::SongSelect { song } => vec![0xf3, *song],
            Self::TuneRequest => vec![0xf6],
            Self::EndOfExclusive => vec![0xf7],
        };
        assert(r@ =~= system_common_bytes(*self));
        r
    }

    /// The status byte this message encodes with.
    pub fn get_status(&self) -> (r: u8)
        ensures
            r == system_common_status(*self),
    {
        match self {
            Self::SongPositionPointer { .. } => 0xf2,
            Self::SongSelect { .. } => 0xf3,
            Self::TuneRequest => 0xf6,
            Self::EndOfExclusive => 0xf7,
        }
    }
}

/// The status byte of a system real-time message.
pub open spec fn system_realtime_status(m: SystemRealTimeMessage) -> u8 {
    match m {
        SystemRealTimeMessage::TimingClock => 0xf8u8,
        SystemRealTimeMessage::Start => 0xfau8,
        SystemRealTimeMessage::Continue => 0xfbu8,
        SystemRealTimeMessage::Stop => 0xfcu8,
        SystemRealTimeMessage::ActiveSensing => 0xfeu8,
        SystemRealTimeMessage::SystemReset => 0xffu8,
    }
}

/// The full encoding of a system real-time message: the status byte alone.
pub open spec fn system_realtime_bytes(m: SystemRealTimeMessage) -> Seq<u8> {
    seq![system_realtime_status(m)]
}

/// What decoding a system real-time message under `status` yields; none
/// consumes data bytes.
pub open spec fn system_realtime_parse(pos: int, status: u8) -> Result<
    (SystemRealTimeMessage, int),
    CodecError,
>
    recommends
        status >> 4 == 0xf,
{
    let kind = status & 0x0f;
    if kind == 0x8 {
        Ok((SystemRealTimeMessage::TimingClock, pos))
    } else if kind == 0xa {
        Ok((SystemRealTimeMessage::Start, pos))
    } else if kind == 0xb {
        Ok((SystemRealTimeMessage::Continue, pos))
    } else if kind == 0xc {
        Ok((SystemRealTimeMessage::Stop, pos))
    } else if kind == 0xe {
        Ok((SystemRealTimeMessage::ActiveSensing, pos))
    } else if kind == 0xf {
        Ok((SystemRealTimeMessage::SystemReset, pos))
    } else {
        Err(CodecError::InvalidSystemMessage)
    }
}

impl SystemRealTimeMessage {
    /// Decodes a system real-time message from its status byte alone.
    pub fn parse(pos: usize, status: u8) -> (r: Result<(Self, usize), CodecError>)
        requires
            status >> 4 == 0xf,
        ensures
            match system_realtime_parse(pos as int, status) {
                Ok((m, end)) => r matches Ok(p) && p.0 == m && p.1 == end,
                Err(e) => r matches Err(e2) && e2 == e,
            },
    {
        let kind: u8 = status & 0x0f;
        if kind == 0x8 {
            Ok((Self::TimingClock, pos))
        } else if kind == 0xa {
            Ok((Self::Start, pos))
        } else if kind == 0xb {
            Ok((Self::Continue, pos))
        } else if kind == 0xc {
            Ok((Self::Stop, pos))
        } else if kind == 0xe {
            Ok((Self::ActiveSensing, pos))
        } else if kind == 0xf {
            Ok((Self::SystemReset, pos))
        } else {
            Err(CodecError::InvalidSystemMessage)
        }
    }

    /// Encodes the message: its status byte alone.
    pub fn to_bytes(&self) -> (r: Vec<u8>)
        ensures
            r@ == system_realtime_bytes(*self),
    {
        let r: Vec<u8> = vec![self.get_status()];
        assert(r@ =~= system_realtime_bytes(*self));
        r
    }

    /// The status byte this message encodes with.
    pub fn get_status(&self) -> (r: u8)
        ensures
            r == system_realtime_status(*self),
    {
        match self {
            Self::TimingClock => 0xf8,
            Self::Start => 0xfa,
            Self::Continue => 0xfb,
            Self::Stop => 0xfc,
            Self::ActiveSensing => 0xfe,
            Self::SystemReset => 0xff,
        }
    }
}

/// The status byte of either kind of system message.
pub open spec fn system_status(m: SystemMessage) -> u8 {
    match m {
        SystemMessage::SystemCommonMessage(c) => system_common_status(c),
        SystemMessage::SystemRealTimeMessage(r) => system_realtime_status(r),
    }
}

/// The full encoding of either kind of system message.
pub open spec fn system_bytes(m: SystemMessage) -> Seq<u8> {
    match m {
        SystemMessage::SystemCommonMessage(c) => system_common_bytes(c),
        SystemMessage::SystemRealTimeMessage(r) => system_realtime_bytes(r),
    }
}

/// What decoding a system message under `status` yields: the low nibble
/// selects a common or real-time message; an unassigned nibble is
/// `InvalidSystemMessage`.
pub open spec fn system_parse(s: Seq<u8>, pos: int, status: u8) -> Result<
    (SystemMessage, int),
    CodecError,
>
    recommends
        status >> 4 == 0xf,
{
    let kind = status & 0x0f;
    if kind == 0x2 || kind == 0x3 || kind == 0x6 || kind == 0x7 {
        match system_common_parse(s, pos, status) {
            Err(e) => Err(e),
            Ok((m, end)) => Ok((SystemMessage::SystemCommonMessage(m), end)),
        }
    } else if kind == 0x8 || kind == 0xa || kind == 0xb || kind == 0xc || kind == 0xe || kind
        == 0xf {
        match system_realtime_parse(pos, status) {
            Err(e) => Err(e),
            Ok((m, end)) => Ok((SystemMessage::SystemRealTimeMessage(m), end)),
        }
    } else {
        Err(CodecError::InvalidSystemMessage)
    }
}

impl SystemMessage {
    /// Both kinds are well-formed under their own notion.
    pub open spec fn wf(self) -> bool {
        match self {
            SystemMessage::SystemCommonMessage(c) => c.wf(),
            SystemMessage::SystemRealTimeMessage(_) => true,
        }
    }

    /// Decides well-formedness at run time.
    pub fn check_wf(&self) -> (r: bool)
        ensures
            r == self.wf(),
    {
        match self {
            Self::SystemCommonMessage(m) => m.check_wf(),
            Self::SystemRealTimeMessage(_) => true,
        }
    }

    /// Decodes the data bytes of a system message whose status byte, already
    /// consumed, is `status`.
    pub fn parse(bytes: &[u8], pos: usize, status: u8) -> (r: Result<(Self, usize), CodecError>)
        requires
            status >> 4 == 0xf,
        ensures
            match system_parse(bytes@, pos as int, status) {
                Ok((m, end)) => r matches Ok(p) && p.0 == m && p.1 == end && pos <= end && (end
                    == pos || end <= bytes@.len()),
                Err(e) => r matches Err(e2) && e2 == e,
            },
    {
        let kind: u8 = status & 0x0f;
        if kind == 0x2 || kind == 0x3 || kind == 0x6 || kind == 0x7 {
            let (m, end) = SystemCommonMessage::parse(bytes, pos, status)?;
            Ok((Self::SystemCommonMessage(m), end))
        } else if kind == 0x8 || kind == 0xa || kind == 0xb || kind == 0xc || kind == 0xe || kind
            == 0xf {
            let (m, end) = SystemRealTimeMessage::parse(pos, status)?;
            Ok((Self::SystemRealTimeMessage(m), end))
        } else {
            Err(CodecError::InvalidSystemMessage)
        }
    }

    /// Encodes the message with its status byte.
    pub fn to_bytes(&self) -> (r: Vec<u8>)
        ensures
            r@ == system_bytes(*self),
    {
        match self {
            Self::SystemCommonMessage(m) => m.to_bytes(),
            Self::SystemRealTimeMessage(m) => m.to_bytes(),
        }
    }

    /// The status byte this message encodes with.
    pub fn get_status(&self) -> (r: u8)
        ensures
            r == system_status(*self),
    {
        match self {
            Self::SystemCommonMessage(m) => m.get_status(),
            Self::SystemRealTimeMessage(m) => m.get_status(),
        }
    }
}

// ------------------------------------------------------------------
// Any status-opened message
// ------------------------------------------------------------------

/// The status byte of any message.
pub open spec fn midi_message_status(m: MidiMessage) -> u8 {
    match m {
        MidiMessage::ChannelMessage(c) => channel_status(c),
        MidiMessage::SystemMessage(s) => system_status(s),
    }
}

/// The full encoding of any message.
pub open spec fn midi_message_bytes(m: MidiMessage) -> Seq<u8> {
    match m {
        MidiMessage::ChannelMessage(c) => channel_bytes(c),
        MidiMessage::SystemMessage(s) => system_bytes(s),
    }
}

/// What decoding the data bytes of any message under `status` yields: the
/// high nibble routes to the channel or system codec.
pub open spec fn midi_message_parse(s: Seq<u8>, pos: int, status: u8) -> Result<
    (MidiMessage, int),
    CodecError,
>
    recommends
        status >= 0x80,
{
    if status >> 4 <= 0xe {
        match channel_parse(s, pos, status) {
            Err(e) => Err(e),
            Ok((m, end)) => Ok((MidiMessage::ChannelMessage(m), end)),
        }
    } else {
        match system_parse(s, pos, status) {
            Err(e) => Err(e),
            Ok((m, end)) => Ok((MidiMessage::SystemMessage(m), end)),
        }
    }
}

impl MidiMessage {
    /// Both kinds are well-formed under their own notion.
    pub open spec fn wf(self) -> bool {
        match self {
            MidiMessage::ChannelMessage(c) => c.wf(),
            MidiMessage::SystemMessage(s) => s.wf(),
        }
    }

    /// Decides well-formedness at run time.
    pub fn check_wf(&self) -> (r: bool)
        ensures
            r == self.wf(),
    {
        match self {
            Self::ChannelMessage(m) => m.check_wf(),
            Self::SystemMessage(m) => m.check_wf(),
        }
    }

    /// Decodes the data bytes of a message whose status byte, already
    /// consumed, is `status`.
    pub fn parse(bytes: &[u8], pos: usize, status: u8) -> (r: Result<(Self, usize), CodecError>)
        requires
            status >= 0x80,
        ensures
            match midi_message_parse(bytes@, pos as int, status) {
                Ok((m, end)) => r matches Ok(p) && p.0 == m && p.1 == end && pos <= end && (end
                    == pos || end <= bytes@.len()),
                Err(e) => r matches Err(e2) && e2 == e,
            },
    {
        if status >> 4 <= 0xe {
            proof {
                assert(status >> 4 >= 0x8) by (bit_vector)
                    requires
                        status >= 0x80,
                ;
            }
            let (m, end) = ChannelMessage::parse(bytes, pos, status)?;
            Ok((Self::ChannelMessage(m), end))
        } else {
            proof {
                assert(status >> 4 == 0xf) by (bit_vector)
                    requires
                        status >= 0x80 && !(status >> 4 <= 0xe),
                ;
            }
            let (m, end) = SystemMessage::parse(bytes, pos, status)?;
            Ok((Self::SystemMessage(m), end))
        }
    }

    /// Encodes the message with its status byte.
    pub fn to_bytes(&self) -> (r: Vec<u8>)
        ensures
            r@ == midi_message_bytes(*self),
    {
        match self {
            Self::ChannelMessage(m) => m.to_bytes(),
            Self::SystemMessage(m) => m.to_bytes(),
        }
    }

    /// The status byte this message encodes with.
    pub fn get_status(&self) -> (r: u8)
        ensures
            r == midi_message_status(*self),
    {
        match self {
            Self::ChannelMessage(m) => m.get_status(),
            Self::SystemMessage(m) => m.get_status(),
        }
    }
}

// ------------------------------------------------------------------
// Round-trip lemmas
// ------------------------------------------------------------------

/// How a status byte built from a constant kind nibble and a channel splits
/// back into its parts, and where it lies among the byte values.
pub proof fn lemma_channel_status_parts(ch: u8)
    requires
        ch <= 0x0f,
    ensures
        (0x80u8 | ch) >> 4 == 0x8 && (0x80u8 | ch) & 0x0f == ch && 0x80 <= (0x80u8 | ch) < 0x90,
        (0x90u8 | ch) >> 4 == 0x9 && (0x90u8 | ch) & 0x0f == ch && 0x90 <= (0x90u8 | ch) < 0xa0,
        (0xa0u8 | ch) >> 4 == 0xa && (0xa0u8 | ch) & 0x0f == ch && 0xa0 <= (0xa0u8 | ch) < 0xb0,
        (0xb0u8 | ch) >> 4 == 0xb && (0xb0u8 | ch) & 0x0f == ch && 0xb0 <= (0xb0u8 | ch) < 0xc0,
        (0xc0u8 | ch) >> 4 == 0xc && (0xc0u8 | ch) & 0x0f == ch && 0xc0 <= (0xc0u8 | ch) < 0xd0,
        (0xd0u8 | ch) >> 4 == 0xd && (0xd0u8 | ch) & 0x0f == ch && 0xd0 <= (0xd0u8 | ch) < 0xe0,
        (0xe0u8 | ch) >> 4 == 0xe && (0xe0u8 | ch) & 0x0f == ch && 0xe0 <= (0xe0u8 | ch) < 0xf0,
{
    assert((0x80u8 | ch) >> 4 == 0x8 && (0x80u8 | ch) & 0x0f == ch && 0x80 <= (0x80u8 | ch) < 0x90
        && (0x90u8 | ch) >> 4 == 0x9 && (0x90u8 | ch) & 0x0f == ch && 0x90 <= (0x90u8 | ch) < 0xa0
        && (0xa0u8 | ch) >> 4 == 0xa && (0xa0u8 | ch) & 0x0f == ch && 0xa0 <= (0xa0u8 | ch) < 0xb0
        && (0xb0u8 | ch) >> 4 == 0xb && (0xb0u8 | ch) & 0x0f == ch && 0xb0 <= (0xb0u8 | ch) < 0xc0
        && (0xc0u8 | ch) >> 4 == 0xc && (0xc0u8 | ch) & 0x0f == ch && 0xc0 <= (0xc0u8 | ch) < 0xd0
        && (0xd0u8 | ch) >> 4 == 0xd && (0xd0u8 | ch) & 0x0f == ch && 0xd0 <= (0xd0u8 | ch) < 0xe0
        && (0xe0u8 | ch) >> 4 == 0xe && (0xe0u8 | ch) & 0x0f == ch && 0xe0 <= (0xe0u8 | ch)
        < 0xf0) by (bit_vector)
        requires
            ch <= 0x0f,
    ;
}

/// The nibbles of the fixed system status bytes.
proof fn lemma_system_status_parts()
    ensures
        0xf2u8 >> 4 == 0xf && 0xf2u8 & 0x0f == 0x2,
        0xf3u8 >> 4 == 0xf && 0xf3u8 & 0x0f == 0x3,
        0xf6u8 >> 4 == 0xf && 0xf6u8 & 0x0f == 0x6,
        0xf7u8 >> 4 == 0xf && 0xf7u8 & 0x0f == 0x7,
        0xf8u8 >> 4 == 0xf && 0xf8u8 & 0x0f == 0x8,
        0xfau8 >> 4 == 0xf && 0xfau8 & 0x0f == 0xa,
        0xfbu8 >> 4 == 0xf && 0xfbu8 & 0x0f == 0xb,
        0xfcu8 >> 4 == 0xf && 0xfcu8 & 0x0f == 0xc,
        0xfeu8 >> 4 == 0xf && 0xfeu8 & 0x0f == 0xe,
        0xffu8 >> 4 == 0xf && 0xffu8 & 0x0f == 0xf,
{
    assert(0xf2u8 >> 4 == 0xf && 0xf2u8 & 0x0f == 0x2 && 0xf3u8 >> 4 == 0xf && 0xf3u8 & 0x0f == 0x3
        && 0xf6u8 >> 4 == 0xf && 0xf6u8 & 0x0f == 0x6 && 0xf7u8 >> 4 == 0xf && 0xf7u8 & 0x0f == 0x7
        && 0xf8u8 >> 4 == 0xf && 0xf8u8 & 0x0f == 0x8 && 0xfau8 >> 4 == 0xf && 0xfau8 & 0x0f == 0xa
        && 0xfbu8 >> 4 == 0xf && 0xfbu8 & 0x0f == 0xb && 0xfcu8 >> 4 == 0xf && 0xfcu8 & 0x0f == 0xc
        && 0xfeu8 >> 4 == 0xf && 0xfeu8 & 0x0f == 0xe && 0xffu8 >> 4 == 0xf && 0xffu8 & 0x0f
        == 0xf) by (bit_vector);
}

/// A 14-bit value split into two seven-bit bytes reassembles to itself.
proof fn lemma_fourteen_bit_split(v: u16)
    requires
        v <= 0x3fff,
    ensures
        ((v & 0x7f) as u8) < 0x80,
        ((v >> 7) as u8) < 0x80,
        (((v >> 7) & 0x7f) as u8) < 0x80,
        (((((v >> 7) as u8) as u16) << 7) | (((v & 0x7f) as u8) as u16)) == v,
        (((((v >> 7) & 0x7f) as u8 as u16) << 7) | (((v & 0x7f) as u8) as u16)) == v,
{
    assert(((v & 0x7f) as u8) < 0x80 && ((v >> 7) as u8) < 0x80 && (((v >> 7) & 0x7f) as u8) < 0x80 && ((
    (((v >> 7) as u8) as u16) << 7) | (((v & 0x7f) as u8) as u16)) == v && (((((v >> 7)
        & 0x7f) as u8 as u16) << 7) | (((v & 0x7f) as u8) as u16)) == v) by (bit_vector)
        requires
            v <= 0x3fff,
    ;
}

/// Decoding the data bytes of a voice message under its own status yields it
/// back, whatever bytes follow.
#[verifier::rlimit(100)]
#[verifier::spinoff_prover]
pub proof fn lemma_voice_round_trip(pre: Seq<u8>, v: ChannelVoiceMessage, tail: Seq<u8>)
    requires
        v.wf(),
    ensures
        voice_parse(pre + voice_data_bytes(v) + tail, pre.len() as int, voice_status(v))
            == Ok::<_, CodecError>((v, pre.len() + voice_data_bytes(v).len() as int)),
{
    let s = pre + voice_data_bytes(v) + tail;
    let b = pre.len() as int;
    assert forall|i: int| 0 <= i < voice_data_bytes(v).len() implies s[b + i] == voice_data_bytes(
        v,
    )[i] by {
        assert((pre + voice_data_bytes(v))[b + i] == voice_data_bytes(v)[i]);
    }
    match v {
        ChannelVoiceMessage::NoteOff { channel, note, velocity } => {
            lemma_channel_status_parts(channel);
        },
        ChannelVoiceMessage::NoteOn { channel, note, velocity } => {
            lemma_channel_status_parts(channel);
        },
        ChannelVoiceMessage::PolyphonicKeyPressure { channel, note, pressure } => {
            lemma_channel_status_parts(channel);
        },
        ChannelVoiceMessage::ControlChange { channel, controller, value } => {
            lemma_channel_status_parts(channel);
        },
        ChannelVoiceMessage::ProgramChange { channel, program } => {
            lemma_channel_status_parts(channel);
        },
        ChannelVoiceMessage::ChannelPressure { channel, pressure } => {
            lemma_channel_status_parts(channel);
        },
        ChannelVoiceMessage::PitchBendChange { channel, value } => {
            lemma_channel_status_parts(channel);
            lemma_fourteen_bit_split(value);
        },
    }
}

/// Decoding the two data bytes of a mode message yields it back, whatever
/// bytes follow.
pub proof fn lemma_mode_round_trip(pre: Seq<u8>, m: ModeMessage, tail: Seq<u8>)
    requires
        m.wf(),
    ensures
        mode_parse(pre + mode_data_bytes(m) + tail, pre.len() as int) == Ok::<_, CodecError>(
            (m, pre.len() + 2int),
        ),
{
    let s = pre + mode_data_bytes(m) + tail;
    let b = pre.len() as int;
    assert forall|i: int| 0 <= i < 2 implies s[b + i] == mode_data_bytes(m)[i] by {
        assert((pre + mode_data_bytes(m))[b + i] == mode_data_bytes(m)[i]);
    }
}

/// Decoding the data bytes of a channel message under its own status yields
/// it back, whatever bytes follow.
#[verifier::rlimit(100)]
#[verifier::spinoff_prover]
pub proof fn lemma_channel_round_trip(pre: Seq<u8>, c: ChannelMessage, tail: Seq<u8>)
    requires
        c.wf(),
    ensures
        channel_parse(pre + channel_data_bytes(c) + tail, pre.len() as int, channel_status(c))
            == Ok::<_, CodecError>((c, pre.len() + channel_data_bytes(c).len() as int)),
{
    let s = pre + channel_data_bytes(c) + tail;
    let b = pre.len() as int;
    match c {
        ChannelMessage::ChannelVoiceMessage(v) => {
            lemma_voice_round_trip(pre, v, tail);
            match v {
                ChannelVoiceMessage::ControlChange { channel, controller, value } => {
                    lemma_channel_status_parts(channel);
                    assert(s[b] == controller) by {
                        assert((pre + voice_data_bytes(v))[b] == voice_data_bytes(v)[0]);
                    }
                },
                ChannelVoiceMessage::NoteOff { channel, .. } => {
                    lemma_channel_status_parts(channel);
                },
                ChannelVoiceMessage::NoteOn { channel, .. } => {
                    lemma_channel_status_parts(channel);
                },
                ChannelVoiceMessage::PolyphonicKeyPressure { channel, .. } => {
                    lemma_channel_status_parts(channel);
                },
                ChannelVoiceMessage::ProgramChange { channel, .. } => {
                    lemma_channel_status_parts(channel);
                },
                ChannelVoiceMessage::ChannelPressure { channel, .. } => {
                    lemma_channel_status_parts(channel);
                },
                ChannelVoiceMessage::PitchBendChange { channel, .. } => {
                    lemma_channel_status_parts(channel);
                },
            }
        },
        ChannelMessage::ChannelModeMessage(cm) => {
            lemma_channel_status_parts(cm.channel);
            lemma_mode_round_trip(pre, cm.message, tail);
            assert(s[b] == mode_data_bytes(cm.message)[0]) by {
                assert((pre + mode_data_bytes(cm.message))[b] == mode_data_bytes(cm.message)[0]);
            }
        },
    }
}

/// Decoding the data bytes of a system message under its own status yields
/// it back, whatever bytes follow.
#[verifier::rlimit(100)]
#[verifier::spinoff_prover]
pub proof fn lemma_system_round_trip(pre: Seq<u8>, m: SystemMessage, tail: Seq<u8>)
    requires
        m.wf(),
    ensures
        system_parse(pre + system_bytes(m).drop_first() + tail, pre.len() as int, system_status(m))
            == Ok::<_, CodecError>((m, pre.len() + system_bytes(m).len() - 1)),
{
    let data = system_bytes(m).drop_first();
    let s = pre + data + tail;
    let b = pre.len() as int;
    lemma_system_status_parts();
    assert forall|i: int| 0 <= i < data.len() implies s[b + i] == data[i] by {
        assert((pre + data)[b + i] == data[i]);
    }
    match m {
        SystemMessage::SystemCommonMessage(cm) => match cm {
            SystemCommonMessage::SongPositionPointer { value } => {
                lemma_fourteen_bit_split(value);
                assert(data =~= seq![(value & 0x7f) as u8, ((value >> 7) & 0x7f) as u8]);
            },
            SystemCommonMessage::SongSelect { song } => {
                assert(data =~= seq![song]);
            },
            SystemCommonMessage::TuneRequest => {
                assert(data =~= Seq::<u8>::empty());
            },
            SystemCommonMessage::EndOfExclusive => {
                assert(data =~= Seq::<u8>::empty());
            },
        },
        SystemMessage::SystemRealTimeMessage(rt) => {
            assert(data =~= Seq::<u8>::empty());
        },
    }
}

/// Decoding the data bytes of any message under its own status yields it
/// back, whatever bytes follow.
#[verifier::rlimit(100)]
#[verifier::spinoff_prover]
pub proof fn lemma_midi_message_round_trip(pre: Seq<u8>, m: MidiMessage, tail: Seq<u8>)
    requires
        m.wf(),
    ensures
        midi_message_parse(
            pre + midi_message_bytes(m).drop_first() + tail,
            pre.len() as int,
            midi_message_status(m),
        ) == Ok::<_, CodecError>((m, pre.len() + midi_message_bytes(m).len() - 1)),
        midi_message_bytes(m)[0] == midi_message_status(m),
        midi_message_bytes(m).len() >= 1,
{
    match m {
        MidiMessage::ChannelMessage(c) => {
            lemma_channel_round_trip(pre, c, tail);
            match c {
                ChannelMessage::ChannelVoiceMessage(v) => {
                    match v {
                        ChannelVoiceMessage::NoteOff { channel, .. } => {
                            lemma_channel_status_parts(channel);
                        },
                        ChannelVoiceMessage::NoteOn { channel, .. } => {
                            lemma_channel_status_parts(channel);
                        },
                        ChannelVoiceMessage::PolyphonicKeyPressure { channel, .. } => {
                            lemma_channel_status_parts(channel);
                        },
                        ChannelVoiceMessage::ControlChange { channel, .. } => {
                            lemma_channel_status_parts(channel);
                        },
                        ChannelVoiceMessage::ProgramChange { channel, .. } => {
                            lemma_channel_status_parts(channel);
                        },
                        ChannelVoiceMessage::ChannelPressure { channel, .. } => {
                            lemma_channel_status_parts(channel);
                        },
                        ChannelVoiceMessage::PitchBendChange { channel, .. } => {
                            lemma_channel_status_parts(channel);
                        },
                    }
                    assert(voice_bytes(v).drop_first() =~= voice_data_bytes(v));
                },
                ChannelMessage::ChannelModeMessage(cm) => {
                    lemma_channel_status_parts(cm.channel);
                    assert(channel_mode_bytes(cm).drop_first() =~= mode_data_bytes(cm.message));
                },
            }
        },
        MidiMessage::SystemMessage(sm) => {
            lemma_system_round_trip(pre, sm, tail);
            lemma_system_status_parts();
            assert(system_bytes(sm)[0] == system_status(sm));
        },
    }
}

/// Where a well-formed message's status byte lies: always with the high bit
/// set, and below 0xF0 for a channel message.
pub proof fn lemma_midi_message_status_range(m: MidiMessage)
    requires
        m.wf(),
    ensures
        midi_message_status(m) >= 0x80,
        m matches MidiMessage::ChannelMessage(_) ==> midi_message_status(m) < 0xf0,
{
    match m {
        MidiMessage::ChannelMessage(c) => match c {
            ChannelMessage::ChannelVoiceMessage(v) => match v {
                ChannelVoiceMessage::NoteOff { channel, .. } => lemma_channel_status_parts(channel),
                ChannelVoiceMessage::NoteOn { channel, .. } => lemma_channel_status_parts(channel),
                ChannelVoiceMessage::PolyphonicKeyPressure { channel, .. } => {
                    lemma_channel_status_parts(channel)
                },
                ChannelVoiceMessage::ControlChange { channel, .. } => lemma_channel_status_parts(
                    channel,
                ),
                ChannelVoiceMessage::ProgramChange { channel, .. } => lemma_channel_status_parts(
                    channel,
                ),
                ChannelVoiceMessage::ChannelPressure { channel, .. } => lemma_channel_status_parts(
                    channel,
                ),
                ChannelVoiceMessage::PitchBendChange { channel, .. } => lemma_channel_status_parts(
                    channel,
                ),
            },
            ChannelMessage::ChannelModeMessage(cm) => lemma_channel_status_parts(cm.channel),
        },
        MidiMessage::SystemMessage(_) => {},
    }
}

} // verus!
