//! The console bus protocol: command decoding, the byte-exact responses
//! each command is owed, and the framing of response bytes into serializer
//! words with an end-of-frame marker on the last byte.

use vstd::prelude::*;

verus! {

/// A decoded bus command byte.
#[derive(Clone, Copy, Debug, PartialEq, Eq, Structural)]
pub enum GamecubeCommand {
    Probe,
    Poll,
    Origin,
    Recalibrate,
    Reset,
    Unknown,
}

/// What each command byte decodes to: 0x00 probe, 0xFF reset, 0x41 origin,
/// 0x42 recalibrate, 0x40 poll; every other byte is unknown.
pub open spec fn spec_command(value: u8) -> GamecubeCommand {
    if value == 0x00 {
        GamecubeCommand::Probe
    } else if value == 0xFF {
        GamecubeCommand::Reset
    } else if value == 0x41 {
        GamecubeCommand::Origin
    } else if value == 0x42 {
        GamecubeCommand::Recalibrate
    } else if value == 0x40 {
        GamecubeCommand::Poll
    } else {
        GamecubeCommand::Unknown
    }
}

impl GamecubeCommand {
    /// Decode one received command byte.
    pub fn from(value: u8) -> (r: Self)
        ensures
            r == spec_command(value),
    {
        match value {
            0x00 => GamecubeCommand::Probe,
            0xFF => GamecubeCommand::Reset,
            0x41 => GamecubeCommand::Origin,
            0x42 => GamecubeCommand::Recalibrate,
            0x40 => GamecubeCommand::Poll,
            _ => GamecubeCommand::Unknown,
        }
    }
}

/// What the protocol loop does with a decoded command: send the 3-byte
/// identification, send the 10-byte neutral origin response, run the mapping
/// pipeline and send its 8-byte report, or wait and resynchronize the
/// receiver.
#[derive(Clone, Copy, Debug, PartialEq, Eq, Structural)]
pub enum BusAction {
    SendIdentification,
    SendOrigin,
    RespondToPoll,
    Resync,
}

/// The action each command is owed: probe and reset are answered with the
/// identification bytes, origin and recalibrate with the neutral origin
/// response, poll with the pipeline's report; an unknown command only
/// resynchronizes.
pub open spec fn spec_action(cmd: GamecubeCommand) -> BusAction {
    match cmd {
        GamecubeCommand::Probe => BusAction::SendIdentification,
        GamecubeCommand::Reset => BusAction::SendIdentification,
        GamecubeCommand::Origin => BusAction::SendOrigin,
        GamecubeCommand::Recalibrate => BusAction::SendOrigin,
        GamecubeCommand::Poll => BusAction::RespondToPoll,
        GamecubeCommand::Unknown => BusAction::Resync,
    }
}

/// Decide the steady-state transition for a received command, where a
/// receive timeout (`None`) routes to resynchronization like an unknown
/// command.
pub fn next_action(cmd: Option<u8>) -> (r: BusAction)
    ensures
        match cmd {
            Option::Some(value) => r == spec_action(spec_command(value)),
            Option::None => r == BusAction::Resync,
        },
{
    match cmd {
        Option::Some(value) => {
            match GamecubeCommand::from(value) {
                GamecubeCommand::Probe => BusAction::SendIdentification,
                GamecubeCommand::Reset => BusAction::SendIdentification,
                GamecubeCommand::Origin => BusAction::SendOrigin,
                GamecubeCommand::Recalibrate => BusAction::SendOrigin,
                GamecubeCommand::Poll => BusAction::RespondToPoll,
                GamecubeCommand::Unknown => BusAction::Resync,
            }
        }
        Option::None => BusAction::Resync,
    }
}

/// Decide the startup transition: a recognized first command behaves as in
/// steady state, but an unknown first command or a receive timeout reports
/// failure (`None`) so the caller can fall back to a non-console mode.
pub fn startup_action(cmd: Option<u8>) -> (r: Option<BusAction>)
    ensures
        r is None <==> (cmd is None || spec_command(cmd->0) is Unknown),
        match cmd {
            Option::Some(value) => spec_command(value) !is Unknown ==> r == Option::Some(
                spec_action(spec_command(value)),
            ),
            Option::None => r is None,
        },
{
    match cmd {
        Option::Some(value) => {
            match GamecubeCommand::from(value) {
                GamecubeCommand::Unknown => Option::None,
                _ => Option::Some(next_action(Option::Some(value))),
            }
        }
        Option::None => Option::None,
    }
}

/// The three identification bytes sent for probe and reset.
pub open spec fn spec_identification_bytes() -> Seq<u8> {
    seq![9u8, 0u8, 3u8]
}

/// The ten neutral bytes sent for origin and recalibrate: centered sticks,
/// released triggers, and two reserved zero bytes.
pub open spec fn spec_origin_bytes() -> Seq<u8> {
    seq![0u8, 1u8, 128u8, 128u8, 128u8, 128u8, 0u8, 0u8, 0u8, 0u8]
}

/// The identification response to a probe or reset command.
pub fn identification_response() -> (r: [u8; 3])
    ensures
        r@ == spec_identification_bytes(),
{
    let r: [u8; 3] = [9, 0, 3];
    proof {
        assert(r@ =~= spec_identification_bytes());
    }
    r
}

/// The neutral response to an origin or recalibrate command.
pub fn origin_response() -> (r: [u8; 10])
    ensures
        r@ == spec_origin_bytes(),
{
    let r: [u8; 10] = [
        0,  // buttons1
        1,  // buttons2
        128,  // stick x
        128,  // stick y
        128,  // cstick x
        128,  // cstick y
        0,  // left trigger
        0,  // right trigger
        0,  // reserved
        0,  // reserved
    ];
    proof {
        assert(r@ =~= spec_origin_bytes());
    }
    r
}

/// The serializer word for one response byte: the byte in the top eight
/// bits, and the end-of-frame marker bit below it, set exactly on the last
/// byte of the response.
pub open spec fn spec_frame_word(byte: u8, last: bool) -> u32 {
    ((byte as u32) << 24) | ((if last {
        1u32
    } else {
        0u32
    }) << 23)
}

/// The whole framed response: one word per byte, the end-of-frame marker
/// set on the last word only.
pub open spec fn spec_frame_seq(bytes: Seq<u8>) -> Seq<u32> {
    Seq::new(bytes.len(), |i: int| spec_frame_word(bytes[i], i == bytes.len() - 1))
}

/// Frame a whole response for the serializer: one word per byte, with the
/// end-of-frame marker set on the last word only.
pub fn frame_words(bytes: &[u8]) -> (words: Vec<u32>)
    ensures
        words@ == spec_frame_seq(bytes@),
{
    let n = bytes.len();
    let mut words: Vec<u32> = Vec::new();
    let mut i: usize = 0;
    while i < n
        invariant
            n == bytes@.len(),
            i <= n,
            words@.len() == i,
            forall|j: int|
                0 <= j < i ==> words@[j] == spec_frame_word(bytes@[j], j == n - 1),
        decreases n - i,
    {
        let stop: u32 = if i == n - 1 {
            1
        } else {
            0
        };
        let word: u32 = ((bytes[i] as u32) << 24) | (stop << 23);
        words.push(word);
        i = i + 1;
    }
    proof {
        assert(words@ =~= spec_frame_seq(bytes@));
    }
    words
}

/// The end-of-frame marker bit of a framed word.
pub open spec fn spec_marker_bit(word: u32) -> bool {
    (word >> 23) & 1 == 1
}

/// A framed response carries the end-of-frame marker on its last word and on
/// no other: the serializer sees exactly one end of frame per response.
pub proof fn lemma_marker_on_last_word_only(bytes: Seq<u8>)
    ensures
        forall|i: int|
            0 <= i < bytes.len() ==> (spec_marker_bit(#[trigger] spec_frame_seq(bytes)[i]) <==> i
                == bytes.len() - 1),
{
    assert forall|i: int| 0 <= i < bytes.len() implies (spec_marker_bit(
        spec_frame_seq(bytes)[i],
    ) <==> i == bytes.len() - 1) by {
        let b = bytes[i];
        assert(((((b as u32) << 24) | (1u32 << 23)) >> 23) & 1 == 1) by (bit_vector);
        assert(((((b as u32) << 24) | (0u32 << 23)) >> 23) & 1 == 0) by (bit_vector);
    }
}

/// A framed word always carries its response byte unchanged in the top
/// eight bits.
pub proof fn lemma_frame_word_keeps_byte(byte: u8, last: bool)
    ensures
        (spec_frame_word(byte, last) >> 24) & 0xFF == byte as u32,
{
    let b = byte;
    assert(((((b as u32) << 24) | (1u32 << 23)) >> 24) & 0xFF == b as u32) by (bit_vector);
    assert(((((b as u32) << 24) | (0u32 << 23)) >> 24) & 0xFF == b as u32) by (bit_vector);
}

} // verus!
