//! Decoding of raw control-change frames and the capture-connection
//! startup state machine.

use vstd::prelude::*;

verus! {

/// Low nibble of a status byte: the channel.
pub const MIDI_CHANMASK: u8 = 0x0F;

/// Everything that can go wrong on the capture path, plus the two decode
/// failures and the catastrophic worker-thread death.
#[derive(Debug, Clone, Copy, PartialEq, Eq)]
pub enum Error {
    SourceNotFound,
    ClientCannotBeCreated,
    SourceNotConnected,
    NotEnoughBytes,
    NotCCPacket,
    InputPortCannotBeCreated,
    ConnectionThreadFailure,
}

/// One decoded control-change event.
#[derive(Debug, Clone, Copy, PartialEq, Eq)]
pub struct CCPacket {
    pub channel: u8,
    pub cc_num: u8,
    pub val: u8,
}

/// What decoding a raw frame yields: a frame shorter than three bytes is
/// `NotEnoughBytes`; one whose status high nibble is not `0xB` is
/// `NotCCPacket`; otherwise the low nibble of the status byte is the
/// channel, the second byte the controller number, the third the value.
pub open spec fn decode_spec(bytes: Seq<u8>) -> Result<CCPacket, Error> {
    if bytes.len() < 3 {
        Err(Error::NotEnoughBytes)
    } else if bytes[0] >> 4 != 0xB {
        Err(Error::NotCCPacket)
    } else {
        Ok(CCPacket { channel: bytes[0] & MIDI_CHANMASK, cc_num: bytes[1], val: bytes[2] })
    }
}

impl CCPacket {
    /// Decode one raw frame.
    pub fn try_from(value: &[u8]) -> (r: Result<CCPacket, Error>)
        ensures
            r == decode_spec(value@),
    {
        if value.len() < 3 {
            return Err(Error::NotEnoughBytes);
        }

        let b0: u8 = value[0];
        if b0 >> 4 != 0xB {
            return Err(Error::NotCCPacket);
        }

        Ok(CCPacket { channel: b0 & MIDI_CHANMASK, cc_num: value[1], val: value[2] })
    }
}

/// Decoding, case by case: a frame of three or more bytes whose status
/// high nibble is `0xB` yields the event `{channel: bytes[0] & 0xF,
/// cc_num: bytes[1], val: bytes[2]}`; a shorter frame fails with
/// `NotEnoughBytes`; any other status nibble fails with `NotCCPacket`.
pub proof fn lemma_decode(bytes: Seq<u8>)
    ensures
        bytes.len() < 3 ==> decode_spec(bytes) == Err::<CCPacket, Error>(Error::NotEnoughBytes),
        bytes.len() >= 3 && bytes[0] >> 4 != 0xB ==> decode_spec(bytes) == Err::<CCPacket, Error>(
            Error::NotCCPacket,
        ),
        bytes.len() >= 3 && bytes[0] >> 4 == 0xB ==> decode_spec(bytes) == Ok::<CCPacket, Error>(
            (CCPacket { channel: bytes[0] & MIDI_CHANMASK, cc_num: bytes[1], val: bytes[2] }),
        ),
{
}

/// Where a capture worker stands while it registers with the native
/// capture API. The worker walks `CreatingClient → ResolvingSource →
/// OpeningPort → Connecting → Listening`, one native call per stage, and
/// the first failing call sends it to `Failed` with that stage's error.
#[derive(Debug, Clone, Copy, PartialEq, Eq)]
pub enum ConnectPhase {
    CreatingClient,
    ResolvingSource,
    OpeningPort,
    Connecting,
    Listening,
    Failed(Error),
}

/// The phase a worker moves to when the current stage's native call
/// succeeds (`ok`) or fails. `Listening` and `Failed` are terminal.
pub open spec fn connect_step_spec(phase: ConnectPhase, ok: bool) -> ConnectPhase {
    match phase {
        ConnectPhase::CreatingClient => if ok {
            ConnectPhase::ResolvingSource
        } else {
            ConnectPhase::Failed(Error::ClientCannotBeCreated)
        },
        ConnectPhase::ResolvingSource => if ok {
            ConnectPhase::OpeningPort
        } else {
            ConnectPhase::Failed(Error::SourceNotFound)
        },
        ConnectPhase::OpeningPort => if ok {
            ConnectPhase::Connecting
        } else {
            ConnectPhase::Failed(Error::InputPortCannotBeCreated)
        },
        ConnectPhase::Connecting => if ok {
            ConnectPhase::Listening
        } else {
            ConnectPhase::Failed(Error::SourceNotConnected)
        },
        ConnectPhase::Listening => ConnectPhase::Listening,
        ConnectPhase::Failed(e) => ConnectPhase::Failed(e),
    }
}

/// The error a worker must surface on its event channel before it exits,
/// if its startup has failed: exactly the `Failed` payload.
pub open spec fn connect_failure(phase: ConnectPhase) -> Option<Error> {
    match phase {
        ConnectPhase::Failed(e) => Some(e),
        _ => None,
    }
}

/// Advance the startup state machine by the outcome of one native call.
pub fn connect_step(phase: ConnectPhase, ok: bool) -> (next: ConnectPhase)
    ensures
        next == connect_step_spec(phase, ok),
{
    match phase {
        ConnectPhase::CreatingClient => if ok {
            ConnectPhase::ResolvingSource
        } else {
            ConnectPhase::Failed(Error::ClientCannotBeCreated)
        },
        ConnectPhase::ResolvingSource => if ok {
            ConnectPhase::OpeningPort
        } else {
            ConnectPhase::Failed(Error::SourceNotFound)
        },
        ConnectPhase::OpeningPort => if ok {
            ConnectPhase::Connecting
        } else {
            ConnectPhase::Failed(Error::InputPortCannotBeCreated)
        },
        ConnectPhase::Connecting => if ok {
            ConnectPhase::Listening
        } else {
            ConnectPhase::Failed(Error::SourceNotConnected)
        },
        ConnectPhase::Listening => ConnectPhase::Listening,
        ConnectPhase::Failed(e) => ConnectPhase::Failed(e),
    }
}

/// Report which failure, if any, the startup has hit so far.
pub fn connect_phase_failure(phase: ConnectPhase) -> (r: Option<Error>)
    ensures
        r == connect_failure(phase),
{
    match phase {
        ConnectPhase::Failed(e) => Some(e),
        _ => None,
    }
}

} // verus!
