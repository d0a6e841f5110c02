//! Bridges MIDI continuous-controller events to an output level.
//!
//! The library holds the verified core: decoding raw control-change frames,
//! mapping controller values to output levels, and the serialized command
//! actor that owns the runtime configuration. Threads, channels and the
//! native capture and actuation calls live outside the library and drive
//! these functions.

use vstd::prelude::*;

pub mod midi;
pub mod vol;

verus! {

/// A copy of the runtime configuration, handed out on query.
#[derive(Debug, Clone, Copy, PartialEq, Eq)]
pub struct Settings {
    pub channel: u8,
    pub cc_num: u8,
    /// Actuator flush interval in milliseconds.
    pub vol_sample_time: u64,
    pub source_index: usize,
}

/// One message for the command actor. Every mutation and every query of
/// the runtime configuration travels through this type, so the actor can
/// process commands strictly one at a time.
///
/// A `Packet` carries the epoch of the worker that produced it (the value
/// the worker was started with, see [`Action::StartWorker`]); the actor
/// discards packets whose epoch is not the current one, so an in-flight
/// event from an already-retired worker can never be applied against a
/// newer configuration.
#[derive(Debug, Clone, Copy)]
pub enum Command {
    Packet(u64, Result<midi::CCPacket, midi::Error>),
    /// New actuator flush interval in milliseconds.
    SetSleepTime(u64),
    SetChannel(u8),
    SetCCNum(u8),
    SetSourceIndex(usize),
    Start,
    Stop,
    GetState,
    GetStatus,
}

/// The state the command actor owns exclusively: the runtime
/// configuration, the last capture-path error, and the epoch of the most
/// recently started worker.
#[derive(Debug, Clone, Copy, PartialEq, Eq)]
pub struct ActorState {
    pub channel: u8,
    pub cc_num: u8,
    pub source_index: usize,
    /// Actuator flush interval in milliseconds.
    pub vol_sample_time: u64,
    pub error: Option<midi::Error>,
    /// Epoch handed to the most recently started worker; packets tagged
    /// with any other epoch are stale and discarded.
    pub epoch: u64,
}

/// What the surrounding machinery must do after one actor step. The actor
/// itself never blocks on the capture API or the output sink; it only
/// instructs.
#[derive(Debug, Clone, Copy, PartialEq, Eq)]
pub enum Action {
    Nothing,
    /// Hand this level, in tenths, to the actuator's shared target cell.
    SetVolume(u8),
    /// Hand this flush interval, in milliseconds, to the actuator.
    SetSleepTime(u64),
    /// Retire the live worker, if any, then start a fresh one against
    /// this source index, tagging its packets with this epoch.
    StartWorker(usize, u64),
    /// Retire the live worker, if any, and start none.
    StopWorker,
    /// Answer a `GetState` query with this snapshot.
    ReplySettings(Settings),
    /// Answer a `GetStatus` query with the last capture-path error.
    ReplyStatus(Option<midi::Error>),
}

/// Whether a decoded event is addressed at the configured channel and
/// controller number.
pub open spec fn packet_matches(s: ActorState, p: midi::CCPacket) -> bool {
    p.channel == s.channel && p.cc_num == s.cc_num
}

/// The snapshot that a `GetState` query is answered with: every field
/// read from the one state `s`, so the copy is internally consistent.
pub open spec fn settings_of(s: ActorState) -> Settings {
    Settings {
        channel: s.channel,
        cc_num: s.cc_num,
        vol_sample_time: s.vol_sample_time,
        source_index: s.source_index,
    }
}

/// The actor's state after processing one command.
pub open spec fn step_state(s: ActorState, cmd: Command) -> ActorState {
    match cmd {
        Command::Packet(ep, r) => if ep == s.epoch {
            match r {
                Ok(_) => ActorState { error: None, ..s },
                Err(e) => ActorState { error: Some(e), ..s },
            }
        } else {
            s
        },
        Command::SetSleepTime(ms) => ActorState { vol_sample_time: ms, ..s },
        Command::SetChannel(c) => ActorState { channel: c, ..s },
        Command::SetCCNum(n) => ActorState { cc_num: n, ..s },
        Command::SetSourceIndex(i) => ActorState { source_index: i, epoch: (s.epoch + 1) as u64, ..s },
        Command::Start => ActorState { epoch: (s.epoch + 1) as u64, ..s },
        Command::Stop => ActorState { epoch: (s.epoch + 1) as u64, ..s },
        Command::GetState => s,
        Command::GetStatus => s,
    }
}

/// The instruction the actor issues while processing one command.
pub open spec fn step_action(s: ActorState, cmd: Command) -> Action {
    match cmd {
        Command::Packet(ep, r) => match r {
            Ok(p) => if ep == s.epoch && packet_matches(s, p) {
                Action::SetVolume(vol::vol_tenths_spec(p.val as int) as u8)
            } else {
                Action::Nothing
            },
            Err(_) => Action::Nothing,
        },
        Command::SetSleepTime(ms) => Action::SetSleepTime(ms),
        Command::SetChannel(_) => Action::Nothing,
        Command::SetCCNum(_) => Action::Nothing,
        Command::SetSourceIndex(i) => Action::StartWorker(i, (s.epoch + 1) as u64),
        Command::Start => Action::StartWorker(s.source_index, (s.epoch + 1) as u64),
        Command::Stop => Action::StopWorker,
        Command::GetState => Action::ReplySettings(settings_of(s)),
        Command::GetStatus => Action::ReplyStatus(s.error),
    }
}

impl ActorState {
    /// The configuration the actor starts with.
    pub fn init() -> (s: ActorState)
        ensures
            s == (ActorState {
                channel: 1,
                cc_num: 0x3E,
                source_index: 0,
                vol_sample_time: 100,
                error: None,
                epoch: 0,
            }),
    {
        ActorState {
            channel: 1,
            cc_num: 0x3E,
            source_index: 0,
            vol_sample_time: 100,
            error: None,
            epoch: 0,
        }
    }
}

/// An event whose channel or controller number does not match the
/// current configuration, or whose worker has been retired, never
/// touches the output target, and changes nothing but the recorded
/// status.
pub proof fn lemma_nonmatching_packet_ignored(s: ActorState, ep: u64, p: midi::CCPacket)
    requires
        ep != s.epoch || !packet_matches(s, p),
    ensures
        step_action(s, Command::Packet(ep, Ok(p))) == Action::Nothing,
        settings_of(step_state(s, Command::Packet(ep, Ok(p)))) == settings_of(s),
{
}

/// A capture-path error only records status: it never touches the output
/// target or the configuration.
pub proof fn lemma_error_packet_ignored(s: ActorState, ep: u64, e: midi::Error)
    ensures
        step_action(s, Command::Packet(ep, Err(e))) == Action::Nothing,
        settings_of(step_state(s, Command::Packet(ep, Err(e)))) == settings_of(s),
        ep == s.epoch ==> step_state(s, Command::Packet(ep, Err(e))).error == Some(e),
{
}

/// `SetChannel` takes effect on the next event: an event on the new
/// channel updates the output target after the switch, while the same
/// event arriving before the switch (against a different old channel)
/// does not.
pub proof fn lemma_set_channel_takes_effect(s: ActorState, c: u8, ep: u64, p: midi::CCPacket)
    requires
        ep == s.epoch,
        p.channel == c,
        p.cc_num == s.cc_num,
    ensures
        step_action(step_state(s, Command::SetChannel(c)), Command::Packet(ep, Ok(p)))
            == Action::SetVolume(vol::vol_tenths_spec(p.val as int) as u8),
        c != s.channel ==> step_action(s, Command::Packet(ep, Ok(p))) == Action::Nothing,
{
}

/// After two consecutive source switches, any packet tagged with an
/// epoch from before the second switch — in particular anything the
/// first switch's worker ever produced — is discarded outright.
pub proof fn lemma_stale_worker_discarded(
    s: ActorState,
    i1: usize,
    i2: usize,
    ep: u64,
    r: Result<midi::CCPacket, midi::Error>,
)
    requires
        s.epoch + 2 <= u64::MAX,
        ep <= step_state(s, Command::SetSourceIndex(i1)).epoch,
    ensures
        ({
            let s2 = step_state(step_state(s, Command::SetSourceIndex(i1)), Command::SetSourceIndex(i2));
            step_action(s2, Command::Packet(ep, r)) == Action::Nothing && step_state(
                s2,
                Command::Packet(ep, r),
            ) == s2
        }),
{
}

/// A `GetState` query is answered with a snapshot whose every field
/// comes from the one state the actor held while processing it — no
/// torn read is possible — and the query itself changes nothing.
pub proof fn lemma_snapshot_consistent(s: ActorState)
    ensures
        step_action(s, Command::GetState) == Action::ReplySettings(settings_of(s)),
        step_state(s, Command::GetState) == s,
        step_action(s, Command::GetStatus) == Action::ReplyStatus(s.error),
        step_state(s, Command::GetStatus) == s,
{
}

/// Process one command: update the actor's state and say what the
/// surrounding machinery must do. This is the only code path that mutates
/// the runtime configuration or the capture status.
pub fn step(state: &mut ActorState, cmd: Command) -> (a: Action)
    requires
        old(state).epoch < u64::MAX,
    ensures
        *final(state) == step_state(*old(state), cmd),
        a == step_action(*old(state), cmd),
{
    match cmd {
        Command::Packet(ep, r) => {
            if ep == state.epoch {
                match r {
                    Ok(p) => {
                        state.error = None;
                        if p.channel == state.channel && p.cc_num == state.cc_num {
                            Action::SetVolume(vol::vol_tenths(p.val))
                        } else {
                            Action::Nothing
                        }
                    },
                    Err(e) => {
                        state.error = Some(e);
                        Action::Nothing
                    },
                }
            } else {
                // A stale worker's in-flight event: neither status nor
                // output may move.
                Action::Nothing
            }
        },
        Command::SetSleepTime(ms) => {
            state.vol_sample_time = ms;
            Action::SetSleepTime(ms)
        },
        Command::SetChannel(c) => {
            state.channel = c;
            Action::Nothing
        },
        Command::SetCCNum(n) => {
            state.cc_num = n;
            Action::Nothing
        },
        Command::SetSourceIndex(i) => {
            state.source_index = i;
            state.epoch = state.epoch + 1;
            Action::StartWorker(i, state.epoch)
        },
        Command::Start => {
            state.epoch = state.epoch + 1;
            Action::StartWorker(state.source_index, state.epoch)
        },
        Command::Stop => {
            state.epoch = state.epoch + 1;
            Action::StopWorker
        },
        Command::GetState => Action::ReplySettings(
            Settings {
                channel: state.channel,
                cc_num: state.cc_num,
                vol_sample_time: state.vol_sample_time,
                source_index: state.source_index,
            },
        ),
        Command::GetStatus => Action::ReplyStatus(state.error),
    }
}

} // verus!
