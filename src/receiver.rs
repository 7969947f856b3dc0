//! Lifecycle decisions of the audio duplex engine: how bringing up the
//! stream can fail, which failures end the session, and the order in which
//! the engine is torn down. The sample processing itself runs outside the
//! library, on the audio subsystem's thread.
use vstd::prelude::*;
use crate::cat::ProtocolError;

verus! {

/// Why an operation of the audio engine failed.
#[derive(Debug, Clone, Copy, PartialEq, Eq, Structural)]
pub enum AudioError {
    /// The device rejected the stream configuration; the caller may retry
    /// with other settings.
    OpenFailed,
    /// The stream opened but would not start; the audio session is over.
    StartFailed,
    /// A frequency change failed in the CAT protocol.
    ControlFailed(ProtocolError),
}

impl AudioError {
    /// Whether the failure ends the audio session.
    pub fn is_fatal(&self) -> (r: bool)
        ensures
            r == (*self == AudioError::StartFailed),
    {
        match self {
            AudioError::StartFailed => true,
            _ => false,
        }
    }
}

/// One step of tearing the engine down.
#[derive(Debug, Clone, Copy, PartialEq, Eq, Structural)]
pub enum TeardownStep {
    /// Stop the hardware callback, before any state it reads is released.
    StopStream,
    /// Raise the terminate flag that background tasks poll.
    SignalTerminate,
    /// Wait for the background tasks to finish.
    JoinTasks,
    /// Flush and close the serial link.
    FlushSerial,
}

/// The teardown order; stopping a stream that never started is skipped.
pub open spec fn teardown_order(stream_running: bool) -> Seq<TeardownStep> {
    let rest = seq![TeardownStep::SignalTerminate, TeardownStep::JoinTasks, TeardownStep::FlushSerial];
    if stream_running {
        seq![TeardownStep::StopStream] + rest
    } else {
        rest
    }
}

/// The result of bringing up the duplex stream, from whether the device
/// accepted the configuration and whether the opened stream started.
pub fn start_outcome(opened: bool, started: bool) -> (r: Result<(), AudioError>)
    ensures
        r == (if !opened {
            Err(AudioError::OpenFailed)
        } else if !started {
            Err(AudioError::StartFailed)
        } else {
            Ok(())
        }),
{
    if !opened {
        Err(AudioError::OpenFailed)
    } else if !started {
        Err(AudioError::StartFailed)
    } else {
        Ok(())
    }
}

/// The steps that tear the engine down, in the order they must run.
pub fn teardown_steps(stream_running: bool) -> (r: Vec<TeardownStep>)
    ensures
        r@ == teardown_order(stream_running),
{
    let mut r: Vec<TeardownStep> = Vec::new();
    if stream_running {
        r.push(TeardownStep::StopStream);
    }
    r.push(TeardownStep::SignalTerminate);
    r.push(TeardownStep::JoinTasks);
    r.push(TeardownStep::FlushSerial);
    assert(r@ =~= teardown_order(stream_running));
    r
}

/// The hardware callback is always stopped first, and only when it runs;
/// the serial link is always flushed last.
pub proof fn teardown_stops_audio_first(stream_running: bool)
    ensures
        teardown_order(stream_running).last() == TeardownStep::FlushSerial,
        stream_running <==> teardown_order(stream_running).contains(TeardownStep::StopStream),
        stream_running ==> teardown_order(stream_running)[0] == TeardownStep::StopStream,
{
    let s = teardown_order(stream_running);
    if !stream_running {
        assert(!s.contains(TeardownStep::StopStream)) by {
            assert forall|i: int| 0 <= i < s.len() implies s[i] != TeardownStep::StopStream by {}
        }
    } else {
        assert(s[0] == TeardownStep::StopStream);
    }
}

} // verus!
