use vstd::prelude::*;

use crate::errors::ServiceError;

verus! {

/// Size of one read from the process's output pipe.
pub const CHUNK_SIZE: usize = 8192;

/// What a non-blocking wait on the process showed before a read.
#[derive(Debug, Clone, Copy, PartialEq, Eq, Structural)]
pub enum ExitCheck {
    /// Still running, or its state could not be read.
    Running,
    /// Exited with success.
    Succeeded,
    /// Exited with a failure status.
    Failed,
}

/// The result of one bounded read from the pipe.
#[derive(Debug, Clone)]
pub enum ReadOutcome {
    /// This many bytes were read; zero means the end of the output.
    Bytes(usize),
    /// The read failed.
    Error(String),
}

/// What to do on a pull, before reading.
#[derive(Debug, Clone)]
pub enum Pull {
    /// Read one chunk.
    Read,
    /// The stream has ended: yield nothing.
    Stop,
    /// Yield this error; the stream ends.
    Fail(ServiceError),
}

/// What a pull yields after its read.
#[derive(Debug, Clone)]
pub enum Delivery {
    /// The bytes read, as one chunk.
    Chunk(usize),
    /// The end of the stream.
    End,
    /// This error; the stream ends.
    Fail(ServiceError),
}

/// The life of one process-backed stream: whether it has ended, and whether
/// the process was told to terminate.
#[derive(Debug, Clone, Copy, PartialEq, Eq, Structural)]
pub struct StreamControl {
    pub finished: bool,
    pub kill_signaled: bool,
}

/// One call on a stream's control.
pub enum ControlEvent {
    BeginPull(ExitCheck),
    FinishPull(ReadOutcome),
    Teardown,
}

pub open spec fn after_begin(s: StreamControl, c: ExitCheck) -> StreamControl {
    if !s.finished && c == ExitCheck::Failed {
        StreamControl { finished: true, ..s }
    } else {
        s
    }
}

pub open spec fn ends_stream(o: ReadOutcome) -> bool {
    match o {
        ReadOutcome::Bytes(n) => n == 0,
        ReadOutcome::Error(_) => true,
    }
}

pub open spec fn after_finish(s: StreamControl, o: ReadOutcome) -> StreamControl {
    if ends_stream(o) {
        StreamControl { finished: true, ..s }
    } else {
        s
    }
}

pub open spec fn after_teardown(s: StreamControl) -> StreamControl {
    StreamControl { finished: true, kill_signaled: true }
}

pub open spec fn apply_event(s: StreamControl, e: ControlEvent) -> StreamControl {
    match e {
        ControlEvent::BeginPull(c) => after_begin(s, c),
        ControlEvent::FinishPull(o) => after_finish(s, o),
        ControlEvent::Teardown => after_teardown(s),
    }
}

/// Whether the event tells the process to terminate.
pub open spec fn signals_kill(s: StreamControl, e: ControlEvent) -> bool {
    e is Teardown && !s.kill_signaled
}

pub open spec fn run_events(s: StreamControl, es: Seq<ControlEvent>) -> StreamControl
    decreases es.len(),
{
    if es.len() == 0 {
        s
    } else {
        apply_event(run_events(s, es.drop_last()), es.last())
    }
}

/// How many times the process is told to terminate over `es`.
pub open spec fn kills_over(s: StreamControl, es: Seq<ControlEvent>) -> nat
    decreases es.len(),
{
    if es.len() == 0 {
        0
    } else {
        kills_over(s, es.drop_last()) + if signals_kill(run_events(s, es.drop_last()), es.last()) {
            1nat
        } else {
            0nat
        }
    }
}

pub open spec fn fresh_control() -> StreamControl {
    StreamControl { finished: false, kill_signaled: false }
}

proof fn lemma_kills_track_flag(es: Seq<ControlEvent>)
    ensures
        kills_over(fresh_control(), es) == if run_events(fresh_control(), es).kill_signaled {
            1nat
        } else {
            0nat
        },
    decreases es.len(),
{
    if es.len() > 0 {
        lemma_kills_track_flag(es.drop_last());
    }
}

/// Whatever happens to a stream, its process is told to terminate at most
/// once, and exactly once when the stream is torn down at the end.
pub proof fn lemma_terminated_once(es: Seq<ControlEvent>)
    ensures
        kills_over(fresh_control(), es) <= 1,
        es.len() > 0 && es.last() is Teardown ==> kills_over(fresh_control(), es) == 1,
{
    lemma_kills_track_flag(es);
}

impl StreamControl {
    pub fn new() -> (r: StreamControl)
        ensures
            r == fresh_control(),
    {
        StreamControl { finished: false, kill_signaled: false }
    }

    /// Starts a pull: a process that exited with failure fails the stream at
    /// once, even with output left unread.
    pub fn begin_pull(&mut self, exit: ExitCheck) -> (r: Pull)
        ensures
            *final(self) == after_begin(*old(self), exit),
            old(self).finished ==> r is Stop,
            !old(self).finished && exit == ExitCheck::Failed ==> (r matches Pull::Fail(e)
                && e is UpstreamProcessError),
            !old(self).finished && exit != ExitCheck::Failed ==> r is Read,
    {
        if self.finished {
            Pull::Stop
        } else if exit == ExitCheck::Failed {
            self.finished = true;
            Pull::Fail(ServiceError::UpstreamProcessError("yt-dlp process failed".to_string()))
        } else {
            Pull::Read
        }
    }

    /// Ends a pull with what its read gave.
    pub fn finish_pull(&mut self, outcome: ReadOutcome) -> (r: Delivery)
        ensures
            *final(self) == after_finish(*old(self), outcome),
            outcome matches ReadOutcome::Bytes(n) ==> (if n == 0 {
                r is End
            } else {
                r == Delivery::Chunk(n)
            }),
            outcome matches ReadOutcome::Error(m) ==> (r matches Delivery::Fail(e) && e
                == ServiceError::IoError(m)),
    {
        match outcome {
            ReadOutcome::Bytes(n) => {
                if n == 0 {
                    self.finished = true;
                    Delivery::End
                } else {
                    Delivery::Chunk(n)
                }
            },
            ReadOutcome::Error(m) => {
                self.finished = true;
                Delivery::Fail(ServiceError::IoError(m))
            },
        }
    }

    /// The teardown hook, called on every exit path: whether the process is
    /// to be told to terminate now.
    pub fn teardown(&mut self) -> (kill: bool)
        ensures
            *final(self) == after_teardown(*old(self)),
            kill == signals_kill(*old(self), ControlEvent::Teardown),
    {
        let kill = !self.kill_signaled;
        self.finished = true;
        self.kill_signaled = true;
        kill
    }
}

} // verus!
