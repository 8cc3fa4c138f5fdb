//! The stream adapter's retry loop, as a machine from events to actions.
//!
//! The adapter never touches the engine or the transport itself. Each step
//! hands back the one action that its driver performs next (run an engine
//! operation, move ciphertext between the engine's memory buffers, the
//! scratch buffer and the transport), and the driver reports what came of it
//! as the next event. The scratch buffer holds `RECORD_SIZE` bytes and
//! belongs to the driver; actions name the prefix of it that they use.
use vstd::prelude::*;
use crate::status::{EngineStatus, buffered_len, classify, drained_len, status_of};

verus! {

/// The size of the scratch buffer: one maximal protocol record.
pub const RECORD_SIZE: usize = 16384;

/// The engine operation that the driver runs.
#[derive(Clone, Copy, Debug, PartialEq, Eq, Structural)]
pub enum Call {
    /// A step of the client side of the initial handshake.
    Connect,
    /// Decrypt into the caller's buffer, all of it.
    Read,
    /// Encrypt the caller's buffer from `offset` to its end.
    Write { offset: usize },
    /// A step of the handshake of a renegotiation.
    Handshake,
}

/// How a stream operation ended.
#[derive(Clone, Copy, Debug, PartialEq, Eq, Structural)]
pub enum Outcome {
    /// The handshake completed.
    Connected,
    /// This many bytes were placed in the caller's buffer.
    Read(usize),
    /// The whole caller's buffer, of this length, was accepted.
    Written(usize),
    /// No ciphertext is left buffered and the transport was flushed.
    Flushed,
    /// Whether the renegotiation completed.
    Renegotiated(bool),
    /// The session is closed: end of stream for a reader.
    EndOfStream,
    /// The session is closed: an error for a writer or a handshake.
    Closed,
    /// The engine failed; its error queue holds the details.
    ProtocolError,
    /// The transport failed; the driver holds its error.
    TransportError,
}

/// What the driver does next.
#[derive(Clone, Copy, Debug, PartialEq, Eq, Structural)]
pub enum Action {
    /// Run the engine operation and report `Event::Status`.
    Call(Call),
    /// Read the outbound memory buffer into the scratch buffer and report
    /// `Event::Drained` with the return value.
    DrainOutbound,
    /// Write the first `len` bytes of the scratch buffer to the transport and
    /// report `Event::Sent` or `Event::TransportFailed`.
    Send { len: usize },
    /// Read once from the transport into the scratch buffer and report
    /// `Event::Received` or `Event::TransportFailed`.
    Receive,
    /// Write the first `len` bytes of the scratch buffer into the inbound
    /// memory buffer and report `Event::Fed` with the return value.
    Feed { len: usize },
    /// Flush the transport and report `Event::Flushed` or
    /// `Event::TransportFailed`.
    FlushTransport,
    /// The operation is over.
    Finish(Outcome),
}

/// What the driver reports of the action it performed.
#[derive(Clone, Copy, Debug, PartialEq, Eq, Structural)]
pub enum Event {
    /// The engine operation returned `ret`, and the engine's error kind for
    /// it is `code`.
    Status { ret: i32, code: i32 },
    /// The read of the outbound memory buffer returned `ret`.
    Drained { ret: i32 },
    /// The transport accepted the bytes.
    Sent,
    /// The transport delivered `len` bytes into the scratch buffer.
    Received { len: usize },
    /// The write into the inbound memory buffer returned `ret`.
    Fed { ret: i32 },
    /// The transport was flushed.
    Flushed,
    /// The transport failed.
    TransportFailed,
}

/// The stream operation in progress.
#[derive(Clone, Copy, Debug, PartialEq, Eq, Structural)]
pub enum Task {
    Idle,
    Connect,
    Read { len: usize },
    /// `offset` bytes of `total` have been accepted by the engine.
    Write { offset: usize, total: usize },
    Flush,
    Renegotiate,
}

/// Where a drain of the outbound buffer leads once nothing is left in it.
#[derive(Clone, Copy, Debug, PartialEq, Eq, Structural)]
pub enum Then {
    /// Flush the transport, read from it once, then retry the engine
    /// operation.
    Receive,
    /// Flush the transport, then retry the engine operation.
    Retry,
    /// Go on with the rest of the caller's buffer, or finish the write.
    Continue,
    /// Flush the transport, which ends a flush.
    Finish,
}

/// The action that a task awaits the answer to.
#[derive(Clone, Copy, Debug, PartialEq, Eq, Structural)]
pub enum Phase {
    Idle,
    Calling,
    Draining(Then),
    Sending { len: usize, then: Then },
    Receiving,
    Feeding { len: usize },
    FlushingTransport(Then),
}

/// The adapter's state between steps.
#[derive(Clone, Copy, Debug, PartialEq, Eq, Structural)]
pub struct SslStream {
    pub task: Task,
    pub phase: Phase,
    /// The engine reported a clean close of the session.
    pub closed: bool,
}

pub open spec fn call_of(task: Task) -> Call {
    match task {
        Task::Read { .. } => Call::Read,
        Task::Write { offset, .. } => Call::Write { offset },
        Task::Renegotiate => Call::Handshake,
        _ => Call::Connect,
    }
}

/// The outcome that reaches the caller: a renegotiation reports only
/// whether it completed.
pub open spec fn outcome_for(task: Task, o: Outcome) -> Outcome {
    match task {
        Task::Renegotiate => Outcome::Renegotiated(o == Outcome::Renegotiated(true)),
        _ => o,
    }
}

pub open spec fn finish(s: SslStream, o: Outcome) -> (SslStream, Action) {
    (
        SslStream { task: Task::Idle, phase: Phase::Idle, closed: s.closed },
        Action::Finish(outcome_for(s.task, o)),
    )
}

pub open spec fn drain_with(s: SslStream, then: Then) -> (SslStream, Action) {
    (SslStream { phase: Phase::Draining(then), ..s }, Action::DrainOutbound)
}

pub open spec fn retry(s: SslStream) -> (SslStream, Action) {
    (SslStream { phase: Phase::Calling, ..s }, Action::Call(call_of(s.task)))
}

/// The step on an engine status, with the operation awaiting it.
pub open spec fn on_status(s: SslStream, st: EngineStatus) -> (SslStream, Action) {
    match st {
        EngineStatus::Progress(n) => match s.task {
            Task::Connect => finish(s, Outcome::Connected),
            Task::Renegotiate => finish(s, Outcome::Renegotiated(n == 1)),
            Task::Read { len } => if n <= len {
                finish(s, Outcome::Read(n))
            } else {
                finish(s, Outcome::ProtocolError)
            },
            Task::Write { offset, total } => if n <= total - offset {
                drain_with(
                    SslStream { task: Task::Write { offset: (offset + n) as usize, total }, ..s },
                    Then::Continue,
                )
            } else {
                finish(s, Outcome::ProtocolError)
            },
            _ => finish(s, Outcome::ProtocolError),
        },
        EngineStatus::WantInput => drain_with(s, Then::Receive),
        EngineStatus::WantOutput => drain_with(s, Then::Retry),
        EngineStatus::Closed => {
            let c = SslStream { closed: true, ..s };
            match s.task {
                Task::Read { .. } => finish(c, Outcome::EndOfStream),
                _ => finish(c, Outcome::Closed),
            }
        },
        EngineStatus::Failed => finish(s, Outcome::ProtocolError),
    }
}

/// The step once the outbound buffer is empty.
pub open spec fn on_drained(s: SslStream, then: Then) -> (SslStream, Action) {
    match then {
        Then::Continue => match s.task {
            Task::Write { offset, total } => if offset < total {
                retry(s)
            } else {
                finish(s, Outcome::Written(total))
            },
            _ => finish(s, Outcome::ProtocolError),
        },
        _ => (SslStream { phase: Phase::FlushingTransport(then), ..s }, Action::FlushTransport),
    }
}

/// The step once the transport has been flushed.
pub open spec fn on_flushed(s: SslStream, then: Then) -> (SslStream, Action) {
    match then {
        Then::Receive => (SslStream { phase: Phase::Receiving, ..s }, Action::Receive),
        Then::Retry => retry(s),
        Then::Finish => finish(s, Outcome::Flushed),
        Then::Continue => finish(s, Outcome::ProtocolError),
    }
}

/// The adapter's transition on an event: the next state and the action that
/// the driver performs. An event that does not answer the pending action
/// ends the operation as a protocol failure.
pub open spec fn next(s: SslStream, e: Event) -> (SslStream, Action) {
    match (s.phase, e) {
        (Phase::Calling, Event::Status { ret, code }) => on_status(s, status_of(ret, code)),
        (Phase::Draining(then), Event::Drained { ret }) => match buffered_len(ret) {
            Some(n) => if n == 0 {
                on_drained(s, then)
            } else if n <= RECORD_SIZE {
                (SslStream { phase: Phase::Sending { len: n, then }, ..s }, Action::Send { len: n })
            } else {
                finish(s, Outcome::ProtocolError)
            },
            None => on_drained(s, then),
        },
        (Phase::Sending { len, then }, Event::Sent) => drain_with(s, then),
        (Phase::Receiving, Event::Received { len }) => if len <= RECORD_SIZE {
            (SslStream { phase: Phase::Feeding { len }, ..s }, Action::Feed { len })
        } else {
            finish(s, Outcome::TransportError)
        },
        (Phase::Feeding { len }, Event::Fed { ret }) => if ret >= 0 && ret as usize == len {
            retry(s)
        } else {
            finish(s, Outcome::ProtocolError)
        },
        (Phase::FlushingTransport(then), Event::Flushed) => on_flushed(s, then),
        (Phase::Sending { .. }, Event::TransportFailed) => finish(s, Outcome::TransportError),
        (Phase::Receiving, Event::TransportFailed) => finish(s, Outcome::TransportError),
        (Phase::FlushingTransport(_), Event::TransportFailed) => finish(s, Outcome::TransportError),
        _ => finish(s, Outcome::ProtocolError),
    }
}

/// A fresh adapter, starting the handshake.
pub open spec fn start_connect() -> (SslStream, Action) {
    (
        SslStream { task: Task::Connect, phase: Phase::Calling, closed: false },
        Action::Call(Call::Connect),
    )
}

/// Starting a read into a buffer of `len` bytes.
pub open spec fn start_read(s: SslStream, len: usize) -> (SslStream, Action) {
    let idle = SslStream { task: Task::Idle, phase: Phase::Idle, closed: s.closed };
    if s.closed {
        (idle, Action::Finish(Outcome::EndOfStream))
    } else if len == 0 {
        (idle, Action::Finish(Outcome::Read(0)))
    } else {
        (SslStream { task: Task::Read { len }, phase: Phase::Calling, closed: false }, Action::Call(Call::Read))
    }
}

/// Starting a write of a buffer of `total` bytes.
pub open spec fn start_write(s: SslStream, total: usize) -> (SslStream, Action) {
    let idle = SslStream { task: Task::Idle, phase: Phase::Idle, closed: s.closed };
    if s.closed {
        (idle, Action::Finish(Outcome::Closed))
    } else if total == 0 {
        (idle, Action::Finish(Outcome::Written(0)))
    } else {
        (
            SslStream { task: Task::Write { offset: 0, total }, phase: Phase::Calling, closed: false },
            Action::Call(Call::Write { offset: 0 }),
        )
    }
}

/// Starting a flush.
pub open spec fn start_flush(s: SslStream) -> (SslStream, Action) {
    (
        SslStream { task: Task::Flush, phase: Phase::Draining(Then::Finish), closed: s.closed },
        Action::DrainOutbound,
    )
}

/// Starting the handshake of a renegotiation.
pub open spec fn start_renegotiate(s: SslStream) -> (SslStream, Action) {
    if s.closed {
        (
            SslStream { task: Task::Idle, phase: Phase::Idle, closed: true },
            Action::Finish(Outcome::Renegotiated(false)),
        )
    } else {
        (
            SslStream { task: Task::Renegotiate, phase: Phase::Calling, closed: false },
            Action::Call(Call::Handshake),
        )
    }
}

fn call_for(task: Task) -> (r: Call)
    ensures
        r == call_of(task),
{
    match task {
        Task::Read { .. } => Call::Read,
        Task::Write { offset, .. } => Call::Write { offset },
        Task::Renegotiate => Call::Handshake,
        _ => Call::Connect,
    }
}

fn finish_with(s: SslStream, o: Outcome) -> (r: (SslStream, Action))
    ensures
        r == finish(s, o),
{
    let o = match s.task {
        Task::Renegotiate => Outcome::Renegotiated(o == Outcome::Renegotiated(true)),
        _ => o,
    };
    (SslStream { task: Task::Idle, phase: Phase::Idle, closed: s.closed }, Action::Finish(o))
}

fn retry_call(s: SslStream) -> (r: (SslStream, Action))
    ensures
        r == retry(s),
{
    (SslStream { phase: Phase::Calling, ..s }, Action::Call(call_for(s.task)))
}

fn step_status(s: SslStream, st: EngineStatus) -> (r: (SslStream, Action))
    requires
        s.phase == Phase::Calling,
    ensures
        r == on_status(s, st),
{
    match st {
        EngineStatus::Progress(n) => match s.task {
            Task::Connect => finish_with(s, Outcome::Connected),
            Task::Renegotiate => finish_with(s, Outcome::Renegotiated(n == 1)),
            Task::Read { len } => if n <= len {
                finish_with(s, Outcome::Read(n))
            } else {
                finish_with(s, Outcome::ProtocolError)
            },
            Task::Write { offset, total } => if offset <= total && n <= total - offset {
                let w = SslStream { task: Task::Write { offset: offset + n, total }, ..s };
                (SslStream { phase: Phase::Draining(Then::Continue), ..w }, Action::DrainOutbound)
            } else {
                finish_with(s, Outcome::ProtocolError)
            },
            _ => finish_with(s, Outcome::ProtocolError),
        },
        EngineStatus::WantInput => (SslStream { phase: Phase::Draining(Then::Receive), ..s }, Action::DrainOutbound),
        EngineStatus::WantOutput => (SslStream { phase: Phase::Draining(Then::Retry), ..s }, Action::DrainOutbound),
        EngineStatus::Closed => {
            let c = SslStream { closed: true, ..s };
            match s.task {
                Task::Read { .. } => finish_with(c, Outcome::EndOfStream),
                _ => finish_with(c, Outcome::Closed),
            }
        },
        EngineStatus::Failed => finish_with(s, Outcome::ProtocolError),
    }
}

fn step_drained(s: SslStream, then: Then) -> (r: (SslStream, Action))
    ensures
        r == on_drained(s, then),
{
    match then {
        Then::Continue => match s.task {
            Task::Write { offset, total } => if offset < total {
                retry_call(s)
            } else {
                finish_with(s, Outcome::Written(total))
            },
            _ => finish_with(s, Outcome::ProtocolError),
        },
        _ => (SslStream { phase: Phase::FlushingTransport(then), ..s }, Action::FlushTransport),
    }
}

fn step_flushed(s: SslStream, then: Then) -> (r: (SslStream, Action))
    ensures
        r == on_flushed(s, then),
{
    match then {
        Then::Receive => (SslStream { phase: Phase::Receiving, ..s }, Action::Receive),
        Then::Retry => retry_call(s),
        Then::Finish => finish_with(s, Outcome::Flushed),
        Then::Continue => finish_with(s, Outcome::ProtocolError),
    }
}

fn transition(s: SslStream, e: Event) -> (r: (SslStream, Action))
    ensures
        r == next(s, e),
{
    match (s.phase, e) {
        (Phase::Calling, Event::Status { ret, code }) => step_status(s, classify(ret, code)),
        (Phase::Draining(then), Event::Drained { ret }) => match drained_len(ret) {
            Some(n) => if n == 0 {
                step_drained(s, then)
            } else if n <= RECORD_SIZE {
                (SslStream { phase: Phase::Sending { len: n, then }, ..s }, Action::Send { len: n })
            } else {
                finish_with(s, Outcome::ProtocolError)
            },
            None => step_drained(s, then),
        },
        (Phase::Sending { len, then }, Event::Sent) => {
            (SslStream { phase: Phase::Draining(then), ..s }, Action::DrainOutbound)
        },
        (Phase::Receiving, Event::Received { len }) => if len <= RECORD_SIZE {
            (SslStream { phase: Phase::Feeding { len }, ..s }, Action::Feed { len })
        } else {
            finish_with(s, Outcome::TransportError)
        },
        (Phase::Feeding { len }, Event::Fed { ret }) => if ret >= 0 && ret as usize == len {
            retry_call(s)
        } else {
            finish_with(s, Outcome::ProtocolError)
        },
        (Phase::FlushingTransport(then), Event::Flushed) => step_flushed(s, then),
        (Phase::Sending { .. }, Event::TransportFailed) => finish_with(s, Outcome::TransportError),
        (Phase::Receiving, Event::TransportFailed) => finish_with(s, Outcome::TransportError),
        (Phase::FlushingTransport(_), Event::TransportFailed) => finish_with(s, Outcome::TransportError),
        _ => finish_with(s, Outcome::ProtocolError),
    }
}

impl Task {
    /// The task has an engine operation left to run.
    pub open spec fn resumable(self) -> bool {
        match self {
            Task::Connect | Task::Read { .. } | Task::Renegotiate => true,
            Task::Write { offset, total } => offset < total,
            _ => false,
        }
    }
}

impl SslStream {
    /// Well-formedness: a write's offset never passes its total, and the
    /// phase fits the task.
    pub open spec fn wf(&self) -> bool {
        &&& (self.task == Task::Idle <==> self.phase == Phase::Idle)
        &&& (self.task matches Task::Write { offset, total } ==> offset <= total)
        &&& (self.awaits_retry() ==> self.task.resumable())
    }

    /// The phase leads back to the engine operation of the task.
    pub open spec fn awaits_retry(&self) -> bool {
        match self.phase {
            Phase::Calling | Phase::Receiving | Phase::Feeding { .. } => true,
            Phase::Draining(then) => then == Then::Receive || then == Then::Retry,
            Phase::Sending { then, .. } => then == Then::Receive || then == Then::Retry,
            Phase::FlushingTransport(then) => then == Then::Receive || then == Then::Retry,
            _ => false,
        }
    }

    /// A new adapter and its first action, the first step of the handshake.
    pub fn new() -> (r: (SslStream, Action))
        ensures
            r == start_connect(),
            r.0.wf(),
    {
        (SslStream { task: Task::Connect, phase: Phase::Calling, closed: false }, Action::Call(Call::Connect))
    }

    /// Whether the engine has reported a clean close of the session.
    pub fn is_closed(&self) -> (r: bool)
        ensures
            r == self.closed,
    {
        self.closed
    }

    /// Starts a read into a buffer of `len` bytes.
    pub fn begin_read(&mut self, len: usize) -> (r: Action)
        ensures
            (*final(self), r) == start_read(*old(self), len),
            final(self).wf(),
    {
        let idle = SslStream { task: Task::Idle, phase: Phase::Idle, closed: self.closed };
        if self.closed {
            *self = idle;
            Action::Finish(Outcome::EndOfStream)
        } else if len == 0 {
            *self = idle;
            Action::Finish(Outcome::Read(0))
        } else {
            *self = SslStream { task: Task::Read { len }, phase: Phase::Calling, closed: false };
            Action::Call(Call::Read)
        }
    }

    /// Starts a write of a buffer of `total` bytes.
    pub fn begin_write(&mut self, total: usize) -> (r: Action)
        ensures
            (*final(self), r) == start_write(*old(self), total),
            final(self).wf(),
    {
        let idle = SslStream { task: Task::Idle, phase: Phase::Idle, closed: self.closed };
        if self.closed {
            *self = idle;
            Action::Finish(Outcome::Closed)
        } else if total == 0 {
            *self = idle;
            Action::Finish(Outcome::Written(0))
        } else {
            *self = SslStream { task: Task::Write { offset: 0, total }, phase: Phase::Calling, closed: false };
            Action::Call(Call::Write { offset: 0 })
        }
    }

    /// Starts a flush: drain the outbound buffer, then flush the transport.
    pub fn begin_flush(&mut self) -> (r: Action)
        ensures
            (*final(self), r) == start_flush(*old(self)),
            final(self).wf(),
    {
        *self = SslStream { task: Task::Flush, phase: Phase::Draining(Then::Finish), closed: self.closed };
        Action::DrainOutbound
    }

    /// Starts the handshake of a renegotiation, once the engine has been
    /// asked to renegotiate.
    pub fn begin_renegotiate(&mut self) -> (r: Action)
        ensures
            (*final(self), r) == start_renegotiate(*old(self)),
            final(self).wf(),
    {
        if self.closed {
            *self = SslStream { task: Task::Idle, phase: Phase::Idle, closed: true };
            Action::Finish(Outcome::Renegotiated(false))
        } else {
            *self = SslStream { task: Task::Renegotiate, phase: Phase::Calling, closed: false };
            Action::Call(Call::Handshake)
        }
    }

    /// Takes the driver's report on the pending action and returns the next
    /// action.
    pub fn step(&mut self, e: Event) -> (r: Action)
        ensures
            (*final(self), r) == next(*old(self), e),
            old(self).wf() ==> final(self).wf(),
    {
        proof {
            if self.wf() {
                lemma_next_keeps_wf(*self, e);
            }
        }
        let (s, a) = transition(*self, e);
        *self = s;
        a
    }
}

/// The state and last action after the driver reports `events` in turn,
/// starting from state `s` with pending action `a`; reports after the
/// operation has finished are not taken.
pub open spec fn run(s: SslStream, a: Action, events: Seq<Event>) -> (SslStream, Action)
    decreases events.len(),
{
    if events.len() == 0 || a is Finish {
        (s, a)
    } else {
        let (s2, a2) = next(s, events[0]);
        run(s2, a2, events.drop_first())
    }
}

/// Every transition keeps the adapter well formed.
pub proof fn lemma_next_keeps_wf(s: SslStream, e: Event)
    requires
        s.wf(),
    ensures
        next(s, e).0.wf(),
{
}

/// Every way of starting an operation leaves the adapter well formed.
pub proof fn lemma_starts_are_wf(s: SslStream, len: usize)
    ensures
        start_connect().0.wf(),
        start_read(s, len).0.wf(),
        start_write(s, len).0.wf(),
        start_flush(s).0.wf(),
        start_renegotiate(s).0.wf(),
{
}

/// What holds along a write of `total` bytes: while it runs, the offset
/// stays within the buffer; once it is over, a successful write reports the
/// whole buffer.
pub open spec fn write_inv(s: SslStream, a: Action, total: usize) -> bool {
    match a {
        Action::Finish(o) => o is Written ==> o == Outcome::Written(total),
        _ => s.wf() && (s.task matches Task::Write { offset, total: t } && t == total),
    }
}

proof fn lemma_write_inv_runs(s: SslStream, a: Action, total: usize, events: Seq<Event>)
    requires
        write_inv(s, a, total),
    ensures
        write_inv(run(s, a, events).0, run(s, a, events).1, total),
    decreases events.len(),
{
    if events.len() == 0 || a is Finish {
    } else {
        let (s2, a2) = next(s, events[0]);
        lemma_next_keeps_wf(s, events[0]);
        assert(write_inv(s2, a2, total));
        lemma_write_inv_runs(s2, a2, total, events.drop_first());
    }
}

/// A write of a buffer of `total` bytes that succeeds reports all `total`
/// bytes as accepted, however many partial engine writes and drains it took
/// and whatever the driver reported on the way.
pub proof fn lemma_write_accepts_whole_buffer(s: SslStream, total: usize, events: Seq<Event>)
    ensures
        ({
            let (s1, a1) = start_write(s, total);
            run(s1, a1, events).1 matches Action::Finish(Outcome::Written(w)) ==> w == total
        }),
{
    let (s1, a1) = start_write(s, total);
    assert(write_inv(s1, a1, total));
    lemma_write_inv_runs(s1, a1, total, events);
}

/// The bytes that the engine accepts of a write at the transition from `s`
/// on `e`: the engine's count where it made progress on a write and the
/// count fits what is left, else nothing.
pub open spec fn accepted_at(s: SslStream, e: Event) -> int {
    match (s.phase, s.task, e) {
        (Phase::Calling, Task::Write { offset, total }, Event::Status { ret, code }) =>
            match status_of(ret, code) {
                EngineStatus::Progress(n) => if n <= total - offset { n as int } else { 0 },
                _ => 0,
            },
        _ => 0,
    }
}

/// The bytes accepted by the engine along `run(s, a, events)`.
pub open spec fn run_accepted(s: SslStream, a: Action, events: Seq<Event>) -> int
    decreases events.len(),
{
    if events.len() == 0 || a is Finish {
        0
    } else {
        accepted_at(s, events[0]) + run_accepted(next(s, events[0]).0, next(s, events[0]).1, events.drop_first())
    }
}

proof fn lemma_accepted_sums_to_total(s: SslStream, a: Action, total: usize, events: Seq<Event>)
    requires
        write_inv(s, a, total),
        !(a is Finish),
    ensures
        run(s, a, events).1 matches Action::Finish(Outcome::Written(w)) ==>
            s.task->Write_offset + run_accepted(s, a, events) == total,
    decreases events.len(),
{
    if events.len() > 0 {
        let (s2, a2) = next(s, events[0]);
        lemma_next_keeps_wf(s, events[0]);
        assert(write_inv(s2, a2, total));
        if !(a2 is Finish) {
            lemma_accepted_sums_to_total(s2, a2, total, events.drop_first());
        } else {
            assert(run(s2, a2, events.drop_first()) == (s2, a2));
            assert(run_accepted(s2, a2, events.drop_first()) == 0);
        }
    }
}

/// Every byte of a successful write is handed to the engine exactly once:
/// the counts that the engine accepts along the run, each positive, add up
/// to the length of the caller's buffer.
pub proof fn lemma_write_hands_every_byte_once(s: SslStream, total: usize, events: Seq<Event>)
    requires
        !s.closed,
        total > 0,
    ensures
        ({
            let (s1, a1) = start_write(s, total);
            run(s1, a1, events).1 matches Action::Finish(Outcome::Written(w))
                ==> run_accepted(s1, a1, events) == total
        }),
{
    let (s1, a1) = start_write(s, total);
    assert(write_inv(s1, a1, total));
    lemma_accepted_sums_to_total(s1, a1, total, events);
}

/// The engine's count accepted at one transition is never negative, and is
/// positive exactly where the engine made progress on the write.
pub proof fn lemma_accepted_is_progress(s: SslStream, e: Event)
    ensures
        accepted_at(s, e) >= 0,
        accepted_at(s, e) > 0 ==> (e matches Event::Status { ret, code } && ret > 0),
{
}

/// During a write, each engine write starts where the accepted bytes end:
/// after the engine accepts `n` bytes from `offset`, the pending ciphertext
/// is drained, and the next engine write starts at `offset + n`.
pub proof fn lemma_write_resumes_at_offset(s: SslStream, ret: i32, code: i32)
    requires
        s.wf(),
        s.phase == Phase::Calling,
        s.task matches Task::Write { offset, total } && ret > 0 && ret as int <= total - offset,
    ensures
        ({
            let (s1, a1) = next(s, Event::Status { ret, code });
            let (s2, a2) = next(s1, Event::Drained { ret: -1i32 });
            let offset = s.task->Write_offset;
            let total = s.task->Write_total;
            &&& a1 == Action::DrainOutbound
            &&& offset + ret < total ==> a2 == Action::Call(Call::Write { offset: (offset + ret) as usize })
            &&& offset + ret == total ==> a2 == Action::Finish(Outcome::Written(total))
        }),
{
}

/// A flush with no ciphertext pending drains nothing, flushes the transport
/// and succeeds.
pub proof fn lemma_flush_with_nothing_pending(s: SslStream, ret: i32)
    requires
        ret <= 0,
    ensures
        ({
            let (s1, a1) = start_flush(s);
            let (s2, a2) = next(s1, Event::Drained { ret });
            let (s3, a3) = next(s2, Event::Flushed);
            &&& a1 == Action::DrainOutbound
            &&& a2 == Action::FlushTransport
            &&& a3 == Action::Finish(Outcome::Flushed)
            &&& s3.closed == s.closed
        }),
{
}

/// Once the engine reports a clean close during a read, the read ends in end
/// of stream, and so does every later read: the closed state is kept.
pub proof fn lemma_end_of_stream_is_sticky(s: SslStream, ret: i32, len: usize)
    requires
        s.phase == Phase::Calling,
        s.task is Read,
        ret <= 0,
    ensures
        ({
            let (s1, a1) = next(s, Event::Status { ret, code: crate::status::SSL_ERROR_ZERO_RETURN });
            &&& a1 == Action::Finish(Outcome::EndOfStream)
            &&& s1.closed
        }),
        forall|t: SslStream|
            #![trigger start_read(t, len)]
            t.closed ==> start_read(t, len).1 == Action::Finish(Outcome::EndOfStream)
                && start_read(t, len).0.closed,
{
}

/// When the engine wants input, pending ciphertext goes out first and the
/// transport is flushed; then exactly the bytes that one transport read
/// delivered are fed to the engine, and the same engine operation is retried.
pub proof fn lemma_input_reaches_engine_whole(s: SslStream, ret: i32, n: usize)
    requires
        s.phase == Phase::Calling,
        ret <= 0,
        n <= RECORD_SIZE,
    ensures
        ({
            let (s1, a1) = next(s, Event::Status { ret, code: crate::status::SSL_ERROR_WANT_READ });
            let (s2, a2) = next(s1, Event::Drained { ret: -1i32 });
            let (s3, a3) = next(s2, Event::Flushed);
            let (s4, a4) = next(s3, Event::Received { len: n });
            let (s5, a5) = next(s4, Event::Fed { ret: n as i32 });
            &&& a1 == Action::DrainOutbound
            &&& a2 == Action::FlushTransport
            &&& a3 == Action::Receive
            &&& a4 == Action::Feed { len: n }
            &&& a5 == Action::Call(call_of(s.task))
            &&& s5.task == s.task
        }),
{
}

/// When the engine wants its output sent, pending ciphertext goes out, the
/// transport is flushed, and the same engine operation is retried with no
/// transport read in between.
pub proof fn lemma_output_is_flushed_before_retry(s: SslStream, ret: i32)
    requires
        s.phase == Phase::Calling,
        ret <= 0,
    ensures
        ({
            let (s1, a1) = next(s, Event::Status { ret, code: crate::status::SSL_ERROR_WANT_WRITE });
            let (s2, a2) = next(s1, Event::Drained { ret: -1i32 });
            let (s3, a3) = next(s2, Event::Flushed);
            &&& a1 == Action::DrainOutbound
            &&& a2 == Action::FlushTransport
            &&& a3 == Action::Call(call_of(s.task))
            &&& s3.task == s.task
        }),
{
}

/// A transport that fails to flush while the engine waits ends the
/// operation as a transport failure.
pub proof fn lemma_failed_flush_ends_retry(s: SslStream, then: Then)
    requires
        s.phase == Phase::FlushingTransport(then),
        s.task != Task::Renegotiate,
    ensures
        next(s, Event::TransportFailed).1 == Action::Finish(Outcome::TransportError),
{
}

/// Every chunk drained from the outbound buffer is sent whole to the
/// transport before the next drain, whichever way the drain leads.
pub proof fn lemma_drained_output_is_sent(s: SslStream, then: Then, n: i32)
    requires
        s.phase == Phase::Draining(then),
        0 < n <= RECORD_SIZE,
    ensures
        ({
            let (s1, a1) = next(s, Event::Drained { ret: n });
            let (s2, a2) = next(s1, Event::Sent);
            &&& a1 == Action::Send { len: n as usize }
            &&& a2 == Action::DrainOutbound
            &&& s2.phase == Phase::Draining(then)
        }),
{
}

} // verus!
