//! The capture stream session.
//!
//! A session composes a content filter, a configuration and a callback
//! container, and walks a small state machine: `Created` when the native
//! stream is allocated, `Starting` once the asynchronous start is issued,
//! `Started` when its completion reports success, and the terminal
//! `Stopped` and `Failed`. Samples and errors arriving from the capture
//! subsystem become entries of the callback container's log — the exact
//! sequence the user callback observes, in delivery order. Once a session
//! is stopped or failed, no event appends to that log again; that is
//! proved, not promised.

use vstd::prelude::*;

verus! {

use crate::config::SCStreamConfiguration;
use crate::content::SCContentFilter;
use crate::handle::OwnedHandle;
use crate::handle::RetainTable;
use crate::sample::CMSampleBuffer;
use crate::sample::TransientSampleBuffer;

/// The status code the capture subsystem reports when the user, not a
/// fault, ended the stream; it is delivered as a clean shutdown.
pub const SCSTREAM_ERROR_CODE_USER_STOPPED: i64 = -3817;

/// An error reported by the capture subsystem, with every human-readable
/// field copied into owned storage at the moment it was received.
#[derive(Clone, Debug)]
pub struct NativeError {
    pub domain: String,
    pub code: i64,
    pub description: String,
    pub reason: String,
}

impl NativeError {
    pub fn new(domain: String, code: i64, description: String, reason: String) -> (r: NativeError)
        ensures
            r.domain@ == domain@,
            r.code == code,
            r.description@ == description@,
            r.reason@ == reason@,
    {
        NativeError { domain, code, description, reason }
    }

    pub fn code(&self) -> (r: i64)
        ensures
            r == self.code,
    {
        self.code
    }

    pub fn domain(&self) -> (r: &String)
        ensures
            r@ == self.domain@,
    {
        &self.domain
    }

    pub fn description(&self) -> (r: &String)
        ensures
            r@ == self.description@,
    {
        &self.description
    }

    pub fn reason(&self) -> (r: &String)
        ensures
            r@ == self.reason@,
    {
        &self.reason
    }
}

/// What can go wrong on the way to the user callback.
#[derive(Clone, Debug)]
pub enum SCStreamCallbackError {
    /// The deep copy of a delivered sample failed; the sample is lost.
    SampleBufferCopyFailed,
    /// The stream stopped cleanly; no further samples will arrive.
    StreamStopped,
    /// The stream stopped on a fault, described by the native error.
    Other(NativeError),
}

/// Why a session could not be created. In this model creation fails
/// exactly on an invalid configuration; a configuration the platform
/// would reject at allocation or output-attach time is rejected here,
/// whole, before a stream exists.
#[derive(Clone, Debug)]
pub enum StreamCreateError {
    InvalidConfiguration,
}

/// The kind of output a delivered sample belongs to.
#[derive(Copy, Clone, Debug, PartialEq, Eq, Structural)]
pub enum SCStreamOutputType {
    Screen,
    Audio,
}

/// An output kind in the wire form the capture subsystem uses.
#[derive(Copy, Clone, Debug, PartialEq, Eq, Structural)]
pub struct SCStreamOutputTypeEncoded(pub usize);

impl SCStreamOutputType {
    pub open spec fn spec_to_encoded(&self) -> SCStreamOutputTypeEncoded {
        match self {
            Self::Screen => SCStreamOutputTypeEncoded(0),
            Self::Audio => SCStreamOutputTypeEncoded(1),
        }
    }

    #[verifier::when_used_as_spec(spec_to_encoded)]
    pub fn to_encoded(&self) -> (r: SCStreamOutputTypeEncoded)
        ensures
            r == self.spec_to_encoded(),
    {
        SCStreamOutputTypeEncoded(
            match *self {
                Self::Screen => 0,
                Self::Audio => 1,
            },
        )
    }
}

/// A handle to the dispatch queue the capture subsystem will deliver
/// completions on: serial or concurrent, under a label, or the null queue.
#[derive(Clone, Debug)]
pub struct DispatchQueue {
    pub label: String,
    pub concurrent: bool,
    pub null: bool,
}

impl DispatchQueue {
    pub fn make_serial(label: String) -> (r: DispatchQueue)
        ensures
            r.label@ == label@,
            !r.concurrent,
            !r.null,
    {
        DispatchQueue { label, concurrent: false, null: false }
    }

    pub fn make_concurrent(label: String) -> (r: DispatchQueue)
        ensures
            r.label@ == label@,
            r.concurrent,
            !r.null,
    {
        DispatchQueue { label, concurrent: true, null: false }
    }

    pub fn make_null() -> (r: DispatchQueue)
        ensures
            r.null,
    {
        DispatchQueue { label: String::new(), concurrent: false, null: true }
    }
}

/// One observation of the user callback: a delivered sample with its
/// output kind, or a callback error.
pub type CallbackResult = Result<(CMSampleBuffer, SCStreamOutputType), SCStreamCallbackError>;

/// Owns the sequence of results handed to the user callback, in delivery
/// order. Dispatching each entry into user code is the embedding
/// program's business; the library accounts for exactly what is handed
/// over and in what order.
#[derive(Debug)]
pub struct SCStreamCallbackContainer {
    delivered: Vec<CallbackResult>,
}

impl SCStreamCallbackContainer {
    /// The results delivered so far, oldest first.
    pub closed spec fn spec_delivered(&self) -> Seq<CallbackResult> {
        self.delivered@
    }

    pub fn new() -> (r: SCStreamCallbackContainer)
        ensures
            r.spec_delivered() == Seq::<CallbackResult>::empty(),
    {
        SCStreamCallbackContainer { delivered: Vec::new() }
    }

    /// Hands the callback a successfully copied sample.
    pub fn call_output(&mut self, sample_buffer: CMSampleBuffer, output_type: SCStreamOutputType)
        ensures
            final(self).spec_delivered() == old(self).spec_delivered().push(
                Ok((sample_buffer, output_type)),
            ),
    {
        self.delivered.push(Ok((sample_buffer, output_type)));
    }

    /// Hands the callback an error.
    pub fn call_error(&mut self, error: SCStreamCallbackError)
        ensures
            final(self).spec_delivered() == old(self).spec_delivered().push(Err(error)),
    {
        self.delivered.push(Err(error));
    }

    pub fn entries(&self) -> (r: &Vec<CallbackResult>)
        ensures
            r@ == self.spec_delivered(),
    {
        &self.delivered
    }
}

/// The lifecycle of a capture session.
#[derive(Copy, Clone, Debug, PartialEq, Eq, Structural)]
pub enum StreamState {
    /// The native stream is allocated and its outputs attached.
    Created,
    /// The asynchronous start is issued; its completion is pending.
    Starting,
    /// The start completion reported success; samples may arrive.
    Started,
    /// The session ended, by request or by an unsolicited stop. Terminal.
    Stopped,
    /// The asynchronous start reported an error. Terminal.
    Failed,
}

/// The session as specifications see it: its state, the delivered log,
/// and the retain-count ledger of the objects it copied.
pub struct SessionModel {
    pub state: StreamState,
    pub delivered: Seq<CallbackResult>,
    pub counts: Seq<u64>,
}

/// One thing that can happen to a session.
pub enum StreamEvent {
    /// The owner asks the session to start.
    Start,
    /// The asynchronous start completes, cleanly or with an error.
    StartCompleted(Option<NativeError>),
    /// The capture subsystem delivers a transient sample of some output
    /// kind.
    Sample(TransientSampleBuffer, SCStreamOutputType),
    /// The capture subsystem reports an unsolicited stop.
    StoppedWithError(NativeError),
    /// The owner asks the session to stop and waits for confirmation.
    Stop,
}

/// The sample a successful copy of `t` produces, owning object `id`.
pub open spec fn spec_copied_sample(t: TransientSampleBuffer, id: usize) -> CMSampleBuffer {
    CMSampleBuffer {
        handle: OwnedHandle::spec_new(id),
        presentation_timestamp: t.presentation_timestamp,
        duration: t.duration,
        format: t.format,
        attachments: t.attachments,
        audio: t.audio,
    }
}

/// The callback error an unsolicited stop is classified as: the
/// user-stopped status code is a clean shutdown, everything else is a
/// fault carrying the native error.
pub open spec fn spec_classify_stop(error: NativeError) -> SCStreamCallbackError {
    if error.code == SCSTREAM_ERROR_CODE_USER_STOPPED {
        SCStreamCallbackError::StreamStopped
    } else {
        SCStreamCallbackError::Other(error)
    }
}

/// What `Start` does: only a freshly created session starts.
pub open spec fn spec_step_start(m: SessionModel) -> SessionModel {
    if m.state == StreamState::Created {
        SessionModel { state: StreamState::Starting, ..m }
    } else {
        m
    }
}

/// What the start completion does: success reaches `Started`; an error
/// reaches `Failed` and is delivered through the callback channel rather
/// than logged and lost.
pub open spec fn spec_step_start_completed(
    m: SessionModel,
    error: Option<NativeError>,
) -> SessionModel {
    if m.state == StreamState::Starting {
        match error {
            None => SessionModel { state: StreamState::Started, ..m },
            Some(e) => SessionModel {
                state: StreamState::Failed,
                delivered: m.delivered.push(Err(SCStreamCallbackError::Other(e))),
                ..m
            },
        }
    } else {
        m
    }
}

/// What a delivered sample does: in `Started` it is copied before the
/// callback returns — a successful copy allocates one retained object and
/// delivers the sample, a failed copy delivers the copy error and
/// allocates nothing. In every other state nothing is delivered.
pub open spec fn spec_step_sample(
    m: SessionModel,
    t: TransientSampleBuffer,
    kind: SCStreamOutputType,
) -> SessionModel {
    if m.state == StreamState::Started {
        if t.copy_status != 0 {
            SessionModel {
                delivered: m.delivered.push(Err(SCStreamCallbackError::SampleBufferCopyFailed)),
                ..m
            }
        } else {
            SessionModel {
                delivered: m.delivered.push(
                    Ok((spec_copied_sample(t, m.counts.len() as usize), kind)),
                ),
                counts: m.counts.push(1u64),
                ..m
            }
        }
    } else {
        m
    }
}

/// What an unsolicited stop does: a running or starting session becomes
/// `Stopped` and the classified error is delivered.
pub open spec fn spec_step_stopped_with_error(m: SessionModel, error: NativeError) -> SessionModel {
    if m.state == StreamState::Starting || m.state == StreamState::Started {
        SessionModel {
            state: StreamState::Stopped,
            delivered: m.delivered.push(Err(spec_classify_stop(error))),
            ..m
        }
    } else {
        m
    }
}

/// What `Stop` does: a running or starting session becomes `Stopped` and
/// the clean shutdown is delivered; a session that never started becomes
/// `Stopped` silently; the terminal states stay put.
pub open spec fn spec_step_stop(m: SessionModel) -> SessionModel {
    if m.state == StreamState::Starting || m.state == StreamState::Started {
        SessionModel {
            state: StreamState::Stopped,
            delivered: m.delivered.push(Err(SCStreamCallbackError::StreamStopped)),
            ..m
        }
    } else if m.state == StreamState::Created {
        SessionModel { state: StreamState::Stopped, ..m }
    } else {
        m
    }
}

/// One step of the session state machine.
pub open spec fn spec_step(m: SessionModel, e: StreamEvent) -> SessionModel {
    match e {
        StreamEvent::Start => spec_step_start(m),
        StreamEvent::StartCompleted(error) => spec_step_start_completed(m, error),
        StreamEvent::Sample(t, kind) => spec_step_sample(m, t, kind),
        StreamEvent::StoppedWithError(error) => spec_step_stopped_with_error(m, error),
        StreamEvent::Stop => spec_step_stop(m),
    }
}

/// The session after a whole sequence of events, oldest first.
pub open spec fn spec_run(m: SessionModel, events: Seq<StreamEvent>) -> SessionModel
    decreases events.len(),
{
    if events.len() == 0 {
        m
    } else {
        spec_run(spec_step(m, events[0]), events.drop_first())
    }
}

/// Race-free shutdown: a stopped or failed session is quiescent. Whatever
/// events arrive afterwards — late samples, completions, more stop
/// requests — the state does not move and nothing more is ever delivered,
/// so the user callback is never invoked again.
pub proof fn lemma_stopped_is_quiescent(m: SessionModel, events: Seq<StreamEvent>)
    requires
        m.state == StreamState::Stopped || m.state == StreamState::Failed,
    ensures
        spec_run(m, events) == m,
    decreases events.len(),
{
    if events.len() > 0 {
        assert(spec_step(m, events[0]) == m);
        lemma_stopped_is_quiescent(m, events.drop_first());
    }
}

/// No event rewrites history: one step leaves the delivered log as it was
/// or appends to it, so earlier deliveries keep their places.
pub proof fn lemma_delivery_is_append_only(m: SessionModel, e: StreamEvent)
    ensures
        spec_step(m, e).delivered.len() >= m.delivered.len(),
        forall|i: int|
            0 <= i < m.delivered.len() ==> spec_step(m, e).delivered[i] == m.delivered[i],
{
}

/// Samples are delivered in the order they were produced: over any whole
/// sequence of events, the log only grows at its end, so what was
/// delivered before stands unmoved after.
pub proof fn lemma_delivery_order_is_kept(m: SessionModel, events: Seq<StreamEvent>)
    ensures
        spec_run(m, events).delivered.len() >= m.delivered.len(),
        forall|i: int|
            0 <= i < m.delivered.len() ==> spec_run(m, events).delivered[i] == m.delivered[i],
    decreases events.len(),
{
    if events.len() > 0 {
        lemma_delivery_is_append_only(m, events[0]);
        lemma_delivery_order_is_kept(spec_step(m, events[0]), events.drop_first());
    }
}

/// A capture session: the filter and configuration it was built from, the
/// queue its completions arrive on, the callback container, the retain
/// ledger of the objects it copied, and its state.
#[derive(Debug)]
pub struct CaptureStream {
    state: StreamState,
    filter: SCContentFilter,
    config: SCStreamConfiguration,
    queue: DispatchQueue,
    callbacks: SCStreamCallbackContainer,
    objects: RetainTable,
}

impl CaptureStream {
    /// The session as specifications see it.
    pub closed spec fn model(&self) -> SessionModel {
        SessionModel {
            state: self.state,
            delivered: self.callbacks.spec_delivered(),
            counts: self.objects.counts(),
        }
    }

    pub closed spec fn spec_config(&self) -> SCStreamConfiguration {
        self.config
    }

    pub closed spec fn spec_filter(&self) -> SCContentFilter {
        self.filter
    }

    /// Builds a session from a filter, a configuration, a completion
    /// queue and a callback container. An invalid configuration is
    /// rejected whole — there is no partially initialized stream — and a
    /// valid one yields a `Created` session that has delivered whatever
    /// the container already held (normally nothing).
    pub fn new(
        filter: SCContentFilter,
        config: SCStreamConfiguration,
        queue: DispatchQueue,
        callbacks: SCStreamCallbackContainer,
    ) -> (r: Result<CaptureStream, StreamCreateError>)
        ensures
            config.spec_is_valid() <==> r is Ok,
            match r {
                Ok(s) => {
                    &&& s.model() == (SessionModel {
                        state: StreamState::Created,
                        delivered: callbacks.spec_delivered(),
                        counts: Seq::<u64>::empty(),
                    })
                    &&& s.spec_config() == config
                    &&& s.spec_filter() == filter
                },
                Err(e) => e is InvalidConfiguration,
            },
    {
        if !config.is_valid() {
            Err(StreamCreateError::InvalidConfiguration)
        } else {
            Ok(
                CaptureStream {
                    state: StreamState::Created,
                    filter,
                    config,
                    queue,
                    callbacks,
                    objects: RetainTable::new(),
                },
            )
        }
    }

    pub fn state(&self) -> (r: StreamState)
        ensures
            r == self.model().state,
    {
        self.state
    }

    /// The results handed to the user callback so far, in delivery order.
    pub fn callback_log(&self) -> (r: &Vec<CallbackResult>)
        ensures
            r@ == self.model().delivered,
    {
        self.callbacks.entries()
    }

    pub fn configuration(&self) -> (r: &SCStreamConfiguration)
        ensures
            r == self.spec_config(),
    {
        &self.config
    }

    pub fn filter(&self) -> (r: &SCContentFilter)
        ensures
            r == self.spec_filter(),
    {
        &self.filter
    }

    /// Issues the asynchronous start. The call returns at once; success or
    /// failure arrives later through `on_start_completed`.
    pub fn start(&mut self)
        ensures
            final(self).model() == spec_step(old(self).model(), StreamEvent::Start),
            final(self).spec_config() == old(self).spec_config(),
            final(self).spec_filter() == old(self).spec_filter(),
    {
        if self.state == StreamState::Created {
            self.state = StreamState::Starting;
        }
    }

    /// Receives the completion of the asynchronous start. A reported
    /// error makes the session `Failed` and is delivered through the
    /// callback channel, so no start error is ever silently dropped.
    pub fn on_start_completed(&mut self, error: Option<NativeError>)
        ensures
            final(self).model() == spec_step(
                old(self).model(),
                StreamEvent::StartCompleted(error),
            ),
            final(self).spec_config() == old(self).spec_config(),
            final(self).spec_filter() == old(self).spec_filter(),
    {
        if self.state == StreamState::Starting {
            match error {
                None => {
                    self.state = StreamState::Started;
                },
                Some(e) => {
                    self.state = StreamState::Failed;
                    self.callbacks.call_error(SCStreamCallbackError::Other(e));
                },
            }
        }
    }

    /// Receives one transient sample from the capture subsystem. In
    /// `Started` the sample is deep-copied before this returns — the copy
    /// is delivered on success, the copy error on failure — and in every
    /// other state the sample is dropped without a delivery.
    pub fn on_sample(&mut self, transient: TransientSampleBuffer, kind: SCStreamOutputType)
        ensures
            final(self).model() == spec_step(
                old(self).model(),
                StreamEvent::Sample(transient, kind),
            ),
            final(self).spec_config() == old(self).spec_config(),
            final(self).spec_filter() == old(self).spec_filter(),
    {
        if self.state == StreamState::Started {
            match CMSampleBuffer::copy_from_transient(&mut self.objects, transient) {
                Ok(buf) => {
                    self.callbacks.call_output(buf, kind);
                },
                Err(_) => {
                    self.callbacks.call_error(SCStreamCallbackError::SampleBufferCopyFailed);
                },
            }
        }
    }

    /// Receives an unsolicited stop from the capture subsystem. The
    /// user-stopped status code is delivered as a clean shutdown, any
    /// other code as a fault with the native error.
    pub fn on_stopped_with_error(&mut self, error: NativeError)
        ensures
            final(self).model() == spec_step(
                old(self).model(),
                StreamEvent::StoppedWithError(error),
            ),
            final(self).spec_config() == old(self).spec_config(),
            final(self).spec_filter() == old(self).spec_filter(),
    {
        if self.state == StreamState::Starting || self.state == StreamState::Started {
            self.state = StreamState::Stopped;
            let code = error.code;
            if code == SCSTREAM_ERROR_CODE_USER_STOPPED {
                self.callbacks.call_error(SCStreamCallbackError::StreamStopped);
            } else {
                self.callbacks.call_error(SCStreamCallbackError::Other(error));
            }
        }
    }

    /// Stops the session and confirms before returning: afterwards the
    /// session is terminal, the clean shutdown has been delivered if the
    /// session was running, and by `lemma_stopped_is_quiescent` no later
    /// event will ever reach the user callback.
    pub fn stop(&mut self)
        ensures
            final(self).model() == spec_step(old(self).model(), StreamEvent::Stop),
            final(self).model().state == StreamState::Stopped || final(self).model().state
                == StreamState::Failed,
            final(self).spec_config() == old(self).spec_config(),
            final(self).spec_filter() == old(self).spec_filter(),
    {
        if self.state == StreamState::Starting || self.state == StreamState::Started {
            self.state = StreamState::Stopped;
            self.callbacks.call_error(SCStreamCallbackError::StreamStopped);
        } else if self.state == StreamState::Created {
            self.state = StreamState::Stopped;
        }
    }
}

} // verus!
