//! Lifecycle of a capture: its states, the events that move it from one to
//! the next, and the ordered steps that take it down.

use vstd::prelude::*;
use vstd::string::StringExecFns;
use crate::audio::{audio_sources, source_views, AudioGraph};
use crate::encoders::{encoder_index_from, VideoEncoderDescriptor};
use crate::ring_buffer::{record_keyframe, Packet, PacketView, RingBuffer};
use crate::settings::UserSettings;
use crate::video::{needs_d3d11, needs_d3d12, VideoGraph};

verus! {

/// Where a capture stands.
#[derive(Debug)]
pub enum CaptureState {
    Starting,
    Running,
    Failed(String),
    Stopped,
}

/// Mathematical value of a [`CaptureState`].
pub enum CaptureStateView {
    Starting,
    Running,
    Failed(Seq<char>),
    Stopped,
}

impl View for CaptureState {
    type V = CaptureStateView;

    open spec fn view(&self) -> CaptureStateView {
        match *self {
            CaptureState::Starting => CaptureStateView::Starting,
            CaptureState::Running => CaptureStateView::Running,
            CaptureState::Failed(reason) => CaptureStateView::Failed(reason@),
            CaptureState::Stopped => CaptureStateView::Stopped,
        }
    }
}

impl Clone for CaptureState {
    fn clone(&self) -> (out: Self)
        ensures
            out@ == self@,
    {
        match self {
            CaptureState::Starting => CaptureState::Starting,
            CaptureState::Running => CaptureState::Running,
            CaptureState::Failed(reason) => CaptureState::Failed(reason.clone()),
            CaptureState::Stopped => CaptureState::Stopped,
        }
    }
}

/// What can happen to a capture.
#[derive(Debug)]
pub enum CaptureEvent {
    /// The pipeline plays and the background threads run.
    Started,
    /// Building, linking or starting the pipeline failed.
    StartFailed(String),
    /// The pipeline reported an error.
    BusError(String),
    /// The pipeline reported the end of the stream.
    BusEos,
    /// The pipeline reported a warning.
    BusWarning(String),
    /// The capture was taken down.
    StopFinished,
}

/// Mathematical value of a [`CaptureEvent`].
pub enum CaptureEventView {
    Started,
    StartFailed(Seq<char>),
    BusError(Seq<char>),
    BusEos,
    BusWarning(Seq<char>),
    StopFinished,
}

impl View for CaptureEvent {
    type V = CaptureEventView;

    open spec fn view(&self) -> CaptureEventView {
        match *self {
            CaptureEvent::Started => CaptureEventView::Started,
            CaptureEvent::StartFailed(reason) => CaptureEventView::StartFailed(reason@),
            CaptureEvent::BusError(reason) => CaptureEventView::BusError(reason@),
            CaptureEvent::BusEos => CaptureEventView::BusEos,
            CaptureEvent::BusWarning(text) => CaptureEventView::BusWarning(text@),
            CaptureEvent::StopFinished => CaptureEventView::StopFinished,
        }
    }
}

/// One step of taking a capture down.
#[derive(Debug, Clone, Copy, PartialEq, Eq, Structural)]
pub enum ShutdownStep {
    /// Raise the callback guard, swap in empty sink callbacks and switch the
    /// sink's signals off.
    SilenceSink,
    /// Raise the stop flag.
    RaiseStopFlag,
    /// Send end-of-stream downstream so that muxer and encoders flush.
    SendEos,
    /// Take the pipeline to its null state.
    SetPipelineNull,
    /// Close the packet channel's sender.
    CloseChannel,
    /// Wait for the consumer thread.
    JoinConsumer,
    /// Wait for the bus thread.
    JoinBus,
    /// Remove the keyframe probe.
    RemoveProbe,
    /// Record the state `Stopped`.
    MarkStopped,
}

/// Mathematical value of a [`CaptureLifecycle`].
pub struct LifecycleView {
    pub state: CaptureStateView,
    pub stop_flag: bool,
    pub callback_guard: bool,
}

/// How far along its life a state is.
pub open spec fn rank(s: CaptureStateView) -> nat {
    match s {
        CaptureStateView::Starting => 0,
        CaptureStateView::Running => 1,
        CaptureStateView::Failed(_) => 2,
        CaptureStateView::Stopped => 3,
    }
}

/// The state that follows `s` when `e` happens.
pub open spec fn next_state(s: CaptureStateView, e: CaptureEventView) -> CaptureStateView {
    match (s, e) {
        (CaptureStateView::Stopped, _) => CaptureStateView::Stopped,
        (_, CaptureEventView::StopFinished) => CaptureStateView::Stopped,
        (CaptureStateView::Starting, CaptureEventView::Started) => CaptureStateView::Running,
        (CaptureStateView::Starting, CaptureEventView::StartFailed(reason)) => {
            CaptureStateView::Failed(reason)
        },
        (CaptureStateView::Running, CaptureEventView::BusError(reason)) => {
            CaptureStateView::Failed(reason)
        },
        (CaptureStateView::Running, CaptureEventView::BusEos) => CaptureStateView::Failed("eos"@),
        _ => s,
    }
}

/// The event raises the stop flag: an error seen while running, or the end of
/// a shutdown.
pub open spec fn raises_stop_flag(s: CaptureStateView, e: CaptureEventView) -> bool {
    match (s, e) {
        (CaptureStateView::Stopped, _) => false,
        (_, CaptureEventView::StopFinished) => true,
        (CaptureStateView::Running, CaptureEventView::BusError(_)) => true,
        _ => false,
    }
}

/// The lifecycle after `e` happens. Flags are raised, never lowered.
pub open spec fn step(l: LifecycleView, e: CaptureEventView) -> LifecycleView {
    LifecycleView {
        state: next_state(l.state, e),
        stop_flag: l.stop_flag || raises_stop_flag(l.state, e),
        callback_guard: l.callback_guard || raises_stop_flag(l.state, e),
    }
}

/// The steps of a shutdown, in the order in which they are taken.
pub open spec fn shutdown_steps() -> Seq<ShutdownStep> {
    seq![
        ShutdownStep::SilenceSink,
        ShutdownStep::RaiseStopFlag,
        ShutdownStep::SendEos,
        ShutdownStep::SetPipelineNull,
        ShutdownStep::CloseChannel,
        ShutdownStep::JoinConsumer,
        ShutdownStep::JoinBus,
        ShutdownStep::RemoveProbe,
        ShutdownStep::MarkStopped,
    ]
}

/// State and flags of one capture, from start to stop.
#[derive(Debug)]
pub struct CaptureLifecycle {
    state: CaptureState,
    stop_flag: bool,
    callback_guard: bool,
}

impl View for CaptureLifecycle {
    type V = LifecycleView;

    closed spec fn view(&self) -> LifecycleView {
        LifecycleView {
            state: self.state@,
            stop_flag: self.stop_flag,
            callback_guard: self.callback_guard,
        }
    }
}

impl CaptureLifecycle {
    /// A capture that is about to start.
    pub fn new() -> (l: Self)
        ensures
            l@ == (LifecycleView {
                state: CaptureStateView::Starting,
                stop_flag: false,
                callback_guard: false,
            }),
    {
        CaptureLifecycle { state: CaptureState::Starting, stop_flag: false, callback_guard: false }
    }

    pub fn state(&self) -> (s: CaptureState)
        ensures
            s@ == self@.state,
    {
        self.state.clone()
    }

    pub fn is_running(&self) -> (running: bool)
        ensures
            running == (self@.state == CaptureStateView::Running),
    {
        match &self.state {
            CaptureState::Running => true,
            _ => false,
        }
    }

    pub fn is_stopped(&self) -> (stopped: bool)
        ensures
            stopped == (self@.state == CaptureStateView::Stopped),
    {
        match &self.state {
            CaptureState::Stopped => true,
            _ => false,
        }
    }

    /// Whether the bus loop and the consumer are to wind up.
    pub fn stop_flag(&self) -> (raised: bool)
        ensures
            raised == self@.stop_flag,
    {
        self.stop_flag
    }

    /// Whether the sink callback is to return at once.
    pub fn callback_guard(&self) -> (raised: bool)
        ensures
            raised == self@.callback_guard,
    {
        self.callback_guard
    }

    /// Moves the lifecycle on by one event.
    pub fn apply(&mut self, event: CaptureEvent)
        ensures
            final(self)@ == step(old(self)@, event@),
    {
        if self.is_stopped() {
            return ;
        }
        let starting = match &self.state {
            CaptureState::Starting => true,
            _ => false,
        };
        let running = self.is_running();
        match event {
            CaptureEvent::StopFinished => {
                self.state = CaptureState::Stopped;
                self.stop_flag = true;
                self.callback_guard = true;
            },
            CaptureEvent::Started => {
                if starting {
                    self.state = CaptureState::Running;
                }
            },
            CaptureEvent::StartFailed(reason) => {
                if starting {
                    self.state = CaptureState::Failed(reason);
                }
            },
            CaptureEvent::BusError(reason) => {
                if running {
                    self.state = CaptureState::Failed(reason);
                    self.stop_flag = true;
                    self.callback_guard = true;
                }
            },
            CaptureEvent::BusEos => {
                if running {
                    self.state = CaptureState::Failed("eos".to_owned());
                }
            },
            CaptureEvent::BusWarning(_) => {},
        }
    }

    /// Takes the capture down: hands out the steps to perform, in order, and
    /// records the outcome. A capture that is stopped already is left alone
    /// and nothing is handed out.
    pub fn stop(&mut self) -> (plan: Vec<ShutdownStep>)
        ensures
            old(self)@.state == CaptureStateView::Stopped ==> plan@ == Seq::<ShutdownStep>::empty()
                && final(self)@ == old(self)@,
            old(self)@.state != CaptureStateView::Stopped ==> plan@ == shutdown_steps()
                && final(self)@ == step(old(self)@, CaptureEventView::StopFinished),
            final(self)@.state == CaptureStateView::Stopped,
    {
        self.stop_inner()
    }

    fn stop_inner(&mut self) -> (plan: Vec<ShutdownStep>)
        ensures
            old(self)@.state == CaptureStateView::Stopped ==> plan@ == Seq::<ShutdownStep>::empty()
                && final(self)@ == old(self)@,
            old(self)@.state != CaptureStateView::Stopped ==> plan@ == shutdown_steps()
                && final(self)@ == step(old(self)@, CaptureEventView::StopFinished),
            final(self)@.state == CaptureStateView::Stopped,
    {
        let mut plan: Vec<ShutdownStep> = Vec::new();
        if self.is_stopped() {
            return plan;
        }
        plan.push(ShutdownStep::SilenceSink);
        plan.push(ShutdownStep::RaiseStopFlag);
        plan.push(ShutdownStep::SendEos);
        plan.push(ShutdownStep::SetPipelineNull);
        plan.push(ShutdownStep::CloseChannel);
        plan.push(ShutdownStep::JoinConsumer);
        plan.push(ShutdownStep::JoinBus);
        plan.push(ShutdownStep::RemoveProbe);
        plan.push(ShutdownStep::MarkStopped);
        self.apply(CaptureEvent::StopFinished);
        proof {
            assert(plan@ =~= shutdown_steps());
        }
        plan
    }
}

/// Why a capture could not be started or controlled.
#[derive(Debug)]
pub enum CaptureError {
    /// The settings cannot be used.
    ConfigInvalid(String),
    /// The media framework lacks an element.
    ElementMissing(String),
    /// Two elements could not be linked.
    LinkFailed(String, String),
    /// The pipeline refused a state change.
    StateChangeFailed,
}

/// The error in words.
pub open spec fn error_text(e: CaptureError) -> Seq<char> {
    match e {
        CaptureError::ConfigInvalid(text) => text@,
        CaptureError::ElementMissing(name) => "missing element "@ + name@,
        CaptureError::LinkFailed(from, to) => "failed to link "@ + from@ + " -> "@ + to@,
        CaptureError::StateChangeFailed => "failed to start"@,
    }
}

impl CaptureError {
    /// The error in words; for a failed link the words name the pair.
    pub fn message(&self) -> (text: String)
        ensures
            text@ == error_text(*self),
    {
        match self {
            CaptureError::ConfigInvalid(text) => text.clone(),
            CaptureError::ElementMissing(name) => {
                let mut text = "missing element ".to_owned();
                text.append(name.as_str());
                text
            },
            CaptureError::LinkFailed(from, to) => {
                let mut text = "failed to link ".to_owned();
                text.append(from.as_str());
                text.append(" -> ");
                text.append(to.as_str());
                text
            },
            CaptureError::StateChangeFailed => "failed to start".to_owned(),
        }
    }
}

/// Checks what a capture needs of the settings before anything is built: a
/// microphone, where one is named, has a name.
pub fn validate_config(config: &UserSettings) -> (out: Result<(), CaptureError>)
    ensures
        match out {
            Ok(_) => config@.mic_device_id != Some(Seq::<char>::empty()),
            Err(CaptureError::ConfigInvalid(text)) => config@.mic_device_id == Some(
                Seq::<char>::empty(),
            ) && text@ == "microphone device id is empty"@,
            Err(_) => false,
        },
{
    match &config.mic_device_id {
        Some(id) => {
            if id.as_str().unicode_len() == 0 {
                proof {
                    assert(id@ =~= Seq::<char>::empty());
                }
                return Err(CaptureError::ConfigInvalid("microphone device id is empty".to_owned()));
            }
        },
        None => {},
    }
    Ok(())
}

/// Number of packets that may wait between the sink and the buffer.
pub const PACKET_CHANNEL_CAPACITY: usize = 1024usize;

/// Longest wait for a bus message, in milliseconds.
pub const BUS_POLL_MS: u64 = 200u64;

/// The graph to build for a capture.
#[derive(Debug)]
pub struct GraphPlan {
    pub video: VideoGraph,
    pub audio: Option<AudioGraph>,
}

/// Plans the graph for `config`. The settings are checked first, then the
/// video branch is planned, then the audio branch; the first failure is the
/// error.
pub fn plan_graph(config: &UserSettings, encoders: &[VideoEncoderDescriptor]) -> (out: Result<
    GraphPlan,
    CaptureError,
>)
    ensures
        match out {
            Ok(plan) => {
                &&& config@.mic_device_id != Some(Seq::<char>::empty())
                &&& encoder_index_from(encoders@, config@.video_encoder_id, 0) is Some
                &&& !needs_d3d12(
                    encoders@[encoder_index_from(encoders@, config@.video_encoder_id, 0).unwrap()],
                )
                &&& plan.video.source->requires_d3d11 == needs_d3d11(
                    encoders@[encoder_index_from(encoders@, config@.video_encoder_id, 0).unwrap()],
                )
                &&& plan.video.source->monitor_id@ == config@.video_device_id
                &&& plan.video.source->framerate == config@.framerate
                &&& plan.video.encoder.encoder_id@ == config@.video_encoder_id
                &&& plan.video.encoder.framerate == config@.framerate
                &&& plan.video.encoder.bitrate_kbps == config@.bitrate_kbps
                &&& plan.audio is None <==> audio_sources(config@).len() == 0
                &&& plan.audio is Some ==> plan.audio.unwrap().wf() && source_views(
                    plan.audio.unwrap().sources@,
                ) == audio_sources(config@)
            },
            Err(CaptureError::ConfigInvalid(text)) => {
                if config@.mic_device_id == Some(Seq::<char>::empty()) {
                    text@ == "microphone device id is empty"@
                } else {
                    match encoder_index_from(encoders@, config@.video_encoder_id, 0) {
                        Some(i) => needs_d3d12(encoders@[i]) && text@
                            == "D3D12 encoders are not supported"@,
                        None => text@ == "selected encoder not available"@,
                    }
                }
            },
            Err(_) => false,
        },
{
    match validate_config(config) {
        Err(e) => {
            return Err(e);
        },
        Ok(_) => {},
    }
    let video = match VideoGraph::build(config, encoders) {
        Ok(v) => v,
        Err(e) => {
            return Err(e);
        },
    };
    let audio = AudioGraph::build(config);
    Ok(GraphPlan { video, audio })
}

/// The packet made of a sample that the sink hands over: none while the
/// callback guard is raised or where the sample has no buffer; otherwise the
/// buffer's bytes, stamped with the buffer's own time or, where it has none,
/// with the time since the capture started.
pub fn on_sample(
    callback_guard: bool,
    buffer: Option<Vec<u8>>,
    stamp_ms: Option<u64>,
    elapsed_ms: u64,
) -> (out: Option<Packet>)
    ensures
        out is Some <==> !callback_guard && buffer is Some,
        out is Some ==> out.unwrap()@ == (PacketView {
            pts_ms: match stamp_ms {
                Some(t) => t,
                None => elapsed_ms,
            },
            data: buffer.unwrap()@,
        }),
{
    if callback_guard {
        return None;
    }
    match buffer {
        Some(data) => {
            let pts_ms = match stamp_ms {
                Some(t) => t,
                None => elapsed_ms,
            };
            Some(Packet { pts_ms, data })
        },
        None => None,
    }
}

/// Looks at a buffer that leaves the video parser: a buffer that is no delta
/// unit starts a keyframe, whose time is recorded.
pub fn on_parsed_buffer(ring_buffer: &mut RingBuffer, delta_unit: bool, stamp_ms: Option<u64>)
    requires
        old(ring_buffer).wf(),
    ensures
        final(ring_buffer).wf(),
        final(ring_buffer).window_ms() == old(ring_buffer).window_ms(),
        final(ring_buffer).packets() == old(ring_buffer).packets(),
        final(ring_buffer).keyframes() == if !delta_unit && stamp_ms is Some {
            record_keyframe(old(ring_buffer).keyframes(), stamp_ms.unwrap())
        } else {
            old(ring_buffer).keyframes()
        },
{
    if !delta_unit {
        match stamp_ms {
            Some(ts) => {
                ring_buffer.push_keyframe_pts(ts);
            },
            None => {},
        }
    }
}

/// No event takes a capture back: the state's rank never falls, a raised
/// flag stays raised, and `Stopped` is left by no event.
pub proof fn law_state_never_regresses(l: LifecycleView, e: CaptureEventView)
    ensures
        rank(l.state) <= rank(step(l, e).state),
        l.stop_flag ==> step(l, e).stop_flag,
        l.callback_guard ==> step(l, e).callback_guard,
        l.state == CaptureStateView::Stopped ==> step(l, e) == l,
{
}

/// A capture runs only after it started, and every event but the end of a
/// shutdown leaves a failed capture failed.
pub proof fn law_state_sequence(l: LifecycleView, e: CaptureEventView)
    ensures
        step(l, e).state == CaptureStateView::Running ==> l.state == CaptureStateView::Running
            || (l.state == CaptureStateView::Starting && e == CaptureEventView::Started),
        l.state is Failed && e != CaptureEventView::StopFinished ==> step(l, e).state == l.state,
        step(l, CaptureEventView::StopFinished).state == CaptureStateView::Stopped,
{
}

/// Stopping twice is stopping once.
pub proof fn law_stop_idempotent(l: LifecycleView)
    ensures
        step(step(l, CaptureEventView::StopFinished), CaptureEventView::StopFinished) == step(
            l,
            CaptureEventView::StopFinished,
        ),
{
}

/// In a shutdown the sink is silenced and the stop flag raised before the
/// pipeline is touched, both threads are joined after the channel is closed,
/// and the state is recorded last.
pub proof fn law_shutdown_order()
    ensures
        shutdown_steps().len() == 9,
        shutdown_steps()[0] == ShutdownStep::SilenceSink,
        shutdown_steps()[1] == ShutdownStep::RaiseStopFlag,
        shutdown_steps()[2] == ShutdownStep::SendEos,
        shutdown_steps()[3] == ShutdownStep::SetPipelineNull,
        shutdown_steps()[4] == ShutdownStep::CloseChannel,
        shutdown_steps()[5] == ShutdownStep::JoinConsumer,
        shutdown_steps()[6] == ShutdownStep::JoinBus,
        shutdown_steps()[7] == ShutdownStep::RemoveProbe,
        shutdown_steps()[8] == ShutdownStep::MarkStopped,
{
}

} // verus!
