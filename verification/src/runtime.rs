//! Decisions of the control surface and of the supervisor: when a change of
//! settings restarts the capture, what a volume command may touch, what a
//! clip holds, and when a capture is brought back.

use vstd::prelude::*;
use vstd::string::StringExecFns;
use crate::audio::{id_of, AudioGraph, AudioSourceId};
use crate::capture_devices::{AudioDevice, VideoDevice};
use crate::encoders::VideoEncoderDescriptor;
use crate::gst_capture::{CaptureLifecycle, CaptureStateView};
use crate::ring_buffer::{clip_of, packet_views, span_ms, Packet, PacketView, RingBuffer};
use crate::settings::{
    fallback_settings, first_violation, gain_in_range, law_valid_settings_unchanged,
    validate_settings, SettingsView, UserSettings, Volume,
};

verus! {

/// The two settings ask for different graphs: another device, encoder, frame
/// rate or bit rate, or another set of audio sources.
pub open spec fn topology_differs(a: SettingsView, b: SettingsView) -> bool {
    ||| a.video_device_id != b.video_device_id
    ||| a.system_audio_enabled != b.system_audio_enabled
    ||| a.mic_device_id != b.mic_device_id
    ||| a.video_encoder_id != b.video_encoder_id
    ||| a.framerate != b.framerate
    ||| a.bitrate_kbps != b.bitrate_kbps
}

/// The two settings differ in a gain.
pub open spec fn volumes_differ(a: SettingsView, b: SettingsView) -> bool {
    a.system_audio_volume != b.system_audio_volume || a.mic_volume != b.mic_volume
}

fn same_optional_text(a: &Option<String>, b: &Option<String>) -> (same: bool)
    ensures
        same == (crate::settings::text_of(*a) == crate::settings::text_of(*b)),
{
    match (a, b) {
        (Some(x), Some(y)) => *x == *y,
        (None, None) => true,
        _ => false,
    }
}

/// Whether going from settings `a` to settings `b` takes a new graph.
pub fn should_restart_capture(a: &UserSettings, b: &UserSettings) -> (restart: bool)
    ensures
        restart == topology_differs(a@, b@),
{
    a.video_device_id != b.video_device_id || a.system_audio_enabled != b.system_audio_enabled
        || !same_optional_text(&a.mic_device_id, &b.mic_device_id) || a.video_encoder_id
        != b.video_encoder_id || a.framerate != b.framerate || a.bitrate_kbps != b.bitrate_kbps
}

/// What is to be done once new settings are accepted.
#[derive(Debug)]
pub struct UpdatePlan {
    /// The settings to persist and to answer with.
    pub saved: UserSettings,
    /// The capture is to be stopped, the buffer cleared and a capture started
    /// with the new settings.
    pub restart: bool,
    /// The running graph's volume controls are to be set to the new gains.
    pub apply_volumes: bool,
}

/// Takes new settings in. Settings that fail validation are refused with the
/// first thing wrong and nothing changes. Otherwise they become the current
/// settings; the plan says whether the capture restarts or only its gains
/// are adjusted.
pub fn update_settings(
    current: &mut UserSettings,
    new_settings: UserSettings,
    videos: &[VideoDevice],
    microphones: &[AudioDevice],
    encoders: &[VideoEncoderDescriptor],
) -> (out: Result<UpdatePlan, String>)
    ensures
        match out {
            Ok(plan) => {
                &&& first_violation(new_settings@, videos@, microphones@, encoders@) is None
                &&& final(current)@ == new_settings@
                &&& plan.saved@ == new_settings@
                &&& plan.saved@ == fallback_settings(
                    new_settings@,
                    videos@,
                    microphones@,
                    encoders@,
                )
                &&& plan.restart == topology_differs(old(current)@, new_settings@)
                &&& plan.apply_volumes == (!plan.restart && volumes_differ(
                    old(current)@,
                    new_settings@,
                ))
            },
            Err(text) => {
                &&& first_violation(new_settings@, videos@, microphones@, encoders@) == Some(
                    text@,
                )
                &&& final(current)@ == old(current)@
            },
        },
{
    match validate_settings(&new_settings, videos, microphones, encoders) {
        Err(text) => Err(text),
        Ok(_) => {
            let restart = should_restart_capture(current, &new_settings);
            let volume_changed = current.system_audio_volume != new_settings.system_audio_volume
                || current.mic_volume != new_settings.mic_volume;
            proof {
                law_valid_settings_unchanged(new_settings@, videos@, microphones@, encoders@);
            }
            let saved = new_settings.clone();
            *current = new_settings;
            Ok(UpdatePlan { saved, restart, apply_volumes: !restart && volume_changed })
        },
    }
}

/// The current settings.
pub fn get_settings(current: &UserSettings) -> (out: UserSettings)
    ensures
        out@ == current@,
{
    current.clone()
}

/// Why a volume command was refused.
#[derive(Debug, Clone, Copy, PartialEq, Eq, Structural)]
pub enum VolumeError {
    /// The gain lies outside 0.0 to 2.0.
    OutOfRange,
    /// The running graph has no such source.
    VolumeNotAvailable,
}

impl VolumeError {
    pub fn message(&self) -> (text: String)
        ensures
            text@ == match *self {
                VolumeError::OutOfRange => "volume must be between 0.0 and 2.0"@,
                VolumeError::VolumeNotAvailable => "volume control not available"@,
            },
    {
        match self {
            VolumeError::OutOfRange => "volume must be between 0.0 and 2.0".to_owned(),
            VolumeError::VolumeNotAvailable => "volume control not available".to_owned(),
        }
    }
}

/// The graph holds a source named `source`.
pub open spec fn graph_has_source(graph: Option<AudioGraph>, source: AudioSourceId) -> bool {
    match graph {
        Some(g) => exists|i: int|
            0 <= i < g.sources@.len() && id_of(#[trigger] g.sources@[i]@) == source,
        None => false,
    }
}

/// Decides a volume command: the gain must lie in range and the running
/// graph must hold the source. On `Ok` the caller sets the source's volume
/// control to `value`.
pub fn set_audio_volume(graph: &Option<AudioGraph>, source: AudioSourceId, value: Volume) -> (out:
    Result<(), VolumeError>)
    ensures
        match out {
            Ok(_) => gain_in_range(value.bits) && graph_has_source(*graph, source),
            Err(VolumeError::OutOfRange) => !gain_in_range(value.bits),
            Err(VolumeError::VolumeNotAvailable) => gain_in_range(value.bits)
                && !graph_has_source(*graph, source),
        },
{
    if !value.in_range() {
        return Err(VolumeError::OutOfRange);
    }
    let present = match graph {
        Some(g) => g.has_volume(source),
        None => false,
    };
    if present {
        Ok(())
    } else {
        Err(VolumeError::VolumeNotAvailable)
    }
}

/// What the supervisor does on a tick.
#[derive(Debug, Clone, Copy, PartialEq, Eq, Structural)]
pub enum SupervisorAction {
    /// The daemon is shutting down: stop the capture, if any, and leave the
    /// loop.
    StopAndExit,
    /// No capture runs: restart with the current settings.
    Restart,
    /// The capture runs: nothing to do.
    Idle,
}

/// The state of the capture that the supervisor looks at, if there is one.
pub open spec fn capture_runs(capture: Option<&CaptureLifecycle>) -> bool {
    capture is Some && capture.unwrap()@.state == CaptureStateView::Running
}

/// What a watcher does when it finds its charge running or not.
pub open spec fn watch_action(shutdown_live: bool, running: bool) -> SupervisorAction {
    if !shutdown_live {
        SupervisorAction::StopAndExit
    } else if running {
        SupervisorAction::Idle
    } else {
        SupervisorAction::Restart
    }
}

/// Decides what a watcher does: wind up once shutdown is asked for, leave
/// alone what runs, bring back what does not.
pub fn watch(shutdown_live: bool, running: bool) -> (action: SupervisorAction)
    ensures
        action == watch_action(shutdown_live, running),
{
    if !shutdown_live {
        SupervisorAction::StopAndExit
    } else if running {
        SupervisorAction::Idle
    } else {
        SupervisorAction::Restart
    }
}

/// Decides a supervisor tick: a capture that is absent or not running is
/// restarted.
pub fn supervisor_tick(shutdown_live: bool, capture: Option<&CaptureLifecycle>) -> (action:
    SupervisorAction)
    ensures
        action == watch_action(shutdown_live, capture_runs(capture)),
{
    let running = match capture {
        Some(c) => c.is_running(),
        None => false,
    };
    watch(shutdown_live, running)
}

/// Why a lifecycle command was refused.
#[derive(Debug, Clone, Copy, PartialEq, Eq, Structural)]
pub enum LifecycleError {
    AlreadyRunning,
    NotRunning,
}

/// Decides a start command: refused while a capture exists.
pub fn start_capture(has_capture: bool) -> (out: Result<(), LifecycleError>)
    ensures
        out == if has_capture {
            Err::<(), LifecycleError>(LifecycleError::AlreadyRunning)
        } else {
            Ok::<(), LifecycleError>(())
        },
{
    if has_capture {
        Err(LifecycleError::AlreadyRunning)
    } else {
        Ok(())
    }
}

/// Sum of the payload lengths of `packets`.
pub open spec fn total_bytes(packets: Seq<PacketView>) -> int
    decreases packets.len(),
{
    if packets.len() == 0 {
        0
    } else {
        total_bytes(packets.drop_last()) + packets.last().data.len()
    }
}

/// The payloads of `packets`, one after the other.
pub open spec fn payload_of(packets: Seq<PacketView>) -> Seq<u8>
    decreases packets.len(),
{
    if packets.len() == 0 {
        Seq::<u8>::empty()
    } else {
        payload_of(packets.drop_last()) + packets.last().data
    }
}

/// The name of the clip file written at the time `stamp`.
pub open spec fn clip_name(stamp: Seq<char>) -> Seq<char> {
    "clip-"@ + stamp + ".ts"@
}

/// A clip cut from the buffer.
#[derive(Debug)]
pub struct Clip {
    /// The packets of the clip, oldest first.
    pub packets: Vec<Packet>,
    /// Distance from the first to the last packet.
    pub duration_ms: u64,
    /// Length of all payloads together; `usize::MAX` where it is beyond that.
    pub bytes: usize,
}

/// What the clip command answers with.
#[derive(Debug)]
pub struct ClipResponse {
    pub filename: String,
    pub packets: usize,
    pub duration_ms: u64,
    pub bytes: usize,
}

/// Why no clip was made.
#[derive(Debug, Clone, Copy, PartialEq, Eq, Structural)]
pub enum ClipError {
    EmptyBuffer,
}

/// `total` as a `usize`, or the largest `usize` where it does not fit.
pub open spec fn capped(total: int) -> int {
    if total > usize::MAX {
        usize::MAX as int
    } else {
        total
    }
}

/// Cuts a clip from the buffer, which is left empty. Fails where the buffer
/// holds no packet.
pub fn clip(ring_buffer: &mut RingBuffer) -> (out: Result<Clip, ClipError>)
    requires
        old(ring_buffer).wf(),
    ensures
        final(ring_buffer).wf(),
        final(ring_buffer).window_ms() == old(ring_buffer).window_ms(),
        final(ring_buffer).packets() == Seq::<PacketView>::empty(),
        final(ring_buffer).keyframes() == Seq::<u64>::empty(),
        match out {
            Ok(clip) => {
                &&& old(ring_buffer).packets().len() > 0
                &&& packet_views(clip.packets@) == clip_of(
                    old(ring_buffer).packets(),
                    old(ring_buffer).keyframes(),
                )
                &&& clip.duration_ms == span_ms(packet_views(clip.packets@))
                &&& clip.bytes == capped(total_bytes(packet_views(clip.packets@)))
            },
            Err(_) => old(ring_buffer).packets().len() == 0,
        },
{
    let ghost before = ring_buffer.packets();
    let ghost keys = ring_buffer.keyframes();
    let packets = ring_buffer.drain_from_keyframe();
    proof {
        lemma_clip_nonempty(before, keys);
    }
    let n = packets.len();
    if n == 0 {
        return Err(ClipError::EmptyBuffer);
    }
    let duration_ms = packets[n - 1].pts_ms.saturating_sub(packets[0].pts_ms);
    let ghost views = packet_views(packets@);
    let mut bytes: usize = 0;
    let mut i: usize = 0;
    while i < n
        invariant
            n == packets@.len(),
            views == packet_views(packets@),
            i <= n,
            total_bytes(views.take(i as int)) >= 0,
            bytes == capped(total_bytes(views.take(i as int))),
        decreases n - i,
    {
        proof {
            assert(views.take(i + 1).drop_last() =~= views.take(i as int));
            assert(views.take(i + 1).last().data == packets@[i as int].data@);
        }
        bytes = bytes.saturating_add(packets[i].data.len());
        i = i + 1;
    }
    proof {
        assert(views.take(n as int) =~= views);
    }
    Ok(Clip { packets, duration_ms, bytes })
}

/// A clip holds a packet exactly where the buffer does: the newest packet
/// always belongs to it.
pub proof fn lemma_clip_nonempty(packets: Seq<PacketView>, keyframes: Seq<u64>)
    ensures
        clip_of(packets, keyframes).len() == 0 <==> packets.len() == 0,
        packets.len() > 0 ==> clip_of(packets, keyframes).last() == packets.last(),
{
    if keyframes.len() > 0 && packets.len() > 0 && packets.last().pts_ms >= keyframes[0] {
        reveal(Seq::filter);
        let keep = crate::ring_buffer::at_or_after(keyframes[0]);
        assert(keep(packets.last()));
        assert(packets.filter(keep) == packets.drop_last().filter(keep).push(packets.last()));
    }
}

impl Clip {
    /// The bytes of the clip file: the payloads of the packets, one after
    /// the other.
    pub fn payload(&self) -> (out: Vec<u8>)
        ensures
            out@ == payload_of(packet_views(self.packets@)),
    {
        let ghost views = packet_views(self.packets@);
        let mut out: Vec<u8> = Vec::new();
        let n = self.packets.len();
        let mut i: usize = 0;
        while i < n
            invariant
                n == self.packets@.len(),
                views == packet_views(self.packets@),
                i <= n,
                out@ == payload_of(views.take(i as int)),
            decreases n - i,
        {
            let data = &self.packets[i].data;
            let ghost start = out@;
            let m = data.len();
            let mut j: usize = 0;
            while j < m
                invariant
                    m == data@.len(),
                    j <= m,
                    out@ == start + data@.take(j as int),
                decreases m - j,
            {
                let byte = data[j];
                proof {
                    assert(start + data@.take(j + 1) =~= (start + data@.take(j as int)).push(byte));
                }
                out.push(byte);
                j = j + 1;
            }
            proof {
                assert(data@.take(m as int) =~= data@);
                assert(views.take(i + 1).drop_last() =~= views.take(i as int));
                assert(views.take(i + 1).last().data == data@);
            }
            i = i + 1;
        }
        proof {
            assert(views.take(n as int) =~= views);
        }
        out
    }

    /// The answer to the clip command for a file written now: the file is
    /// named after the local time.
    pub fn response_now(&self) -> (out: ClipResponse)
        ensures
            exists|stamp: Seq<char>| out.filename@ == clip_name(stamp),
            out.packets == self.packets@.len(),
            out.duration_ms == self.duration_ms,
            out.bytes == self.bytes,
    {
        let stamp = local_stamp();
        let out = self.response(stamp.as_str());
        proof {
            assert(out.filename@ == clip_name(stamp@));
        }
        out
    }

    /// The answer to the clip command for a file written at the time
    /// `stamp`.
    pub fn response(&self, stamp: &str) -> (out: ClipResponse)
        ensures
            out.filename@ == clip_name(stamp@),
            out.packets == self.packets@.len(),
            out.duration_ms == self.duration_ms,
            out.bytes == self.bytes,
    {
        ClipResponse {
            filename: clip_filename(stamp),
            packets: self.packets.len(),
            duration_ms: self.duration_ms,
            bytes: self.bytes,
        }
    }
}

/// The name of the clip file written at the time `stamp`.
pub fn clip_filename(stamp: &str) -> (name: String)
    ensures
        name@ == clip_name(stamp@),
{
    let mut name = "clip-".to_owned();
    name.append(stamp);
    name.append(".ts");
    name
}

/// The local time as `YYYY-MM-DD_HH-MM-SS`, from
/// `chrono::Local::now().format(..)`. Nothing is claimed of the text: it
/// depends on the clock and on the time zone.
#[verifier::external_body]
fn local_stamp() -> String {
    chrono::Local::now().format("%Y-%m-%d_%H-%M-%S").to_string()
}

/// What the status command answers with.
#[derive(Debug)]
pub struct StatusResponse {
    pub settings: UserSettings,
    pub capturing: bool,
    pub buffer_seconds: u32,
    pub ring_buffer_packets: usize,
}

/// The status of the daemon: its settings, whether a capture exists, and how
/// much the buffer holds. The seconds are whole seconds, reduced modulo
/// 2^32.
pub fn get_status(settings: &UserSettings, capturing: bool, ring_buffer: &RingBuffer) -> (out:
    StatusResponse)
    ensures
        out.settings@ == settings@,
        out.capturing == capturing,
        out.buffer_seconds == (span_ms(ring_buffer.packets()) / 1000) % 0x1_0000_0000,
        out.ring_buffer_packets == ring_buffer.packets().len(),
{
    let seconds: u64 = (ring_buffer.duration_ms() / 1000) % 0x1_0000_0000u64;
    StatusResponse {
        settings: settings.clone(),
        capturing,
        buffer_seconds: seconds as u32,
        ring_buffer_packets: ring_buffer.len(),
    }
}

/// What the shutdown command answers with.
#[derive(Debug, Clone, Copy, PartialEq, Eq, Structural)]
pub struct ShutdownResponse {
    pub shutting_down: bool,
}

} // verus!
