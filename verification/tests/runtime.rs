use clip_service::audio::{AudioGraph, AudioSourceId};
use clip_service::capture_devices::{AudioDevice, VideoDevice, VideoDeviceKind};
use clip_service::encoders::VideoEncoderDescriptor;
use clip_service::gst_capture::{CaptureEvent, CaptureLifecycle};
use clip_service::logger::{
    debug, error, info, recent_logs, warn, LogBuffer, LogEvent, LogLevel, MAX_BUFFERED_LOGS,
};
use clip_service::ring_buffer::{Packet, RingBuffer};
use clip_service::runtime::{
    clip, clip_filename, get_settings, get_status, set_audio_volume,
    should_restart_capture, start_capture, supervisor_tick, update_settings, ClipError,
    LifecycleError, ShutdownResponse, SupervisorAction, VolumeError,
};
use clip_service::settings::{UserSettings, Volume};

fn volume(gain: f32) -> Volume {
    Volume { bits: gain.to_bits() }
}

fn base() -> UserSettings {
    UserSettings {
        video_device_id: "screen:0".to_string(),
        system_audio_enabled: true,
        system_audio_volume: volume(1.0),
        mic_device_id: Some("mic-a".to_string()),
        mic_volume: volume(1.0),
        video_encoder_id: "x264enc".to_string(),
        framerate: 60,
        bitrate_kbps: 20_000,
        clips_dir: "clips".to_string(),
    }
}

fn videos() -> Vec<VideoDevice> {
    vec![
        VideoDevice { id: "screen:0".to_string(), label: "A".to_string(), kind: VideoDeviceKind::Screen },
        VideoDevice { id: "screen:1".to_string(), label: "B".to_string(), kind: VideoDeviceKind::Screen },
    ]
}

fn microphones() -> Vec<AudioDevice> {
    vec![AudioDevice { id: "mic-a".to_string(), label: "Mic".to_string(), is_input: true }]
}

fn encoders() -> Vec<VideoEncoderDescriptor> {
    vec![VideoEncoderDescriptor {
        id: "x264enc".to_string(),
        name: "x264".to_string(),
        is_hardware: false,
        required_memory: None,
    }]
}

fn packet(pts_ms: u64, len: usize) -> Packet {
    Packet { pts_ms, data: vec![pts_ms as u8; len] }
}

#[test]
fn topology_changes_restart_the_capture() {
    let a = base();
    assert!(!should_restart_capture(&a, &base()));

    let mut b = base();
    b.system_audio_enabled = false;
    assert!(should_restart_capture(&a, &b));

    let mut b = base();
    b.video_device_id = "screen:1".to_string();
    assert!(should_restart_capture(&a, &b));

    let mut b = base();
    b.mic_device_id = None;
    assert!(should_restart_capture(&a, &b));

    let mut b = base();
    b.mic_device_id = Some("mic-b".to_string());
    assert!(should_restart_capture(&a, &b));

    let mut b = base();
    b.video_encoder_id = "other".to_string();
    assert!(should_restart_capture(&a, &b));

    let mut b = base();
    b.framerate = 30;
    assert!(should_restart_capture(&a, &b));

    let mut b = base();
    b.bitrate_kbps = 1;
    assert!(should_restart_capture(&a, &b));
}

#[test]
fn volume_and_directory_changes_do_not_restart() {
    let a = base();
    let mut b = base();
    b.mic_volume = volume(0.3);
    b.system_audio_volume = volume(1.7);
    b.clips_dir = "elsewhere".to_string();
    assert!(!should_restart_capture(&a, &b));
}

#[test]
fn update_with_toggled_system_audio_restarts() {
    let mut current = base();
    let mut wanted = base();
    wanted.system_audio_enabled = false;
    let plan = update_settings(&mut current, wanted, &videos(), &microphones(), &encoders()).unwrap();
    assert!(plan.restart);
    assert!(!plan.apply_volumes);
    assert!(!plan.saved.system_audio_enabled);
    assert!(!get_settings(&current).system_audio_enabled);
}

#[test]
fn update_with_only_mic_volume_adjusts_in_place() {
    let mut current = base();
    let mut wanted = base();
    wanted.mic_volume = volume(0.4);
    let plan = update_settings(&mut current, wanted, &videos(), &microphones(), &encoders()).unwrap();
    assert!(!plan.restart);
    assert!(plan.apply_volumes);
    assert_eq!(plan.saved.mic_volume, volume(0.4));
    assert_eq!(get_settings(&current).mic_volume, volume(0.4));
    assert_eq!(get_settings(&current).system_audio_volume, volume(1.0));
}

#[test]
fn update_with_topology_and_volume_change_only_restarts() {
    let mut current = base();
    let mut wanted = base();
    wanted.framerate = 30;
    wanted.mic_volume = volume(0.4);
    let plan = update_settings(&mut current, wanted, &videos(), &microphones(), &encoders()).unwrap();
    assert!(plan.restart);
    assert!(!plan.apply_volumes);
}

#[test]
fn update_with_same_settings_does_nothing() {
    let mut current = base();
    let plan = update_settings(&mut current, base(), &videos(), &microphones(), &encoders()).unwrap();
    assert!(!plan.restart);
    assert!(!plan.apply_volumes);
}

#[test]
fn updated_settings_are_what_is_saved() {
    let mut current = base();
    let mut wanted = base();
    wanted.video_device_id = "screen:1".to_string();
    wanted.mic_device_id = None;
    wanted.clips_dir = "captures".to_string();
    wanted.system_audio_volume = volume(0.125);
    let plan = update_settings(&mut current, wanted, &videos(), &microphones(), &encoders()).unwrap();
    let read_back = get_settings(&current);
    assert_eq!(read_back.video_device_id, plan.saved.video_device_id);
    assert_eq!(read_back.mic_device_id, plan.saved.mic_device_id);
    assert_eq!(read_back.clips_dir, plan.saved.clips_dir);
    assert_eq!(read_back.system_audio_volume.bits, plan.saved.system_audio_volume.bits);
    assert_eq!(read_back.video_device_id, "screen:1");
    assert_eq!(read_back.clips_dir, "captures");
}

#[test]
fn invalid_update_is_refused_and_changes_nothing() {
    let mut current = base();
    let mut wanted = base();
    wanted.video_encoder_id = "gone".to_string();
    wanted.framerate = 24;
    let refused = update_settings(&mut current, wanted, &videos(), &microphones(), &encoders());
    assert_eq!(refused.unwrap_err(), "selected video encoder is not available");
    assert_eq!(current.framerate, 60);
    assert_eq!(current.video_encoder_id, "x264enc");
}

#[test]
fn volume_command_checks_range_then_source() {
    let mut only_system = base();
    only_system.mic_device_id = None;
    let graph = AudioGraph::build(&only_system);
    assert!(graph.is_some());

    assert_eq!(set_audio_volume(&graph, AudioSourceId::System, volume(0.0)), Ok(()));
    assert_eq!(set_audio_volume(&graph, AudioSourceId::System, volume(2.0)), Ok(()));
    assert_eq!(
        set_audio_volume(&graph, AudioSourceId::System, volume(2.5)),
        Err(VolumeError::OutOfRange)
    );
    assert_eq!(
        set_audio_volume(&graph, AudioSourceId::Mic, volume(-0.5)),
        Err(VolumeError::OutOfRange)
    );
    assert_eq!(
        set_audio_volume(&graph, AudioSourceId::Mic, volume(1.0)),
        Err(VolumeError::VolumeNotAvailable)
    );
    assert_eq!(
        set_audio_volume(&None, AudioSourceId::System, volume(1.0)),
        Err(VolumeError::VolumeNotAvailable)
    );
    assert_eq!(VolumeError::OutOfRange.message(), "volume must be between 0.0 and 2.0");
    assert_eq!(VolumeError::VolumeNotAvailable.message(), "volume control not available");
}

#[test]
fn supervisor_restarts_what_does_not_run() {
    assert_eq!(supervisor_tick(true, None), SupervisorAction::Restart);

    let mut capture = CaptureLifecycle::new();
    assert_eq!(supervisor_tick(true, Some(&capture)), SupervisorAction::Restart);

    capture.apply(CaptureEvent::Started);
    assert_eq!(supervisor_tick(true, Some(&capture)), SupervisorAction::Idle);
    assert_eq!(supervisor_tick(false, Some(&capture)), SupervisorAction::StopAndExit);

    capture.apply(CaptureEvent::BusEos);
    assert_eq!(supervisor_tick(true, Some(&capture)), SupervisorAction::Restart);
    capture.stop();
    assert_eq!(supervisor_tick(true, Some(&capture)), SupervisorAction::Restart);
    assert_eq!(supervisor_tick(false, None), SupervisorAction::StopAndExit);
}

#[test]
fn start_is_refused_while_a_capture_exists() {
    assert_eq!(start_capture(false), Ok(()));
    assert_eq!(start_capture(true), Err(LifecycleError::AlreadyRunning));
}

#[test]
fn clip_of_empty_buffer_fails() {
    let mut ring = RingBuffer::new(30_000);
    assert_eq!(clip(&mut ring).unwrap_err(), ClipError::EmptyBuffer);
    ring.push_keyframe_pts(10);
    assert_eq!(clip(&mut ring).unwrap_err(), ClipError::EmptyBuffer);
    assert!(ring.keyframe_timestamps().is_empty());
}

#[test]
fn clip_summarises_and_concatenates_payloads() {
    let mut ring = RingBuffer::new(30_000);
    ring.push(packet(100, 3));
    ring.push(packet(200, 2));
    ring.push(packet(350, 4));
    ring.push_keyframe_pts(200);

    let cut = clip(&mut ring).unwrap();
    assert!(ring.is_empty());
    assert_eq!(cut.packets.len(), 2);
    assert_eq!(cut.duration_ms, 150);
    assert_eq!(cut.bytes, 6);
    assert_eq!(cut.payload(), vec![200, 200, 94, 94, 94, 94]);

    let answer = cut.response("2024-05-06_07-08-09");
    assert_eq!(answer.filename, "clip-2024-05-06_07-08-09.ts");
    assert_eq!(answer.packets, 2);
    assert_eq!(answer.duration_ms, 150);
    assert_eq!(answer.bytes, 6);
}

#[test]
fn clip_filename_wraps_the_stamp() {
    assert_eq!(clip_filename("2031-12-31_23-59-59"), "clip-2031-12-31_23-59-59.ts");
    assert_eq!(clip_filename(""), "clip-.ts");
    let mut ring = RingBuffer::new(1000);
    ring.push(packet(1, 4));
    let answer = clip(&mut ring).unwrap().response_now();
    assert!(answer.filename.starts_with("clip-"));
    assert!(answer.filename.ends_with(".ts"));
    assert_eq!(answer.filename.len(), "clip-YYYY-MM-DD_HH-MM-SS.ts".len());
    assert_eq!(answer.packets, 1);
    assert_eq!(answer.bytes, 4);
}

#[test]
fn status_reports_whole_seconds_and_packet_count() {
    let mut ring = RingBuffer::new(30_000);
    let empty = get_status(&base(), false, &ring);
    assert_eq!(empty.buffer_seconds, 0);
    assert_eq!(empty.ring_buffer_packets, 0);
    assert!(!empty.capturing);

    ring.push(packet(0, 1));
    ring.push(packet(2999, 1));
    let status = get_status(&base(), true, &ring);
    assert!(status.capturing);
    assert_eq!(status.buffer_seconds, 2);
    assert_eq!(status.ring_buffer_packets, 2);
    assert_eq!(status.settings.video_device_id, "screen:0");
}

#[test]
fn status_seconds_wrap_at_thirty_two_bits() {
    let mut ring = RingBuffer::new(u64::MAX);
    ring.push(packet(0, 1));
    ring.push(packet(4_294_967_296_000 + 5_000, 1));
    assert_eq!(get_status(&base(), true, &ring).buffer_seconds, 5);
}

#[test]
fn shutdown_answer_says_so() {
    assert!(ShutdownResponse { shutting_down: true }.shutting_down);
}

#[test]
fn log_levels_have_names_and_streams() {
    assert_eq!(LogLevel::Debug.name(), "debug");
    assert_eq!(LogLevel::Info.name(), "info");
    assert_eq!(LogLevel::Warning.name(), "warning");
    assert_eq!(LogLevel::Error.name(), "error");
    assert!(!LogLevel::Debug.to_error_stream());
    assert!(!LogLevel::Info.to_error_stream());
    assert!(LogLevel::Warning.to_error_stream());
    assert!(LogLevel::Error.to_error_stream());
}

#[test]
fn log_helpers_record_with_their_level() {
    let mut buffer = LogBuffer::new();
    let a = info(&mut buffer, "capture", "started".to_string());
    let b = warn(&mut buffer, "gst", "late".to_string());
    let c = error(&mut buffer, "gst", "lost".to_string());
    let d = debug(&mut buffer, "watchdog", "tick".to_string());
    assert_eq!(a.level, LogLevel::Info);
    assert_eq!(b.level, LogLevel::Warning);
    assert_eq!(c.level, LogLevel::Error);
    assert_eq!(d.level, LogLevel::Debug);
    assert_eq!(a.line(), "[capture] started");
    assert_eq!(d.line(), "[watchdog] tick");
    assert!(!a.timestamp.is_empty());
    assert!(a.timestamp.contains('T'));

    let recent = recent_logs(&buffer);
    assert_eq!(recent.len(), 4);
    assert_eq!(recent[0].message, "started");
    assert_eq!(recent[0].timestamp, a.timestamp);
    assert_eq!(recent[1].source, "gst");
    assert_eq!(recent[3].message, "tick");
    assert_eq!(buffer.len(), 4);
}

#[test]
fn log_buffer_keeps_the_newest_entries() {
    let mut buffer = LogBuffer::new();
    for i in 0..(MAX_BUFFERED_LOGS + 25) {
        buffer.record(LogEvent {
            timestamp: String::new(),
            level: LogLevel::Info,
            source: "test".to_string(),
            message: i.to_string(),
        });
    }
    assert_eq!(buffer.len(), MAX_BUFFERED_LOGS);
    let recent = buffer.recent();
    assert_eq!(recent.len(), 2000);
    assert_eq!(recent[0].message, "25");
    assert_eq!(recent[1999].message, "2024");
}
