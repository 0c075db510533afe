use clip_service::audio::{aac_encoder, AudioGraph, AudioSourceId, AudioStage};
use clip_service::capture_devices::{list_microphone_devices, microphone_of, DeviceProbe};
use clip_service::encoders::{
    describe_encoder, list_video_encoders, name_le, required_memory_type, supports_h264,
    EncoderProbe, VideoEncoderDescriptor,
};
use clip_service::graph::{
    decimal, link_failed, missing_element, muxer_element, sink_element, ElementSpec, Property,
    Setting,
};
use clip_service::bus::{bus_step, BusMessage};
use clip_service::gst_capture::{
    on_parsed_buffer, on_sample, plan_graph, CaptureError, CaptureEvent, CaptureLifecycle,
    CaptureState, BUS_POLL_MS, PACKET_CHANNEL_CAPACITY,
};
use clip_service::logger::{LogBuffer, LogLevel};
use clip_service::ring_buffer::RingBuffer;
use clip_service::settings::{UserSettings, Volume};
use clip_service::text::{contains_text, has_text};
use clip_service::video::{VideoGraph, VideoStage};

fn volume(gain: f32) -> Volume {
    Volume { bits: gain.to_bits() }
}

fn settings(system: bool, mic: Option<&str>, encoder: &str) -> UserSettings {
    UserSettings {
        video_device_id: "screen:1".to_string(),
        system_audio_enabled: system,
        system_audio_volume: volume(0.5),
        mic_device_id: mic.map(|m| m.to_string()),
        mic_volume: volume(2.0),
        video_encoder_id: encoder.to_string(),
        framerate: 30,
        bitrate_kbps: 9000,
        clips_dir: "clips".to_string(),
    }
}

fn encoders() -> Vec<VideoEncoderDescriptor> {
    vec![
        VideoEncoderDescriptor {
            id: "x264enc".to_string(),
            name: "x264".to_string(),
            is_hardware: false,
            required_memory: None,
        },
        VideoEncoderDescriptor {
            id: "nvd3d11h264enc".to_string(),
            name: "NVENC".to_string(),
            is_hardware: true,
            required_memory: Some("D3D11Memory".to_string()),
        },
        VideoEncoderDescriptor {
            id: "d3d12h264enc".to_string(),
            name: "D3D12".to_string(),
            is_hardware: true,
            required_memory: Some("D3D12Memory".to_string()),
        },
    ]
}

fn shown(element: &ElementSpec) -> String {
    let mut out = element.factory.clone();
    for Property { name, value } in &element.properties {
        let text = match value {
            Setting::Flag(b) => format!("{}", b),
            Setting::Int(n) => format!("{}i", n),
            Setting::UInt(n) => format!("{}u", n),
            Setting::Long(n) => format!("{}l", n),
            Setting::Gain(v) => format!("{}g", f32::from_bits(v.bits)),
            Setting::Text(t) => format!("'{}'", t),
        };
        out.push_str(&format!(" {}={}", name, text));
    }
    out
}

fn probe(class: &str, loopback: Option<bool>, ids: [Option<&str>; 3], name: &str) -> DeviceProbe {
    DeviceProbe {
        device_class: class.to_string(),
        loopback,
        device: ids[0].map(|s| s.to_string()),
        device_id: ids[1].map(|s| s.to_string()),
        device_dot_id: ids[2].map(|s| s.to_string()),
        display_name: name.to_string(),
    }
}

fn factory(name: &str, long_name: &str) -> EncoderProbe {
    EncoderProbe {
        factory_name: name.to_string(),
        long_name: long_name.to_string(),
        klass: "Codec/Encoder/Video".to_string(),
        hardware_type: false,
        instantiable: true,
        src_structures: vec!["video/x-h264".to_string()],
        sink_features: vec![vec!["memory:SystemMemory".to_string()]],
    }
}

#[test]
fn text_search_finds_substrings() {
    assert!(contains_text("Audio/Source", "Audio/Source"));
    assert!(contains_text("Codec/Encoder/Video/Hardware", "Hardware"));
    assert!(contains_text("abc", ""));
    assert!(contains_text("", ""));
    assert!(contains_text("aab", "ab"));
    assert!(!contains_text("Audio/Sourc", "Audio/Source"));
    assert!(!contains_text("", "a"));
    assert!(!contains_text("hardware", "Hardware"));
    assert!(contains_text("gr\u{00fc}n/Audio/Sink", "Audio/Sink"));
    let items = vec!["memory:D3D11Memory".to_string(), "x".to_string()];
    assert!(has_text(&items, "x"));
    assert!(has_text(&items, "memory:D3D11Memory"));
    assert!(!has_text(&items, "memory:D3D11"));
    assert!(!has_text(&Vec::new(), ""));
}

#[test]
fn decimal_writes_numbers() {
    assert_eq!(decimal(0), "0");
    assert_eq!(decimal(7), "7");
    assert_eq!(decimal(10), "10");
    assert_eq!(decimal(60), "60");
    assert_eq!(decimal(1905), "1905");
    assert_eq!(decimal(u32::MAX), "4294967295");
}

#[test]
fn microphones_exclude_sinks_and_loopback() {
    let mic = probe("Audio/Source", Some(false), [Some("{mic-1}"), Some("other"), None], "Desk mic");
    let found = microphone_of(&mic).unwrap();
    assert_eq!(found.id, "{mic-1}");
    assert_eq!(found.label, "Desk mic");
    assert!(found.is_input);

    assert!(microphone_of(&probe("Audio/Sink", None, [Some("a"), None, None], "Speakers")).is_none());
    assert!(microphone_of(&probe("Audio/Source", Some(true), [Some("a"), None, None], "Loop")).is_none());
    assert!(microphone_of(&probe("Audio/Source Audio/Sink", None, [Some("a"), None, None], "Both")).is_none());
    assert!(microphone_of(&probe("Audio/Source", None, [None, None, None], "Nameless")).is_none());
    assert!(microphone_of(&probe("Video/Source", None, [Some("a"), None, None], "Camera")).is_none());

    assert_eq!(
        microphone_of(&probe("Audio/Source", None, [None, Some("second"), Some("third")], "B")).unwrap().id,
        "second"
    );
    assert_eq!(
        microphone_of(&probe("Audio/Source", None, [None, None, Some("third")], "C")).unwrap().id,
        "third"
    );
}

#[test]
fn microphone_list_keeps_order() {
    let probes = vec![
        probe("Audio/Source", None, [Some("m2"), None, None], "Two"),
        probe("Audio/Sink", None, [Some("s"), None, None], "Speakers"),
        probe("Audio/Source", Some(true), [Some("l"), None, None], "Loopback"),
        probe("Audio/Source", Some(false), [Some("m1"), None, None], "One"),
    ];
    let mics = list_microphone_devices(&probes);
    let ids: Vec<&str> = mics.iter().map(|m| m.id.as_str()).collect();
    assert_eq!(ids, vec!["m2", "m1"]);
    assert!(list_microphone_devices(&[]).is_empty());
}

#[test]
fn encoder_memory_is_read_from_sink_features() {
    let mut f = factory("mfh264enc", "Media Foundation");
    assert_eq!(required_memory_type(&f), None);

    f.sink_features = vec![
        vec!["memory:SystemMemory".to_string()],
        vec!["memory:D3D11Memory".to_string(), "memory:D3D12Memory".to_string()],
    ];
    assert_eq!(required_memory_type(&f), Some("D3D12Memory".to_string()));

    f.sink_features = vec![
        vec!["memory:D3D11Memory".to_string()],
        vec!["memory:D3D12Memory".to_string()],
    ];
    assert_eq!(required_memory_type(&f), Some("D3D11Memory".to_string()));

    let mut nv = factory("nvd3d11h264enc", "NVENC");
    assert_eq!(required_memory_type(&nv), Some("D3D11Memory".to_string()));
    nv.sink_features = vec![vec!["memory:D3D12Memory".to_string()]];
    assert_eq!(required_memory_type(&nv), Some("D3D12Memory".to_string()));
}

#[test]
fn encoders_are_described_or_left_out() {
    let plain = factory("x264enc", "x264");
    assert!(supports_h264(&plain));
    let d = describe_encoder(&plain).unwrap();
    assert_eq!(d.id, "x264enc");
    assert_eq!(d.name, "x264");
    assert!(!d.is_hardware);
    assert_eq!(d.required_memory, None);

    let mut by_class = factory("qsvh264enc", "QuickSync");
    by_class.klass = "Codec/Encoder/Video/Hardware".to_string();
    assert!(describe_encoder(&by_class).unwrap().is_hardware);

    let mut by_type = factory("amfh264enc", "AMF");
    by_type.hardware_type = true;
    assert!(describe_encoder(&by_type).unwrap().is_hardware);

    let mut other_codec = factory("x265enc", "x265");
    other_codec.src_structures = vec!["video/x-h265".to_string()];
    assert!(!supports_h264(&other_codec));
    assert!(describe_encoder(&other_codec).is_none());

    let mut broken = factory("brokenenc", "Broken");
    broken.instantiable = false;
    assert!(describe_encoder(&broken).is_none());

    let mut d3d12 = factory("d3d12h264enc", "D3D12");
    d3d12.sink_features = vec![vec!["memory:D3D12Memory".to_string()]];
    assert!(describe_encoder(&d3d12).is_none());
}

#[test]
fn names_compare_as_in_a_dictionary() {
    assert!(name_le("", ""));
    assert!(name_le("", "a"));
    assert!(!name_le("a", ""));
    assert!(name_le("abc", "abc"));
    assert!(name_le("abc", "abd"));
    assert!(!name_le("abd", "abc"));
    assert!(name_le("ab", "abc"));
    assert!(!name_le("abc", "ab"));
    assert!(name_le("Z", "a"));
    assert!(name_le("z", "\u{00e9}"));
    for (a, b) in [("NVENC", "x264"), ("x264", "NVENC"), ("a", "a"), ("\u{1F600}", "\u{FFFF}")] {
        assert_eq!(name_le(a, b), a <= b);
    }
}

#[test]
fn encoder_list_is_ordered_by_name() {
    let mut d3d12 = factory("d3d12h264enc", "Aardvark");
    d3d12.sink_features = vec![vec!["memory:D3D12Memory".to_string()]];
    let probes = vec![
        factory("x264enc", "x264"),
        factory("first", "Same"),
        d3d12,
        factory("nvh264enc", "NVENC"),
        factory("second", "Same"),
        factory("mfh264enc", "Media Foundation"),
    ];
    let listed = list_video_encoders(&probes);
    let ids: Vec<&str> = listed.iter().map(|e| e.id.as_str()).collect();
    assert_eq!(ids, vec!["mfh264enc", "nvh264enc", "first", "second", "x264enc"]);
    assert!(list_video_encoders(&[]).is_empty());
}

#[test]
fn muxer_and_sink_are_set_up_for_pulling() {
    assert_eq!(shown(&muxer_element()), "mpegtsmux streamable=true");
    assert_eq!(
        shown(&sink_element()),
        "appsink emit-signals=true sync=false async=false drop=true max-buffers=4u"
    );
    assert_eq!(PACKET_CHANNEL_CAPACITY, 1024);
    assert_eq!(BUS_POLL_MS, 200);
}

#[test]
fn video_elements_for_a_gpu_encoder() {
    let graph = VideoGraph::build(&settings(false, None, "nvd3d11h264enc"), &encoders()).unwrap();
    let elements: Vec<String> = graph.elements().iter().map(shown).collect();
    assert_eq!(
        elements,
        vec![
            "d3d11screencapturesrc monitor-index=1i do-timestamp=true",
            "d3d11convert",
            "capsfilter caps='video/x-raw(memory:D3D11Memory), format=NV12, framerate=30/1'",
            "nvd3d11h264enc bitrate=9000u gop-size=30i key-int-max=30u zero-latency=true insert-sps-pps=true",
            "h264parse config-interval=1i",
            "capsfilter caps='video/x-h264, stream-format=byte-stream, alignment=au'",
            "queue leaky='downstream'",
        ]
    );
}

#[test]
fn video_elements_for_a_system_memory_encoder() {
    let mut config = settings(false, None, "x264enc");
    config.video_device_id = "monitor-left".to_string();
    config.framerate = 0;
    let graph = VideoGraph::build(&config, &encoders()).unwrap();
    assert_eq!(shown(&graph.element(VideoStage::ScreenSource)), "d3d11screencapturesrc do-timestamp=true");
    assert_eq!(shown(&graph.element(VideoStage::Download)), "d3d11download");
    assert_eq!(shown(&graph.element(VideoStage::CpuConvert)), "videoconvert");
    assert_eq!(
        shown(&graph.element(VideoStage::RawCaps)),
        "capsfilter caps='video/x-raw, format=NV12, framerate=0/1'"
    );
    assert_eq!(
        shown(&graph.element(VideoStage::Encoder)),
        "x264enc bitrate=9000u gop-size=1i key-int-max=1u zero-latency=true insert-sps-pps=true"
    );
    assert_eq!(graph.elements().len(), 9);
}

#[test]
fn gop_size_is_capped_at_the_largest_signed_number() {
    let mut config = settings(false, None, "x264enc");
    config.framerate = u32::MAX;
    let graph = VideoGraph::build(&config, &encoders()).unwrap();
    assert_eq!(
        shown(&graph.element(VideoStage::Encoder)),
        "x264enc bitrate=9000u gop-size=2147483647i key-int-max=4294967295u zero-latency=true insert-sps-pps=true"
    );
}

#[test]
fn audio_elements_of_both_sources() {
    let graph = AudioGraph::build(&settings(true, Some("{mic}"), "x264enc")).unwrap();
    let (sys, mic) = (AudioSourceId::System, AudioSourceId::Mic);
    let show = |stage| shown(&graph.element(stage).unwrap());
    assert_eq!(
        show(AudioStage::Source(sys)),
        "wasapisrc loopback=true do-timestamp=true provide-clock=true low-latency=false"
    );
    assert_eq!(
        show(AudioStage::Source(mic)),
        "wasapisrc loopback=false do-timestamp=true provide-clock=false low-latency=false device='{mic}'"
    );
    assert_eq!(show(AudioStage::Convert(mic)), "audioconvert");
    assert_eq!(show(AudioStage::Volume(sys)), "volume volume=0.5g");
    assert_eq!(show(AudioStage::Volume(mic)), "volume volume=2g");
    assert_eq!(show(AudioStage::SourceQueue(sys)), "queue max-size-time=100000000l leaky='downstream'");
    assert_eq!(show(AudioStage::Mixer), "audiomixer ignore-inactive-pads=true");
    assert_eq!(show(AudioStage::Resample), "audioresample quality=10i");
    assert_eq!(show(AudioStage::RawCaps), "capsfilter caps='audio/x-raw, rate=48000, channels=2'");
    assert_eq!(show(AudioStage::Encoder), "voaacenc bitrate='192000'");
    assert_eq!(show(AudioStage::Parser), "aacparse");
    assert_eq!(
        show(AudioStage::EncodedCaps),
        "capsfilter caps='audio/mpeg, mpegversion=4, stream-format=adts'"
    );
    assert_eq!(show(AudioStage::Queue), "queue");
    assert_eq!(shown(&aac_encoder(false)), "avenc_aac bitrate='192000'");
    assert_eq!(graph.source(mic).unwrap().id(), mic);
}

#[test]
fn audio_elements_of_an_absent_source_are_none() {
    let graph = AudioGraph::build(&settings(true, None, "x264enc")).unwrap();
    let mic = AudioSourceId::Mic;
    assert!(graph.source(mic).is_none());
    assert!(graph.element(AudioStage::Source(mic)).is_none());
    assert!(graph.element(AudioStage::Convert(mic)).is_none());
    assert!(graph.element(AudioStage::Volume(mic)).is_none());
    assert!(graph.element(AudioStage::SourceQueue(mic)).is_none());
    assert!(graph.element(AudioStage::Source(AudioSourceId::System)).is_some());
}

#[test]
fn audio_links_for_one_source() {
    let graph = AudioGraph::build(&settings(true, None, "x264enc")).unwrap();
    let s = AudioSourceId::System;
    assert_eq!(
        graph.links(),
        vec![
            (AudioStage::Source(s), AudioStage::Convert(s)),
            (AudioStage::Convert(s), AudioStage::Volume(s)),
            (AudioStage::Volume(s), AudioStage::SourceQueue(s)),
            (AudioStage::SourceQueue(s), AudioStage::Resample),
            (AudioStage::Resample, AudioStage::RawCaps),
            (AudioStage::RawCaps, AudioStage::Encoder),
            (AudioStage::Encoder, AudioStage::Parser),
            (AudioStage::Parser, AudioStage::EncodedCaps),
            (AudioStage::EncodedCaps, AudioStage::Queue),
        ]
    );
}

#[test]
fn audio_links_for_two_sources_go_through_the_mixer() {
    let graph = AudioGraph::build(&settings(true, Some("m"), "x264enc")).unwrap();
    let (s, m) = (AudioSourceId::System, AudioSourceId::Mic);
    assert_eq!(
        graph.links(),
        vec![
            (AudioStage::Source(s), AudioStage::Convert(s)),
            (AudioStage::Convert(s), AudioStage::Volume(s)),
            (AudioStage::Volume(s), AudioStage::SourceQueue(s)),
            (AudioStage::SourceQueue(s), AudioStage::Mixer),
            (AudioStage::Source(m), AudioStage::Convert(m)),
            (AudioStage::Convert(m), AudioStage::Volume(m)),
            (AudioStage::Volume(m), AudioStage::SourceQueue(m)),
            (AudioStage::SourceQueue(m), AudioStage::Mixer),
            (AudioStage::Mixer, AudioStage::Resample),
            (AudioStage::Resample, AudioStage::RawCaps),
            (AudioStage::RawCaps, AudioStage::Encoder),
            (AudioStage::Encoder, AudioStage::Parser),
            (AudioStage::Parser, AudioStage::EncodedCaps),
            (AudioStage::EncodedCaps, AudioStage::Queue),
        ]
    );
}

#[test]
fn graph_plan_checks_settings_then_encoder() {
    let plan = plan_graph(&settings(true, Some("m"), "x264enc"), &encoders()).unwrap();
    assert!(plan.audio.is_some());
    assert_eq!(plan.video.encoder.encoder_id, "x264enc");
    assert!(plan_graph(&settings(false, None, "x264enc"), &encoders()).unwrap().audio.is_none());

    match plan_graph(&settings(true, Some(""), "missing"), &encoders()) {
        Err(CaptureError::ConfigInvalid(text)) => assert_eq!(text, "microphone device id is empty"),
        other => panic!("unexpected: {:?}", other),
    }
    match plan_graph(&settings(true, None, "missing"), &encoders()) {
        Err(CaptureError::ConfigInvalid(text)) => assert_eq!(text, "selected encoder not available"),
        other => panic!("unexpected: {:?}", other),
    }
    match plan_graph(&settings(true, None, "d3d12h264enc"), &encoders()) {
        Err(CaptureError::ConfigInvalid(text)) => assert_eq!(text, "D3D12 encoders are not supported"),
        other => panic!("unexpected: {:?}", other),
    }
}

#[test]
fn capture_errors_name_what_failed() {
    let a = ElementSpec::new("h264parse");
    let b = ElementSpec::new("capsfilter");
    assert_eq!(missing_element(&a).message(), "missing element h264parse");
    assert_eq!(link_failed(&a, &b).message(), "failed to link h264parse -> capsfilter");
    assert_eq!(CaptureError::StateChangeFailed.message(), "failed to start");
    assert_eq!(CaptureError::ConfigInvalid("bad".to_string()).message(), "bad");
}

#[test]
fn samples_become_packets_unless_guarded() {
    assert!(on_sample(true, Some(vec![1, 2]), Some(5), 9).is_none());
    assert!(on_sample(false, None, Some(5), 9).is_none());
    let stamped = on_sample(false, Some(vec![1, 2]), Some(5), 9).unwrap();
    assert_eq!(stamped.pts_ms, 5);
    assert_eq!(stamped.data, vec![1, 2]);
    let unstamped = on_sample(false, Some(vec![3]), None, 9).unwrap();
    assert_eq!(unstamped.pts_ms, 9);
    assert_eq!(unstamped.data, vec![3]);
}

#[test]
fn parsed_buffers_record_keyframes() {
    let mut ring = RingBuffer::new(1000);
    on_parsed_buffer(&mut ring, true, Some(10));
    on_parsed_buffer(&mut ring, false, None);
    assert!(ring.keyframe_timestamps().is_empty());
    on_parsed_buffer(&mut ring, false, Some(20));
    on_parsed_buffer(&mut ring, false, Some(20));
    on_parsed_buffer(&mut ring, true, Some(30));
    on_parsed_buffer(&mut ring, false, Some(40));
    assert_eq!(ring.keyframe_timestamps(), vec![20, 40]);
    assert!(ring.is_empty());
}

#[test]
fn bus_error_is_logged_and_ends_the_loop() {
    let mut capture = CaptureLifecycle::new();
    capture.apply(CaptureEvent::Started);
    let mut log = LogBuffer::new();
    let outcome = bus_step(
        &mut capture,
        &mut log,
        BusMessage::Error {
            source: Some("/pipeline0/enc".to_string()),
            error: "no device".to_string(),
            debug: Some("gstenc.c(12)".to_string()),
        },
    );
    assert!(outcome.leave_loop);
    assert_eq!(outcome.logged.len(), 2);
    assert_eq!(outcome.logged[0].level, LogLevel::Error);
    assert_eq!(outcome.logged[0].source, "gst");
    assert_eq!(outcome.logged[0].message, "error from /pipeline0/enc: no device");
    assert_eq!(outcome.logged[1].level, LogLevel::Debug);
    assert_eq!(outcome.logged[1].message, "debug: gstenc.c(12)");
    assert!(matches!(capture.state(), CaptureState::Failed(r) if r == "no device"));
    assert!(capture.stop_flag());
    assert!(capture.callback_guard());
    let recent = log.recent();
    assert_eq!(recent.len(), 2);
    assert_eq!(recent[0].message, "error from /pipeline0/enc: no device");
    assert_eq!(recent[1].message, "debug: gstenc.c(12)");
}

#[test]
fn bus_warning_is_logged_and_changes_nothing() {
    let mut capture = CaptureLifecycle::new();
    capture.apply(CaptureEvent::Started);
    let mut log = LogBuffer::new();
    let outcome = bus_step(
        &mut capture,
        &mut log,
        BusMessage::Warning { source: None, error: "late".to_string(), debug: None },
    );
    assert!(!outcome.leave_loop);
    assert_eq!(outcome.logged.len(), 1);
    assert_eq!(outcome.logged[0].level, LogLevel::Warning);
    assert_eq!(outcome.logged[0].message, "warning from unknown: late");
    assert!(capture.is_running());
    assert!(!capture.stop_flag());
}

#[test]
fn bus_eos_and_state_changes() {
    let mut capture = CaptureLifecycle::new();
    capture.apply(CaptureEvent::Started);
    let mut log = LogBuffer::new();

    let quiet = bus_step(
        &mut capture,
        &mut log,
        BusMessage::StateChanged { from_pipeline: false, old: "Null".to_string(), current: "Ready".to_string() },
    );
    assert!(!quiet.leave_loop);
    assert!(quiet.logged.is_empty());

    let change = bus_step(
        &mut capture,
        &mut log,
        BusMessage::StateChanged { from_pipeline: true, old: "Paused".to_string(), current: "Playing".to_string() },
    );
    assert!(!change.leave_loop);
    assert_eq!(change.logged[0].level, LogLevel::Info);
    assert_eq!(change.logged[0].message, "pipeline state: Paused -> Playing");

    let other = bus_step(&mut capture, &mut log, BusMessage::Other);
    assert!(!other.leave_loop);
    assert!(other.logged.is_empty());
    assert!(capture.is_running());

    let eos = bus_step(&mut capture, &mut log, BusMessage::Eos);
    assert!(eos.leave_loop);
    assert_eq!(eos.logged[0].level, LogLevel::Error);
    assert_eq!(eos.logged[0].message, "eos");
    assert!(matches!(capture.state(), CaptureState::Failed(r) if r == "eos"));
    assert_eq!(log.len(), 2);
}
