use clip_service::capture_devices::{
    contains_audio_device, contains_video_device, prefer_screen_device, AudioDevice, VideoDevice,
    VideoDeviceKind,
};
use clip_service::encoders::{
    contains_encoder, find_video_encoder, prefer_hardware_encoder, VideoEncoderDescriptor,
};
use clip_service::settings::{
    apply_startup_fallbacks, default_settings, validate_settings, SettingsError, UserSettings,
    Volume,
};

fn volume(gain: f32) -> Volume {
    Volume { bits: gain.to_bits() }
}

fn screen(id: &str) -> VideoDevice {
    VideoDevice { id: id.to_string(), label: format!("Display {}", id), kind: VideoDeviceKind::Screen }
}

fn camera(id: &str) -> VideoDevice {
    VideoDevice { id: id.to_string(), label: format!("Camera {}", id), kind: VideoDeviceKind::Camera }
}

fn microphone(id: &str) -> AudioDevice {
    AudioDevice { id: id.to_string(), label: format!("Mic {}", id), is_input: true }
}

fn encoder(id: &str, is_hardware: bool, memory: Option<&str>) -> VideoEncoderDescriptor {
    VideoEncoderDescriptor {
        id: id.to_string(),
        name: id.to_uppercase(),
        is_hardware,
        required_memory: memory.map(|m| m.to_string()),
    }
}

fn good_settings() -> UserSettings {
    UserSettings {
        video_device_id: "screen:1".to_string(),
        system_audio_enabled: true,
        system_audio_volume: volume(1.0),
        mic_device_id: Some("mic-a".to_string()),
        mic_volume: volume(0.5),
        video_encoder_id: "x264enc".to_string(),
        framerate: 30,
        bitrate_kbps: 8000,
        clips_dir: "out".to_string(),
    }
}

fn videos() -> Vec<VideoDevice> {
    vec![camera("cam:0"), screen("screen:0"), screen("screen:1")]
}

fn microphones() -> Vec<AudioDevice> {
    vec![microphone("mic-a"), microphone("mic-b")]
}

fn encoders() -> Vec<VideoEncoderDescriptor> {
    vec![
        encoder("x264enc", false, None),
        encoder("nvh264enc", true, Some("D3D11Memory")),
        encoder("mfh264enc", true, None),
    ]
}

fn same(a: &UserSettings, b: &UserSettings) -> bool {
    a.video_device_id == b.video_device_id
        && a.system_audio_enabled == b.system_audio_enabled
        && a.system_audio_volume == b.system_audio_volume
        && a.mic_device_id == b.mic_device_id
        && a.mic_volume == b.mic_volume
        && a.video_encoder_id == b.video_encoder_id
        && a.framerate == b.framerate
        && a.bitrate_kbps == b.bitrate_kbps
        && a.clips_dir == b.clips_dir
}

#[test]
fn volume_range_follows_the_numbers() {
    for gain in [0.0f32, -0.0, 0.25, 1.0, 1.999_999, 2.0] {
        assert!(volume(gain).in_range(), "{}", gain);
    }
    for gain in [-0.001f32, 2.000_001, 5.0, -1.0, f32::INFINITY, f32::NEG_INFINITY, f32::NAN, f32::MAX] {
        assert!(!volume(gain).in_range(), "{}", gain);
    }
    assert_eq!(f32::from_bits(Volume::unity().bits), 1.0);
}

#[test]
fn device_lookup_finds_by_identifier() {
    let v = videos();
    assert!(contains_video_device(&v, &"screen:1".to_string()));
    assert!(!contains_video_device(&v, &"screen:2".to_string()));
    assert!(!contains_video_device(&[], &"screen:1".to_string()));
    let m = microphones();
    assert!(contains_audio_device(&m, &"mic-b".to_string()));
    assert!(!contains_audio_device(&m, &"".to_string()));
    let e = encoders();
    assert!(contains_encoder(&e, &"mfh264enc".to_string()));
    assert!(!contains_encoder(&e, &"MFH264ENC".to_string()));
}

#[test]
fn preferred_device_is_first_screen_or_first() {
    let v = videos();
    assert_eq!(prefer_screen_device(&v).unwrap().id, "screen:0");
    let only_cameras = vec![camera("cam:0"), camera("cam:1")];
    assert_eq!(prefer_screen_device(&only_cameras).unwrap().id, "cam:0");
    assert!(prefer_screen_device(&[]).is_none());
}

#[test]
fn preferred_encoder_is_first_hardware_or_first() {
    let e = encoders();
    assert_eq!(prefer_hardware_encoder(&e).unwrap().id, "nvh264enc");
    let software = vec![encoder("x264enc", false, None), encoder("openh264enc", false, None)];
    assert_eq!(prefer_hardware_encoder(&software).unwrap().id, "x264enc");
    assert!(prefer_hardware_encoder(&[]).is_none());
}

#[test]
fn find_video_encoder_returns_first_match() {
    let mut e = encoders();
    e.push(encoder("x264enc", true, Some("D3D12Memory")));
    let found = find_video_encoder(&e, &"x264enc".to_string()).unwrap();
    assert!(!found.is_hardware);
    assert_eq!(found.required_memory, None);
    assert_eq!(found.name, "X264ENC");
    assert!(find_video_encoder(&e, &"none".to_string()).is_none());
}

#[test]
fn default_settings_prefer_screen_and_hardware() {
    let s = default_settings(&videos(), &encoders()).unwrap();
    assert_eq!(s.video_device_id, "screen:0");
    assert_eq!(s.video_encoder_id, "nvh264enc");
    assert!(s.system_audio_enabled);
    assert_eq!(s.mic_device_id, None);
    assert_eq!(s.framerate, 60);
    assert_eq!(s.bitrate_kbps, 20_000);
    assert_eq!(f32::from_bits(s.system_audio_volume.bits), 1.0);
    assert_eq!(f32::from_bits(s.mic_volume.bits), 1.0);
    assert_eq!(s.clips_dir, "clips");
    assert!(validate_settings(&s, &videos(), &microphones(), &encoders()).is_ok());
}

#[test]
fn default_settings_need_a_device_and_an_encoder() {
    assert_eq!(default_settings(&[], &encoders()).unwrap_err(), SettingsError::NoVideoDevices);
    assert_eq!(default_settings(&[], &[]).unwrap_err(), SettingsError::NoVideoDevices);
    assert_eq!(default_settings(&videos(), &[]).unwrap_err(), SettingsError::NoVideoEncoders);
    assert_eq!(SettingsError::NoVideoDevices.message(), "no video devices available");
    assert_eq!(SettingsError::NoVideoEncoders.message(), "no video encoders available");
}

#[test]
fn valid_settings_pass_and_are_left_alone() {
    let s = good_settings();
    assert_eq!(validate_settings(&s, &videos(), &microphones(), &encoders()), Ok(()));
    let (after, changes) = apply_startup_fallbacks(s.clone(), &videos(), &microphones(), &encoders());
    assert!(same(&after, &s));
    assert!(changes.is_empty());
}

#[test]
fn validation_reports_the_first_violation() {
    let (v, m, e) = (videos(), microphones(), encoders());

    let mut s = good_settings();
    s.video_device_id = "screen:9".to_string();
    s.framerate = 0;
    assert_eq!(validate_settings(&s, &v, &m, &e), Err("selected video device is not available".to_string()));

    let mut s = good_settings();
    s.mic_device_id = Some("mic-z".to_string());
    s.video_encoder_id = "none".to_string();
    assert_eq!(validate_settings(&s, &v, &m, &e), Err("selected microphone is not available".to_string()));

    let mut s = good_settings();
    s.mic_device_id = Some(String::new());
    assert_eq!(validate_settings(&s, &v, &m, &e), Err("selected microphone is not available".to_string()));

    let mut s = good_settings();
    s.video_encoder_id = "none".to_string();
    assert_eq!(validate_settings(&s, &v, &m, &e), Err("selected video encoder is not available".to_string()));

    let mut s = good_settings();
    s.framerate = 0;
    s.bitrate_kbps = 0;
    assert_eq!(validate_settings(&s, &v, &m, &e), Err("framerate must be greater than zero".to_string()));

    let mut s = good_settings();
    s.bitrate_kbps = 0;
    assert_eq!(validate_settings(&s, &v, &m, &e), Err("bitrate must be greater than zero".to_string()));

    let mut s = good_settings();
    s.mic_volume = volume(2.5);
    assert_eq!(validate_settings(&s, &v, &m, &e), Err("volume must be between 0.0 and 2.0".to_string()));

    let mut s = good_settings();
    s.system_audio_volume = volume(-1.0);
    s.clips_dir = String::new();
    assert_eq!(validate_settings(&s, &v, &m, &e), Err("volume must be between 0.0 and 2.0".to_string()));

    let mut s = good_settings();
    s.clips_dir = String::new();
    assert_eq!(validate_settings(&s, &v, &m, &e), Err("clips directory must not be empty".to_string()));

    let mut s = good_settings();
    s.mic_device_id = None;
    assert_eq!(validate_settings(&s, &v, &[], &e), Ok(()));
}

#[test]
fn fallbacks_reset_six_values() {
    let persisted = UserSettings {
        video_device_id: "screen:7".to_string(),
        system_audio_enabled: false,
        system_audio_volume: volume(5.0),
        mic_device_id: None,
        mic_volume: volume(5.0),
        video_encoder_id: "gone264enc".to_string(),
        framerate: 0,
        bitrate_kbps: 0,
        clips_dir: String::new(),
    };
    let (v, m, e) = (videos(), microphones(), encoders());
    let (after, changes) = apply_startup_fallbacks(persisted, &v, &m, &e);

    assert_eq!(
        changes,
        vec![
            "video device reset to default",
            "video encoder reset to default",
            "framerate reset to 60",
            "bitrate reset to 20000 kbps",
            "audio volume reset to 1.0",
            "clips directory reset to default",
        ]
    );
    assert_eq!(after.video_device_id, "screen:0");
    assert_eq!(after.video_encoder_id, "nvh264enc");
    assert_eq!(after.framerate, 60);
    assert_eq!(after.bitrate_kbps, 20_000);
    assert_eq!(f32::from_bits(after.system_audio_volume.bits), 1.0);
    assert_eq!(f32::from_bits(after.mic_volume.bits), 1.0);
    assert_eq!(after.clips_dir, "clips");
    assert!(!after.system_audio_enabled);
    assert_eq!(after.mic_device_id, None);
    assert_eq!(validate_settings(&after, &v, &m, &e), Ok(()));
}

#[test]
fn fallbacks_clear_an_empty_or_missing_microphone() {
    let (v, m, e) = (videos(), microphones(), encoders());
    for id in ["", "mic-z"] {
        let mut s = good_settings();
        s.mic_device_id = Some(id.to_string());
        let (after, changes) = apply_startup_fallbacks(s, &v, &m, &e);
        assert_eq!(after.mic_device_id, None);
        assert_eq!(changes, vec!["microphone device cleared"]);
    }
}

#[test]
fn fallbacks_reset_only_the_gain_out_of_range() {
    let (v, m, e) = (videos(), microphones(), encoders());
    let mut s = good_settings();
    s.system_audio_volume = volume(0.25);
    s.mic_volume = volume(f32::NAN);
    let (after, changes) = apply_startup_fallbacks(s, &v, &m, &e);
    assert_eq!(f32::from_bits(after.system_audio_volume.bits), 0.25);
    assert_eq!(f32::from_bits(after.mic_volume.bits), 1.0);
    assert_eq!(changes, vec!["audio volume reset to 1.0"]);
}

#[test]
fn fallbacks_keep_an_unknown_device_when_none_is_present() {
    let mut s = good_settings();
    s.mic_device_id = None;
    let (after, changes) = apply_startup_fallbacks(s.clone(), &[], &[], &[]);
    assert!(same(&after, &s));
    assert!(changes.is_empty());
    assert_eq!(
        validate_settings(&after, &[], &[], &[]),
        Err("selected video device is not available".to_string())
    );
}

#[test]
fn fallbacks_are_idempotent() {
    let (v, m, e) = (videos(), microphones(), encoders());
    let mut inputs = vec![good_settings()];
    let mut broken = good_settings();
    broken.video_device_id = String::new();
    broken.mic_device_id = Some("nowhere".to_string());
    broken.video_encoder_id = "?".to_string();
    broken.framerate = 0;
    broken.bitrate_kbps = 0;
    broken.system_audio_volume = volume(-3.0);
    broken.clips_dir = String::new();
    inputs.push(broken);
    for s in inputs {
        let (once, _) = apply_startup_fallbacks(s, &v, &m, &e);
        let (twice, changes) = apply_startup_fallbacks(once.clone(), &v, &m, &e);
        assert!(same(&once, &twice));
        assert!(changes.is_empty());
    }
}
