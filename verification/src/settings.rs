//! User settings and their reconciliation with the devices and encoders that
//! are present.

use vstd::prelude::*;
use crate::capture_devices::{
    contains_audio_device, contains_video_device, has_audio_device, has_video_device,
    lemma_first_screen_in_range, prefer_screen_device, preferred_video_index, AudioDevice,
    VideoDevice,
};
use crate::encoders::{
    contains_encoder, has_encoder, lemma_first_hardware_in_range, prefer_hardware_encoder,
    preferred_encoder_index, VideoEncoderDescriptor,
};

verus! {

/// Bit pattern of the gain 1.0.
pub const UNITY_GAIN_BITS: u32 = 0x3F80_0000u32;

/// Bit pattern of the gain 2.0, the largest accepted.
pub const MAX_GAIN_BITS: u32 = 0x4000_0000u32;

/// Bit pattern of negative zero, which compares equal to zero.
pub const NEGATIVE_ZERO_BITS: u32 = 0x8000_0000u32;

pub const DEFAULT_FRAMERATE: u32 = 60u32;

pub const DEFAULT_BITRATE_KBPS: u32 = 20_000u32;

/// A gain held as the bit pattern of an IEEE 754 single-precision number.
///
/// Non-negative numbers of that format are ordered as their bit patterns
/// are, so the gains from 0.0 to 2.0 are the patterns up to
/// [`MAX_GAIN_BITS`], and negative zero. Every other pattern is a negative
/// number, a number above 2.0, an infinity or not a number.
#[derive(Debug, Clone, Copy, PartialEq, Eq, Structural)]
pub struct Volume {
    pub bits: u32,
}

/// The pattern `bits` stands for a gain from 0.0 to 2.0.
pub open spec fn gain_in_range(bits: u32) -> bool {
    bits <= MAX_GAIN_BITS || bits == NEGATIVE_ZERO_BITS
}

impl Volume {
    /// The gain 1.0.
    pub fn unity() -> (v: Volume)
        ensures
            v.bits == UNITY_GAIN_BITS,
            gain_in_range(v.bits),
    {
        Volume { bits: UNITY_GAIN_BITS }
    }

    /// Whether the gain lies from 0.0 to 2.0.
    pub fn in_range(&self) -> (ok: bool)
        ensures
            ok == gain_in_range(self.bits),
    {
        self.bits <= MAX_GAIN_BITS || self.bits == NEGATIVE_ZERO_BITS
    }
}

/// What the user chose to capture and how.
#[derive(Debug)]
pub struct UserSettings {
    pub video_device_id: String,
    pub system_audio_enabled: bool,
    pub system_audio_volume: Volume,
    pub mic_device_id: Option<String>,
    pub mic_volume: Volume,
    pub video_encoder_id: String,
    pub framerate: u32,
    pub bitrate_kbps: u32,
    pub clips_dir: String,
}

/// Mathematical value of [`UserSettings`].
pub struct SettingsView {
    pub video_device_id: Seq<char>,
    pub system_audio_enabled: bool,
    pub system_audio_volume: u32,
    pub mic_device_id: Option<Seq<char>>,
    pub mic_volume: u32,
    pub video_encoder_id: Seq<char>,
    pub framerate: u32,
    pub bitrate_kbps: u32,
    pub clips_dir: Seq<char>,
}

/// The characters of an optional string.
pub open spec fn text_of(o: Option<String>) -> Option<Seq<char>> {
    match o {
        Some(s) => Some(s@),
        None => None,
    }
}

/// The characters of each string of a sequence.
pub open spec fn texts_of(s: Seq<String>) -> Seq<Seq<char>> {
    s.map_values(|t: String| t@)
}

impl View for UserSettings {
    type V = SettingsView;

    open spec fn view(&self) -> SettingsView {
        SettingsView {
            video_device_id: self.video_device_id@,
            system_audio_enabled: self.system_audio_enabled,
            system_audio_volume: self.system_audio_volume.bits,
            mic_device_id: text_of(self.mic_device_id),
            mic_volume: self.mic_volume.bits,
            video_encoder_id: self.video_encoder_id@,
            framerate: self.framerate,
            bitrate_kbps: self.bitrate_kbps,
            clips_dir: self.clips_dir@,
        }
    }
}

impl Clone for UserSettings {
    fn clone(&self) -> (out: Self)
        ensures
            out@ == self@,
    {
        UserSettings {
            video_device_id: self.video_device_id.clone(),
            system_audio_enabled: self.system_audio_enabled,
            system_audio_volume: self.system_audio_volume,
            mic_device_id: match &self.mic_device_id {
                Some(id) => Some(id.clone()),
                None => None,
            },
            mic_volume: self.mic_volume,
            video_encoder_id: self.video_encoder_id.clone(),
            framerate: self.framerate,
            bitrate_kbps: self.bitrate_kbps,
            clips_dir: self.clips_dir.clone(),
        }
    }
}

/// Why no default settings can be made.
#[derive(Debug, Clone, Copy, PartialEq, Eq, Structural)]
pub enum SettingsError {
    NoVideoDevices,
    NoVideoEncoders,
}

impl SettingsError {
    /// The error in words.
    pub fn message(&self) -> (text: String)
        ensures
            text@ == match *self {
                SettingsError::NoVideoDevices => "no video devices available"@,
                SettingsError::NoVideoEncoders => "no video encoders available"@,
            },
    {
        match self {
            SettingsError::NoVideoDevices => "no video devices available".to_owned(),
            SettingsError::NoVideoEncoders => "no video encoders available".to_owned(),
        }
    }
}

/// Directory that clips go to where the settings name none.
pub open spec fn default_clips_dir() -> Seq<char> {
    "clips"@
}

/// The settings made where none are stored.
pub open spec fn default_view(
    videos: Seq<VideoDevice>,
    encoders: Seq<VideoEncoderDescriptor>,
) -> SettingsView
    recommends
        videos.len() > 0,
        encoders.len() > 0,
{
    SettingsView {
        video_device_id: videos[preferred_video_index(videos).unwrap()].id@,
        system_audio_enabled: true,
        system_audio_volume: UNITY_GAIN_BITS,
        mic_device_id: None,
        mic_volume: UNITY_GAIN_BITS,
        video_encoder_id: encoders[preferred_encoder_index(encoders).unwrap()].id@,
        framerate: DEFAULT_FRAMERATE,
        bitrate_kbps: DEFAULT_BITRATE_KBPS,
        clips_dir: default_clips_dir(),
    }
}

/// The video device is unknown and another can take its place.
pub open spec fn video_reset(s: SettingsView, videos: Seq<VideoDevice>) -> bool {
    !has_video_device(videos, s.video_device_id) && videos.len() > 0
}

/// A microphone is named, and its identifier is empty or unknown.
pub open spec fn mic_unusable(s: SettingsView, microphones: Seq<AudioDevice>) -> bool {
    match s.mic_device_id {
        Some(id) => id.len() == 0 || !has_audio_device(microphones, id),
        None => false,
    }
}

/// The encoder is unknown and another can take its place.
pub open spec fn encoder_reset(s: SettingsView, encoders: Seq<VideoEncoderDescriptor>) -> bool {
    !has_encoder(encoders, s.video_encoder_id) && encoders.len() > 0
}

/// One of the two gains lies outside 0.0 to 2.0.
pub open spec fn volume_reset(s: SettingsView) -> bool {
    !gain_in_range(s.system_audio_volume) || !gain_in_range(s.mic_volume)
}

/// The gain `bits` where it is in range, 1.0 otherwise.
pub open spec fn gain_or_unity(bits: u32) -> u32 {
    if gain_in_range(bits) {
        bits
    } else {
        UNITY_GAIN_BITS
    }
}

/// The settings after every value that cannot be used is replaced.
pub open spec fn fallback_settings(
    s: SettingsView,
    videos: Seq<VideoDevice>,
    microphones: Seq<AudioDevice>,
    encoders: Seq<VideoEncoderDescriptor>,
) -> SettingsView {
    SettingsView {
        video_device_id: if video_reset(s, videos) {
            videos[preferred_video_index(videos).unwrap()].id@
        } else {
            s.video_device_id
        },
        system_audio_enabled: s.system_audio_enabled,
        system_audio_volume: gain_or_unity(s.system_audio_volume),
        mic_device_id: if mic_unusable(s, microphones) {
            None
        } else {
            s.mic_device_id
        },
        mic_volume: gain_or_unity(s.mic_volume),
        video_encoder_id: if encoder_reset(s, encoders) {
            encoders[preferred_encoder_index(encoders).unwrap()].id@
        } else {
            s.video_encoder_id
        },
        framerate: if s.framerate == 0 {
            DEFAULT_FRAMERATE
        } else {
            s.framerate
        },
        bitrate_kbps: if s.bitrate_kbps == 0 {
            DEFAULT_BITRATE_KBPS
        } else {
            s.bitrate_kbps
        },
        clips_dir: if s.clips_dir.len() == 0 {
            default_clips_dir()
        } else {
            s.clips_dir
        },
    }
}

/// The list `lines` with `text` added at its end where `applies`.
pub open spec fn with_note(lines: Seq<Seq<char>>, applies: bool, text: Seq<char>) -> Seq<
    Seq<char>,
> {
    if applies {
        lines.push(text)
    } else {
        lines
    }
}

/// The changes that `fallback_settings` makes, one line each, in the order in
/// which the values are looked at.
pub open spec fn fallback_changes(
    s: SettingsView,
    videos: Seq<VideoDevice>,
    microphones: Seq<AudioDevice>,
    encoders: Seq<VideoEncoderDescriptor>,
) -> Seq<Seq<char>> {
    let lines = Seq::<Seq<char>>::empty();
    let lines = with_note(lines, video_reset(s, videos), "video device reset to default"@);
    let lines = with_note(lines, mic_unusable(s, microphones), "microphone device cleared"@);
    let lines = with_note(lines, encoder_reset(s, encoders), "video encoder reset to default"@);
    let lines = with_note(lines, s.framerate == 0, "framerate reset to 60"@);
    let lines = with_note(lines, s.bitrate_kbps == 0, "bitrate reset to 20000 kbps"@);
    let lines = with_note(lines, volume_reset(s), "audio volume reset to 1.0"@);
    with_note(lines, s.clips_dir.len() == 0, "clips directory reset to default"@)
}

/// The first thing wrong with the settings, in words; `None` where they can
/// be used as they are.
pub open spec fn first_violation(
    s: SettingsView,
    videos: Seq<VideoDevice>,
    microphones: Seq<AudioDevice>,
    encoders: Seq<VideoEncoderDescriptor>,
) -> Option<Seq<char>> {
    if !has_video_device(videos, s.video_device_id) {
        Some("selected video device is not available"@)
    } else if mic_unusable(s, microphones) {
        Some("selected microphone is not available"@)
    } else if !has_encoder(encoders, s.video_encoder_id) {
        Some("selected video encoder is not available"@)
    } else if s.framerate == 0 {
        Some("framerate must be greater than zero"@)
    } else if s.bitrate_kbps == 0 {
        Some("bitrate must be greater than zero"@)
    } else if volume_reset(s) {
        Some("volume must be between 0.0 and 2.0"@)
    } else if s.clips_dir.len() == 0 {
        Some("clips directory must not be empty"@)
    } else {
        None
    }
}

/// Settings for a first run: the preferred screen and encoder, system audio
/// on at gain 1.0, no microphone, 60 frames per second at 20000 kbit/s.
pub fn default_settings(videos: &[VideoDevice], encoders: &[VideoEncoderDescriptor]) -> (out:
    Result<UserSettings, SettingsError>)
    ensures
        match out {
            Ok(s) => videos@.len() > 0 && encoders@.len() > 0 && s@ == default_view(
                videos@,
                encoders@,
            ),
            Err(SettingsError::NoVideoDevices) => videos@.len() == 0,
            Err(SettingsError::NoVideoEncoders) => videos@.len() > 0 && encoders@.len() == 0,
        },
{
    let video = match prefer_screen_device(videos) {
        Some(d) => d,
        None => {
            return Err(SettingsError::NoVideoDevices);
        },
    };
    let encoder = match prefer_hardware_encoder(encoders) {
        Some(e) => e,
        None => {
            return Err(SettingsError::NoVideoEncoders);
        },
    };
    Ok(
        UserSettings {
            video_device_id: video.id.clone(),
            system_audio_enabled: true,
            system_audio_volume: Volume::unity(),
            mic_device_id: None,
            mic_volume: Volume::unity(),
            video_encoder_id: encoder.id.clone(),
            framerate: DEFAULT_FRAMERATE,
            bitrate_kbps: DEFAULT_BITRATE_KBPS,
            clips_dir: "clips".to_owned(),
        },
    )
}

fn note_if(changes: &mut Vec<String>, applies: bool, text: &str)
    ensures
        texts_of(final(changes)@) == with_note(texts_of(old(changes)@), applies, text@),
{
    if applies {
        let line = text.to_owned();
        proof {
            assert(texts_of(changes@.push(line)) =~= texts_of(changes@).push(text@));
        }
        changes.push(line);
    }
}

/// Whether a microphone is named whose identifier is empty or unknown.
pub fn microphone_unusable(settings: &UserSettings, microphones: &[AudioDevice]) -> (bad: bool)
    ensures
        bad == mic_unusable(settings@, microphones@),
{
    match &settings.mic_device_id {
        Some(id) => id.as_str().unicode_len() == 0 || !contains_audio_device(microphones, id),
        None => false,
    }
}

/// Replaces every value that cannot be used and lists what was changed.
pub fn apply_startup_fallbacks(
    settings: UserSettings,
    videos: &[VideoDevice],
    microphones: &[AudioDevice],
    encoders: &[VideoEncoderDescriptor],
) -> (out: (UserSettings, Vec<String>))
    ensures
        out.0@ == fallback_settings(settings@, videos@, microphones@, encoders@),
        texts_of(out.1@) == fallback_changes(settings@, videos@, microphones@, encoders@),
{
    let mut settings = settings;
    let mut changes: Vec<String> = Vec::new();
    assert(texts_of(changes@) =~= Seq::<Seq<char>>::empty());

    let mut video_changed = false;
    if !contains_video_device(videos, &settings.video_device_id) {
        if let Some(video) = prefer_screen_device(videos) {
            settings.video_device_id = video.id.clone();
            video_changed = true;
        }
    }
    note_if(&mut changes, video_changed, "video device reset to default");

    let mic_changed = microphone_unusable(&settings, microphones);
    if mic_changed {
        settings.mic_device_id = None;
    }
    note_if(&mut changes, mic_changed, "microphone device cleared");

    let mut encoder_changed = false;
    if !contains_encoder(encoders, &settings.video_encoder_id) {
        if let Some(encoder) = prefer_hardware_encoder(encoders) {
            settings.video_encoder_id = encoder.id.clone();
            encoder_changed = true;
        }
    }
    note_if(&mut changes, encoder_changed, "video encoder reset to default");

    let framerate_changed = settings.framerate == 0;
    if framerate_changed {
        settings.framerate = DEFAULT_FRAMERATE;
    }
    note_if(&mut changes, framerate_changed, "framerate reset to 60");

    let bitrate_changed = settings.bitrate_kbps == 0;
    if bitrate_changed {
        settings.bitrate_kbps = DEFAULT_BITRATE_KBPS;
    }
    note_if(&mut changes, bitrate_changed, "bitrate reset to 20000 kbps");

    let system_ok = settings.system_audio_volume.in_range();
    let mic_ok = settings.mic_volume.in_range();
    if !system_ok {
        settings.system_audio_volume = Volume::unity();
    }
    if !mic_ok {
        settings.mic_volume = Volume::unity();
    }
    note_if(&mut changes, !system_ok || !mic_ok, "audio volume reset to 1.0");

    let dir_changed = settings.clips_dir.as_str().unicode_len() == 0;
    if dir_changed {
        settings.clips_dir = "clips".to_owned();
    }
    note_if(&mut changes, dir_changed, "clips directory reset to default");

    (settings, changes)
}

/// Checks the settings against what is present; the error is the first thing
/// found wrong, in words.
pub fn validate_settings(
    settings: &UserSettings,
    videos: &[VideoDevice],
    microphones: &[AudioDevice],
    encoders: &[VideoEncoderDescriptor],
) -> (out: Result<(), String>)
    ensures
        match out {
            Ok(_) => first_violation(settings@, videos@, microphones@, encoders@) is None,
            Err(text) => first_violation(settings@, videos@, microphones@, encoders@) == Some(
                text@,
            ),
        },
{
    if !contains_video_device(videos, &settings.video_device_id) {
        return Err("selected video device is not available".to_owned());
    }
    if microphone_unusable(settings, microphones) {
        return Err("selected microphone is not available".to_owned());
    }
    if !contains_encoder(encoders, &settings.video_encoder_id) {
        return Err("selected video encoder is not available".to_owned());
    }
    if settings.framerate == 0 {
        return Err("framerate must be greater than zero".to_owned());
    }
    if settings.bitrate_kbps == 0 {
        return Err("bitrate must be greater than zero".to_owned());
    }
    if !settings.system_audio_volume.in_range() || !settings.mic_volume.in_range() {
        return Err("volume must be between 0.0 and 2.0".to_owned());
    }
    if settings.clips_dir.as_str().unicode_len() == 0 {
        return Err("clips directory must not be empty".to_owned());
    }
    Ok(())
}

/// Replacing what cannot be used a second time changes nothing and lists
/// nothing.
pub proof fn law_fallbacks_idempotent(
    s: SettingsView,
    videos: Seq<VideoDevice>,
    microphones: Seq<AudioDevice>,
    encoders: Seq<VideoEncoderDescriptor>,
)
    ensures
        fallback_settings(fallback_settings(s, videos, microphones, encoders), videos, microphones, encoders)
            == fallback_settings(s, videos, microphones, encoders),
        fallback_changes(fallback_settings(s, videos, microphones, encoders), videos, microphones, encoders)
            == Seq::<Seq<char>>::empty(),
{
    let once = fallback_settings(s, videos, microphones, encoders);
    lemma_first_screen_in_range(videos, 0);
    lemma_first_hardware_in_range(encoders, 0);
    reveal_strlit("clips");
    if video_reset(s, videos) {
        let i = preferred_video_index(videos).unwrap();
        assert(videos[i].id@ == once.video_device_id);
    }
    if encoder_reset(s, encoders) {
        let i = preferred_encoder_index(encoders).unwrap();
        assert(encoders[i].id@ == once.video_encoder_id);
    }
    assert(!video_reset(once, videos));
    assert(!mic_unusable(once, microphones));
    assert(!encoder_reset(once, encoders));
    assert(!volume_reset(once));
    assert(once.clips_dir.len() > 0);
    assert(fallback_changes(once, videos, microphones, encoders) =~= Seq::<Seq<char>>::empty());
}

/// Where at least one video device and one encoder are present, the settings
/// that come out of the replacement pass validation.
pub proof fn law_fallbacks_validate(
    s: SettingsView,
    videos: Seq<VideoDevice>,
    microphones: Seq<AudioDevice>,
    encoders: Seq<VideoEncoderDescriptor>,
)
    requires
        videos.len() > 0,
        encoders.len() > 0,
    ensures
        first_violation(
            fallback_settings(s, videos, microphones, encoders),
            videos,
            microphones,
            encoders,
        ) is None,
{
    let once = fallback_settings(s, videos, microphones, encoders);
    lemma_first_screen_in_range(videos, 0);
    lemma_first_hardware_in_range(encoders, 0);
    reveal_strlit("clips");
    if video_reset(s, videos) {
        let i = preferred_video_index(videos).unwrap();
        assert(videos[i].id@ == once.video_device_id);
    }
    if encoder_reset(s, encoders) {
        let i = preferred_encoder_index(encoders).unwrap();
        assert(encoders[i].id@ == once.video_encoder_id);
    }
}

/// Settings that pass validation are left as they are, and nothing is listed.
pub proof fn law_valid_settings_unchanged(
    s: SettingsView,
    videos: Seq<VideoDevice>,
    microphones: Seq<AudioDevice>,
    encoders: Seq<VideoEncoderDescriptor>,
)
    requires
        first_violation(s, videos, microphones, encoders) is None,
    ensures
        fallback_settings(s, videos, microphones, encoders) == s,
        fallback_changes(s, videos, microphones, encoders) == Seq::<Seq<char>>::empty(),
{
    assert(fallback_changes(s, videos, microphones, encoders) =~= Seq::<Seq<char>>::empty());
}

} // verus!
