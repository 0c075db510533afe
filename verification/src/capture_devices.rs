//! Descriptions of the video and audio devices a capture can draw from.

use vstd::prelude::*;
use crate::text::{contains_text, has_substring};

verus! {

/// What a video device shows.
#[derive(Debug, Clone, Copy, PartialEq, Eq, Structural)]
pub enum VideoDeviceKind {
    Screen,
    Camera,
}

/// A display or camera that can be captured.
#[derive(Debug)]
pub struct VideoDevice {
    pub id: String,
    pub label: String,
    pub kind: VideoDeviceKind,
}

/// An audio endpoint. `is_input` tells a microphone from a playback device.
#[derive(Debug)]
pub struct AudioDevice {
    pub id: String,
    pub label: String,
    pub is_input: bool,
}

impl Clone for VideoDevice {
    fn clone(&self) -> (out: Self)
        ensures
            out.id@ == self.id@,
            out.label@ == self.label@,
            out.kind == self.kind,
    {
        VideoDevice { id: self.id.clone(), label: self.label.clone(), kind: self.kind }
    }
}

impl Clone for AudioDevice {
    fn clone(&self) -> (out: Self)
        ensures
            out.id@ == self.id@,
            out.label@ == self.label@,
            out.is_input == self.is_input,
    {
        AudioDevice { id: self.id.clone(), label: self.label.clone(), is_input: self.is_input }
    }
}

/// Some video device of `devices` has the identifier `id`.
pub open spec fn has_video_device(devices: Seq<VideoDevice>, id: Seq<char>) -> bool {
    exists|i: int| 0 <= i < devices.len() && #[trigger] devices[i].id@ == id
}

/// Some audio device of `devices` has the identifier `id`.
pub open spec fn has_audio_device(devices: Seq<AudioDevice>, id: Seq<char>) -> bool {
    exists|i: int| 0 <= i < devices.len() && #[trigger] devices[i].id@ == id
}

/// Position of the first screen among `devices`, counted from `from`.
pub open spec fn first_screen_from(devices: Seq<VideoDevice>, from: int) -> Option<int>
    decreases devices.len() - from,
{
    if from < 0 || from >= devices.len() {
        None
    } else if devices[from].kind == VideoDeviceKind::Screen {
        Some(from)
    } else {
        first_screen_from(devices, from + 1)
    }
}

/// Position of the device to use by default: the first screen, or the first
/// device where none is a screen.
pub open spec fn preferred_video_index(devices: Seq<VideoDevice>) -> Option<int> {
    if devices.len() == 0 {
        None
    } else {
        match first_screen_from(devices, 0) {
            Some(i) => Some(i),
            None => Some(0),
        }
    }
}

/// The preferred index, where there is one, is a position of the sequence.
pub proof fn lemma_first_screen_in_range(devices: Seq<VideoDevice>, from: int)
    requires
        0 <= from,
    ensures
        match first_screen_from(devices, from) {
            Some(i) => from <= i < devices.len() && devices[i].kind == VideoDeviceKind::Screen,
            None => forall|j: int|
                from <= j < devices.len() ==> devices[j].kind != VideoDeviceKind::Screen,
        },
    decreases devices.len() - from,
{
    if from < devices.len() && devices[from].kind != VideoDeviceKind::Screen {
        lemma_first_screen_in_range(devices, from + 1);
    }
}

/// Whether `devices` holds a device with the identifier `id`.
pub fn contains_video_device(devices: &[VideoDevice], id: &String) -> (found: bool)
    ensures
        found == has_video_device(devices@, id@),
{
    let mut i: usize = 0;
    while i < devices.len()
        invariant
            i <= devices.len(),
            forall|j: int| 0 <= j < i ==> devices@[j].id@ != id@,
        decreases devices.len() - i,
    {
        if devices[i].id == *id {
            return true;
        }
        i = i + 1;
    }
    false
}

/// Whether `devices` holds a device with the identifier `id`.
pub fn contains_audio_device(devices: &[AudioDevice], id: &String) -> (found: bool)
    ensures
        found == has_audio_device(devices@, id@),
{
    let mut i: usize = 0;
    while i < devices.len()
        invariant
            i <= devices.len(),
            forall|j: int| 0 <= j < i ==> devices@[j].id@ != id@,
        decreases devices.len() - i,
    {
        if devices[i].id == *id {
            return true;
        }
        i = i + 1;
    }
    false
}

/// The device to use by default: the first screen, or the first device where
/// none is a screen.
pub fn prefer_screen_device(devices: &[VideoDevice]) -> (chosen: Option<&VideoDevice>)
    ensures
        match chosen {
            Some(d) => preferred_video_index(devices@) is Some && *d == devices@[
                preferred_video_index(devices@).unwrap()],
            None => preferred_video_index(devices@) is None,
        },
{
    let mut i: usize = 0;
    while i < devices.len()
        invariant
            i <= devices.len(),
            first_screen_from(devices@, 0) == first_screen_from(devices@, i as int),
        decreases devices.len() - i,
    {
        if devices[i].kind == VideoDeviceKind::Screen {
            return Some(&devices[i]);
        }
        i = i + 1;
    }
    if devices.len() > 0 {
        Some(&devices[0])
    } else {
        None
    }
}

/// Mathematical value of an [`AudioDevice`].
pub struct AudioDeviceView {
    pub id: Seq<char>,
    pub label: Seq<char>,
    pub is_input: bool,
}

impl View for AudioDevice {
    type V = AudioDeviceView;

    open spec fn view(&self) -> AudioDeviceView {
        AudioDeviceView { id: self.id@, label: self.label@, is_input: self.is_input }
    }
}

/// The values of a sequence of audio devices, in the same order.
pub open spec fn audio_device_views(s: Seq<AudioDevice>) -> Seq<AudioDeviceView> {
    s.map_values(|d: AudioDevice| d@)
}

/// What the device monitor tells of one audio device.
#[derive(Debug)]
pub struct DeviceProbe {
    /// The device's class, such as `Audio/Source`.
    pub device_class: String,
    /// The property `loopback`, where the device has it.
    pub loopback: Option<bool>,
    /// The property `device`, where the device has it.
    pub device: Option<String>,
    /// The property `device-id`, where the device has it.
    pub device_id: Option<String>,
    /// The property `device.id`, where the device has it.
    pub device_dot_id: Option<String>,
    pub display_name: String,
}

/// The identifier of a probed device: the first that it has of the
/// properties `device`, `device-id` and `device.id`.
pub open spec fn probe_id(probe: DeviceProbe) -> Option<Seq<char>> {
    match probe.device {
        Some(id) => Some(id@),
        None => match probe.device_id {
            Some(id) => Some(id@),
            None => match probe.device_dot_id {
                Some(id) => Some(id@),
                None => None,
            },
        },
    }
}

/// The probed device is a microphone: an audio source that is no sink and
/// no loopback, and that has an identifier.
pub open spec fn is_microphone(probe: DeviceProbe) -> bool {
    &&& has_substring(probe.device_class@, "Audio/Source"@)
    &&& !has_substring(probe.device_class@, "Audio/Sink"@)
    &&& probe.loopback != Some(true)
    &&& probe_id(probe) is Some
}

/// The microphones among `probes`, in their order.
pub open spec fn microphones_of(probes: Seq<DeviceProbe>) -> Seq<AudioDeviceView>
    decreases probes.len(),
{
    if probes.len() == 0 {
        Seq::<AudioDeviceView>::empty()
    } else if is_microphone(probes.last()) {
        microphones_of(probes.drop_last()).push(
            AudioDeviceView {
                id: probe_id(probes.last()).unwrap(),
                label: probes.last().display_name@,
                is_input: true,
            },
        )
    } else {
        microphones_of(probes.drop_last())
    }
}

/// The microphone that a probed device is, if it is one.
pub fn microphone_of(probe: &DeviceProbe) -> (out: Option<AudioDevice>)
    ensures
        out is Some <==> is_microphone(*probe),
        out is Some ==> out.unwrap()@ == (AudioDeviceView {
            id: probe_id(*probe).unwrap(),
            label: probe.display_name@,
            is_input: true,
        }),
{
    if !contains_text(probe.device_class.as_str(), "Audio/Source") {
        return None;
    }
    if contains_text(probe.device_class.as_str(), "Audio/Sink") {
        return None;
    }
    match probe.loopback {
        Some(true) => {
            return None;
        },
        _ => {},
    }
    let id = match &probe.device {
        Some(id) => id.clone(),
        None => match &probe.device_id {
            Some(id) => id.clone(),
            None => match &probe.device_dot_id {
                Some(id) => id.clone(),
                None => {
                    return None;
                },
            },
        },
    };
    Some(AudioDevice { id, label: probe.display_name.clone(), is_input: true })
}

/// The microphones among the probed devices, in their order. A loopback
/// device is never among them.
pub fn list_microphone_devices(probes: &[DeviceProbe]) -> (out: Vec<AudioDevice>)
    ensures
        audio_device_views(out@) == microphones_of(probes@),
{
    let mut out: Vec<AudioDevice> = Vec::new();
    let mut i: usize = 0;
    proof {
        assert(audio_device_views(out@) =~= microphones_of(probes@.take(0)));
    }
    while i < probes.len()
        invariant
            i <= probes@.len(),
            audio_device_views(out@) == microphones_of(probes@.take(i as int)),
        decreases probes@.len() - i,
    {
        proof {
            assert(probes@.take(i + 1).drop_last() =~= probes@.take(i as int));
            assert(probes@.take(i + 1).last() == probes@[i as int]);
        }
        match microphone_of(&probes[i]) {
            Some(mic) => {
                proof {
                    assert(audio_device_views(out@.push(mic)) =~= audio_device_views(out@).push(
                        mic@,
                    ));
                }
                out.push(mic);
            },
            None => {},
        }
        i = i + 1;
    }
    proof {
        assert(probes@.take(i as int) =~= probes@);
    }
    out
}

} // verus!
