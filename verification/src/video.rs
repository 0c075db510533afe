//! The video branch of the capture graph: which monitor is captured, what the
//! encoder is told, and the elements the branch is made of.

use vstd::prelude::*;
use crate::encoders::{encoder_index_from, find_video_encoder, VideoEncoderDescriptor};
use crate::graph::{
    bare, decimal, decimal_text, element_views, prop, ElementSpec, ElementView, PropertyView,
    Setting, SettingView,
};
use crate::gst_capture::CaptureError;
use vstd::string::StringExecFns;
use crate::settings::UserSettings;
use crate::text::{colon_from, find_colon, number_of_field, parse_number, range_is};

verus! {

/// The signed number written by `field`: decimal digits, with or without a
/// plus sign in front, that make a number no greater than 2147483647.
pub open spec fn index_of_field(field: Seq<char>) -> Option<i32> {
    match number_of_field(field, i32::MAX as int) {
        Some(n) => Some(n as i32),
        None => None,
    }
}

/// The monitor that the identifier `id` selects. The identifier is cut at its
/// colons; it selects a monitor where its first part is `screen` and its
/// second part writes a number.
pub open spec fn monitor_index(id: Seq<char>) -> Option<i32> {
    let first = colon_from(id, 0);
    if first >= id.len() || id.take(first) != "screen"@ {
        None
    } else {
        index_of_field(id.subrange(first + 1, colon_from(id, first + 1)))
    }
}

/// The monitor that a video device identifier selects: `screen:<n>` selects
/// monitor `n`, every other identifier selects none.
pub fn monitor_index_from_id(id: &str) -> (out: Option<i32>)
    ensures
        out == monitor_index(id@),
{
    let n = id.unicode_len();
    let first = find_colon(id, 0);
    if first >= n {
        return None;
    }
    proof {
        assert(id@.take(first as int) =~= id@.subrange(0, first as int));
    }
    if !range_is(id, 0, first, "screen") {
        return None;
    }
    let second = find_colon(id, first + 1);
    match parse_number(id, first + 1, second, 2147483647) {
        Some(index) => Some(index as i32),
        None => None,
    }
}

/// The encoder takes its frames from Direct3D 11 memory.
pub open spec fn needs_d3d11(encoder: VideoEncoderDescriptor) -> bool {
    encoder@.required_memory == Some("D3D11Memory"@)
}

/// The encoder takes its frames from Direct3D 12 memory, which no capture
/// can provide.
pub open spec fn needs_d3d12(encoder: VideoEncoderDescriptor) -> bool {
    encoder@.required_memory == Some("D3D12Memory"@)
}

/// Whether the optional text `have` is `want`.
fn is_text(have: &Option<String>, want: &str) -> (same: bool)
    ensures
        same == (have is Some && have.unwrap()@ == want@),
{
    match have {
        Some(text) => *text == want.to_owned(),
        None => false,
    }
}

/// What the video branch captures.
#[derive(Debug)]
pub enum VideoSource {
    Screen { monitor_id: String, framerate: u32, requires_d3d11: bool },
}

impl VideoSource {
    /// Chooses the source for `config`. The encoder named there must be among
    /// `encoders` and must not ask for Direct3D 12 memory.
    pub fn from_settings(config: &UserSettings, encoders: &[VideoEncoderDescriptor]) -> (out:
        Result<VideoSource, CaptureError>)
        ensures
            match out {
                Ok(VideoSource::Screen { monitor_id, framerate, requires_d3d11 }) => {
                    &&& encoder_index_from(encoders@, config@.video_encoder_id, 0) is Some
                    &&& !needs_d3d12(
                        encoders@[encoder_index_from(
                            encoders@,
                            config@.video_encoder_id,
                            0,
                        ).unwrap()],
                    )
                    &&& requires_d3d11 == needs_d3d11(
                        encoders@[encoder_index_from(
                            encoders@,
                            config@.video_encoder_id,
                            0,
                        ).unwrap()],
                    )
                    &&& monitor_id@ == config@.video_device_id
                    &&& framerate == config@.framerate
                },
                Err(CaptureError::ConfigInvalid(text)) => {
                    match encoder_index_from(encoders@, config@.video_encoder_id, 0) {
                        Some(i) => needs_d3d12(encoders@[i]) && text@
                            == "D3D12 encoders are not supported"@,
                        None => text@ == "selected encoder not available"@,
                    }
                },
                Err(_) => false,
            },
    {
        let encoder = match find_video_encoder(encoders, &config.video_encoder_id) {
            Some(e) => e,
            None => {
                return Err(
                    CaptureError::ConfigInvalid("selected encoder not available".to_owned()),
                );
            },
        };
        if is_text(&encoder.required_memory, "D3D12Memory") {
            return Err(CaptureError::ConfigInvalid("D3D12 encoders are not supported".to_owned()));
        }
        let requires_d3d11 = is_text(&encoder.required_memory, "D3D11Memory");
        Ok(
            VideoSource::Screen {
                monitor_id: config.video_device_id.clone(),
                framerate: config.framerate,
                requires_d3d11,
            },
        )
    }

    /// The monitor to capture, where the identifier names one.
    pub fn monitor(&self) -> (out: Option<i32>)
        ensures
            out == monitor_index(self->monitor_id@),
    {
        match self {
            VideoSource::Screen { monitor_id, .. } => monitor_index_from_id(monitor_id.as_str()),
        }
    }
}

/// What the video encoder is told.
#[derive(Debug)]
pub struct VideoEncoder {
    pub encoder_id: String,
    pub framerate: u32,
    pub bitrate_kbps: u32,
}

/// Distance between keyframes for a frame rate: one second of frames, and at
/// least one frame.
pub open spec fn gop_for(framerate: u32) -> u32 {
    if framerate < 1 {
        1
    } else {
        framerate
    }
}

impl VideoEncoder {
    pub fn from_settings(config: &UserSettings) -> (out: Self)
        ensures
            out.encoder_id@ == config@.video_encoder_id,
            out.framerate == config@.framerate,
            out.bitrate_kbps == config@.bitrate_kbps,
    {
        VideoEncoder {
            encoder_id: config.video_encoder_id.clone(),
            framerate: config.framerate,
            bitrate_kbps: config.bitrate_kbps,
        }
    }

    /// Distance between keyframes, in frames.
    pub fn gop(&self) -> (frames: u32)
        ensures
            frames == gop_for(self.framerate),
            frames >= 1,
    {
        if self.framerate < 1 {
            1
        } else {
            self.framerate
        }
    }
}

/// One element of the video branch.
#[derive(Debug, Clone, Copy, PartialEq, Eq, Structural)]
pub enum VideoStage {
    ScreenSource,
    GpuConvert,
    Download,
    CpuConvert,
    RawCaps,
    Encoder,
    Parser,
    EncodedCaps,
    Queue,
}

/// The elements of the video branch in the order in which they are linked.
/// Frames stay in GPU memory up to the encoder where it asks for that, and
/// are brought to system memory and converted there where it does not.
pub open spec fn video_stages(gpu_memory: bool) -> Seq<VideoStage> {
    if gpu_memory {
        seq![
            VideoStage::ScreenSource,
            VideoStage::GpuConvert,
            VideoStage::RawCaps,
            VideoStage::Encoder,
            VideoStage::Parser,
            VideoStage::EncodedCaps,
            VideoStage::Queue,
        ]
    } else {
        seq![
            VideoStage::ScreenSource,
            VideoStage::GpuConvert,
            VideoStage::Download,
            VideoStage::CpuConvert,
            VideoStage::RawCaps,
            VideoStage::Encoder,
            VideoStage::Parser,
            VideoStage::EncodedCaps,
            VideoStage::Queue,
        ]
    }
}

/// The video branch of the graph.
#[derive(Debug)]
pub struct VideoGraph {
    pub source: VideoSource,
    pub encoder: VideoEncoder,
}

impl VideoGraph {
    /// Plans the video branch for `config`; fails as
    /// [`VideoSource::from_settings`] does.
    pub fn build(config: &UserSettings, encoders: &[VideoEncoderDescriptor]) -> (out: Result<
        VideoGraph,
        CaptureError,
    >)
        ensures
            match out {
                Ok(graph) => {
                    &&& encoder_index_from(encoders@, config@.video_encoder_id, 0) is Some
                    &&& !needs_d3d12(
                        encoders@[encoder_index_from(
                            encoders@,
                            config@.video_encoder_id,
                            0,
                        ).unwrap()],
                    )
                    &&& graph.source->requires_d3d11 == needs_d3d11(
                        encoders@[encoder_index_from(
                            encoders@,
                            config@.video_encoder_id,
                            0,
                        ).unwrap()],
                    )
                    &&& graph.source->monitor_id@ == config@.video_device_id
                    &&& graph.source->framerate == config@.framerate
                    &&& graph.encoder.encoder_id@ == config@.video_encoder_id
                    &&& graph.encoder.framerate == config@.framerate
                    &&& graph.encoder.bitrate_kbps == config@.bitrate_kbps
                },
                Err(CaptureError::ConfigInvalid(text)) => {
                    match encoder_index_from(encoders@, config@.video_encoder_id, 0) {
                        Some(i) => needs_d3d12(encoders@[i]) && text@
                            == "D3D12 encoders are not supported"@,
                        None => text@ == "selected encoder not available"@,
                    }
                },
                Err(_) => false,
            },
    {
        match VideoSource::from_settings(config, encoders) {
            Ok(source) => Ok(VideoGraph { source, encoder: VideoEncoder::from_settings(config) }),
            Err(e) => Err(e),
        }
    }

    /// The elements of the branch, first to last.
    pub fn stages(&self) -> (out: Vec<VideoStage>)
        ensures
            out@ == video_stages(self.source->requires_d3d11),
    {
        let gpu_memory = match &self.source {
            VideoSource::Screen { requires_d3d11, .. } => *requires_d3d11,
        };
        let mut out: Vec<VideoStage> = Vec::new();
        out.push(VideoStage::ScreenSource);
        out.push(VideoStage::GpuConvert);
        if !gpu_memory {
            out.push(VideoStage::Download);
            out.push(VideoStage::CpuConvert);
        }
        out.push(VideoStage::RawCaps);
        out.push(VideoStage::Encoder);
        out.push(VideoStage::Parser);
        out.push(VideoStage::EncodedCaps);
        out.push(VideoStage::Queue);
        proof {
            assert(out@ =~= video_stages(gpu_memory));
        }
        out
    }
}

/// The caps of the raw video that reaches the encoder: NV12 at `framerate`
/// frames per second, in Direct3D 11 memory where `gpu_memory`.
pub open spec fn raw_video_caps(framerate: u32, gpu_memory: bool) -> Seq<char> {
    if gpu_memory {
        "video/x-raw(memory:D3D11Memory), format=NV12, framerate="@ + decimal_text(
            framerate as nat,
        ) + "/1"@
    } else {
        "video/x-raw, format=NV12, framerate="@ + decimal_text(framerate as nat) + "/1"@
    }
}

/// The keyframe distance as the signed number that the encoder's `gop-size`
/// takes: the largest such number where the distance is beyond it.
pub open spec fn gop_size(framerate: u32) -> i32 {
    if gop_for(framerate) > i32::MAX {
        i32::MAX
    } else {
        gop_for(framerate) as i32
    }
}

/// The properties of the screen source: the monitor, where the identifier
/// names one, and timestamps on.
pub open spec fn screen_source_properties(monitor_id: Seq<char>) -> Seq<PropertyView> {
    match monitor_index(monitor_id) {
        Some(index) => seq![
            prop("monitor-index"@, SettingView::Int(index)),
            prop("do-timestamp"@, SettingView::Flag(true)),
        ],
        None => seq![prop("do-timestamp"@, SettingView::Flag(true))],
    }
}

/// The element that stands at `stage` of the video branch.
pub open spec fn video_element(
    stage: VideoStage,
    monitor_id: Seq<char>,
    source_framerate: u32,
    gpu_memory: bool,
    encoder_id: Seq<char>,
    encoder_framerate: u32,
    bitrate_kbps: u32,
) -> ElementView {
    match stage {
        VideoStage::ScreenSource => ElementView {
            factory: "d3d11screencapturesrc"@,
            properties: screen_source_properties(monitor_id),
        },
        VideoStage::GpuConvert => bare("d3d11convert"@),
        VideoStage::Download => bare("d3d11download"@),
        VideoStage::CpuConvert => bare("videoconvert"@),
        VideoStage::RawCaps => ElementView {
            factory: "capsfilter"@,
            properties: seq![
                prop("caps"@, SettingView::Text(raw_video_caps(source_framerate, gpu_memory))),
            ],
        },
        VideoStage::Encoder => ElementView {
            factory: encoder_id,
            properties: seq![
                prop("bitrate"@, SettingView::UInt(bitrate_kbps)),
                prop("gop-size"@, SettingView::Int(gop_size(encoder_framerate))),
                prop("key-int-max"@, SettingView::UInt(gop_for(encoder_framerate))),
                prop("zero-latency"@, SettingView::Flag(true)),
                prop("insert-sps-pps"@, SettingView::Flag(true)),
            ],
        },
        VideoStage::Parser => ElementView {
            factory: "h264parse"@,
            properties: seq![prop("config-interval"@, SettingView::Int(1))],
        },
        VideoStage::EncodedCaps => ElementView {
            factory: "capsfilter"@,
            properties: seq![
                prop(
                    "caps"@,
                    SettingView::Text("video/x-h264, stream-format=byte-stream, alignment=au"@),
                ),
            ],
        },
        VideoStage::Queue => ElementView {
            factory: "queue"@,
            properties: seq![prop("leaky"@, SettingView::Text("downstream"@))],
        },
    }
}

impl VideoGraph {
    /// The element that stands at `stage` of this branch.
    pub open spec fn element_view(&self, stage: VideoStage) -> ElementView {
        video_element(
            stage,
            self.source->monitor_id@,
            self.source->framerate,
            self.source->requires_d3d11,
            self.encoder.encoder_id@,
            self.encoder.framerate,
            self.encoder.bitrate_kbps,
        )
    }

    /// Describes the element that stands at `stage`.
    pub fn element(&self, stage: VideoStage) -> (out: ElementSpec)
        ensures
            out@ == self.element_view(stage),
    {
        match &self.source {
            VideoSource::Screen { monitor_id, framerate, requires_d3d11 } => {
                match stage {
                    VideoStage::ScreenSource => {
                        let mut out = ElementSpec::new("d3d11screencapturesrc");
                        match monitor_index_from_id(monitor_id.as_str()) {
                            Some(index) => {
                                out.set("monitor-index", Setting::Int(index));
                            },
                            None => {},
                        }
                        out.set("do-timestamp", Setting::Flag(true));
                        proof {
                            assert(out@.properties =~= screen_source_properties(monitor_id@));
                        }
                        out
                    },
                    VideoStage::GpuConvert => ElementSpec::new("d3d11convert"),
                    VideoStage::Download => ElementSpec::new("d3d11download"),
                    VideoStage::CpuConvert => ElementSpec::new("videoconvert"),
                    VideoStage::RawCaps => {
                        let mut caps = if *requires_d3d11 {
                            "video/x-raw(memory:D3D11Memory), format=NV12, framerate=".to_owned()
                        } else {
                            "video/x-raw, format=NV12, framerate=".to_owned()
                        };
                        let rate = decimal(*framerate);
                        caps.append(rate.as_str());
                        caps.append("/1");
                        let mut out = ElementSpec::new("capsfilter");
                        out.set("caps", Setting::Text(caps));
                        proof {
                            assert(out@.properties =~= self.element_view(stage).properties);
                        }
                        out
                    },
                    VideoStage::Encoder => {
                        let gop = self.encoder.gop();
                        let signed: i32 = if gop > 2147483647 {
                            2147483647
                        } else {
                            gop as i32
                        };
                        let mut out = ElementSpec::new(self.encoder.encoder_id.as_str());
                        out.set("bitrate", Setting::UInt(self.encoder.bitrate_kbps));
                        out.set("gop-size", Setting::Int(signed));
                        out.set("key-int-max", Setting::UInt(gop));
                        out.set("zero-latency", Setting::Flag(true));
                        out.set("insert-sps-pps", Setting::Flag(true));
                        proof {
                            assert(out@.properties =~= self.element_view(stage).properties);
                        }
                        out
                    },
                    VideoStage::Parser => {
                        let mut out = ElementSpec::new("h264parse");
                        out.set("config-interval", Setting::Int(1));
                        proof {
                            assert(out@.properties =~= self.element_view(stage).properties);
                        }
                        out
                    },
                    VideoStage::EncodedCaps => {
                        let mut out = ElementSpec::new("capsfilter");
                        out.set(
                            "caps",
                            Setting::Text(
                                "video/x-h264, stream-format=byte-stream, alignment=au".to_owned(),
                            ),
                        );
                        proof {
                            assert(out@.properties =~= self.element_view(stage).properties);
                        }
                        out
                    },
                    VideoStage::Queue => {
                        let mut out = ElementSpec::new("queue");
                        out.set("leaky", Setting::Text("downstream".to_owned()));
                        proof {
                            assert(out@.properties =~= self.element_view(stage).properties);
                        }
                        out
                    },
                }
            },
        }
    }

    /// Describes the elements of the branch, first to last: one for each
    /// stage, in the order of the stages.
    pub fn elements(&self) -> (out: Vec<ElementSpec>)
        ensures
            out@.len() == video_stages(self.source->requires_d3d11).len(),
            forall|i: int|
                0 <= i < out@.len() ==> (#[trigger] out@[i])@ == self.element_view(
                    video_stages(self.source->requires_d3d11)[i],
                ),
    {
        let stages = self.stages();
        let mut out: Vec<ElementSpec> = Vec::new();
        let mut i: usize = 0;
        while i < stages.len()
            invariant
                stages@ == video_stages(self.source->requires_d3d11),
                i <= stages@.len(),
                out@.len() == i,
                forall|j: int|
                    0 <= j < i ==> (#[trigger] out@[j])@ == self.element_view(stages@[j]),
            decreases stages@.len() - i,
        {
            let element = self.element(stages[i]);
            out.push(element);
            i = i + 1;
        }
        out
    }
}

} // verus!
