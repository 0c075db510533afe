//! Command-line arguments for capturing with FFmpeg.

use vstd::prelude::*;
use vstd::string::StringExecFns;
use crate::graph::{decimal, decimal_text};
use crate::text::{fields_from, number_of_field, parse_number, range_is, split_fields};

verus! {

/// The system the capture runs on.
#[derive(Debug, Clone, Copy, PartialEq, Eq, Structural)]
pub enum Platform {
    Windows,
    MacOs,
}

/// What FFmpeg captures video from.
#[derive(Debug, Clone, Copy, PartialEq, Eq, Structural)]
pub enum CaptureSource {
    Screen,
    Monitor { index: u32 },
}

/// What FFmpeg captures audio from.
#[derive(Debug)]
pub enum AudioCaptureSource {
    Device { id: String },
}

/// The source that a video device identifier names: `avf:video:<n>` names
/// monitor `n`, `screen:primary` names the screen, nothing else names a
/// source.
pub open spec fn source_of(id: Seq<char>) -> Option<CaptureSource> {
    let parts = fields_from(id, 0);
    if parts.len() == 3 && parts[0] == "avf"@ && parts[1] == "video"@ {
        match number_of_field(parts[2], u32::MAX as int) {
            Some(n) => Some(CaptureSource::Monitor { index: n as u32 }),
            None => None,
        }
    } else if parts.len() == 2 && parts[0] == "screen"@ && parts[1] == "primary"@ {
        Some(CaptureSource::Screen)
    } else {
        None
    }
}

impl CaptureSource {
    /// The source that the video device identifier `id` names.
    pub fn from_device_id(id: &str) -> (out: Option<Self>)
        ensures
            out == source_of(id@),
    {
        let parts = split_fields(id);
        if parts.len() == 3 {
            let (a, b) = parts[0];
            let (c, d) = parts[1];
            let (e, f) = parts[2];
            if range_is(id, a, b, "avf") && range_is(id, c, d, "video") {
                return match parse_number(id, e, f, 0xFFFF_FFFF) {
                    Some(index) => Some(CaptureSource::Monitor { index }),
                    None => None,
                };
            }
            None
        } else if parts.len() == 2 {
            let (a, b) = parts[0];
            let (c, d) = parts[1];
            if range_is(id, a, b, "screen") && range_is(id, c, d, "primary") {
                Some(CaptureSource::Screen)
            } else {
                None
            }
        } else {
            None
        }
    }
}

impl AudioCaptureSource {
    /// The source that the audio device identifier `id` names: the device of
    /// that identifier.
    pub fn from_device_id(id: &str) -> (out: Option<Self>)
        ensures
            out is Some,
            out.unwrap()->id@ == id@,
    {
        Some(AudioCaptureSource::Device { id: id.to_owned() })
    }
}

/// The characters of each string of a sequence.
pub open spec fn arg_views(s: Seq<String>) -> Seq<Seq<char>> {
    s.map_values(|t: String| t@)
}

/// The arguments that select the video input.
pub open spec fn screen_args(platform: Platform, source: CaptureSource) -> Seq<Seq<char>> {
    match platform {
        Platform::Windows => seq![
            "-f"@,
            "gdigrab"@,
            "-draw_mouse"@,
            "1"@,
            "-i"@,
            "desktop"@,
        ],
        Platform::MacOs => seq![
            "-f"@,
            "avfoundation"@,
            "-i"@,
            match source {
                CaptureSource::Screen => "0"@,
                CaptureSource::Monitor { index } => decimal_text(index as nat),
            },
        ],
    }
}

/// The arguments that select the audio input: none on Windows; on macOS the
/// device whose number is the last part of the identifier.
pub open spec fn audio_args(platform: Platform, source: AudioCaptureSource) -> Seq<Seq<char>> {
    match platform {
        Platform::Windows => Seq::<Seq<char>>::empty(),
        Platform::MacOs => seq![
            "-f"@,
            "avfoundation"@,
            "-i"@,
            ":"@ + fields_from(source->id@, 0).last(),
        ],
    }
}

fn push_arg(args: &mut Vec<String>, text: &str)
    ensures
        arg_views(final(args)@) == arg_views(old(args)@).push(text@),
{
    let arg = text.to_owned();
    proof {
        assert(arg_views(args@.push(arg)) =~= arg_views(args@).push(text@));
    }
    args.push(arg);
}

/// The arguments that select the video input.
pub fn screen_capture_args(platform: Platform, source: &CaptureSource) -> (out: Vec<String>)
    ensures
        arg_views(out@) == screen_args(platform, *source),
{
    let mut out: Vec<String> = Vec::new();
    proof {
        assert(arg_views(out@) =~= Seq::<Seq<char>>::empty());
    }
    push_arg(&mut out, "-f");
    match platform {
        Platform::Windows => {
            push_arg(&mut out, "gdigrab");
            push_arg(&mut out, "-draw_mouse");
            push_arg(&mut out, "1");
            push_arg(&mut out, "-i");
            push_arg(&mut out, "desktop");
        },
        Platform::MacOs => {
            push_arg(&mut out, "avfoundation");
            push_arg(&mut out, "-i");
            match source {
                CaptureSource::Screen => {
                    push_arg(&mut out, "0");
                },
                CaptureSource::Monitor { index } => {
                    let number = decimal(*index);
                    push_arg(&mut out, number.as_str());
                },
            }
        },
    }
    proof {
        assert(arg_views(out@) =~= screen_args(platform, *source));
    }
    out
}

/// The arguments that select the audio input.
pub fn audio_capture_args(platform: Platform, source: &AudioCaptureSource) -> (out: Vec<String>)
    ensures
        arg_views(out@) == audio_args(platform, *source),
{
    let mut out: Vec<String> = Vec::new();
    proof {
        assert(arg_views(out@) =~= Seq::<Seq<char>>::empty());
    }
    match platform {
        Platform::Windows => {},
        Platform::MacOs => {
            match source {
                AudioCaptureSource::Device { id } => {
                    let parts = split_fields(id.as_str());
                    proof {
                        crate::text::lemma_fields_nonempty(id@, 0);
                    }
                    let (from, to) = parts[parts.len() - 1];
                    let mut device = ":".to_owned();
                    device.append(id.as_str().substring_char(from, to));
                    push_arg(&mut out, "-f");
                    push_arg(&mut out, "avfoundation");
                    push_arg(&mut out, "-i");
                    push_arg(&mut out, device.as_str());
                },
            }
        },
    }
    proof {
        assert(arg_views(out@) =~= audio_args(platform, *source));
    }
    out
}

/// The whole command line: quiet logging, the frame rate, the video input
/// of `video_device_id` (the screen where the identifier names no source),
/// low-latency H.264, and an MPEG-TS stream on the standard output.
pub open spec fn ffmpeg_args(platform: Platform, video_device_id: Seq<char>, framerate: u32) -> Seq<
    Seq<char>,
> {
    seq!["-hide_banner"@, "-loglevel"@, "error"@, "-framerate"@, decimal_text(framerate as nat)]
        + screen_args(
        platform,
        match source_of(video_device_id) {
            Some(source) => source,
            None => CaptureSource::Screen,
        },
    ) + seq![
        "-fflags"@,
        "+genpts"@,
        "-c:v"@,
        "libx264"@,
        "-preset"@,
        "ultrafast"@,
        "-tune"@,
        "zerolatency"@,
        "-flush_packets"@,
        "1"@,
        "-f"@,
        "mpegts"@,
        "pipe:1"@,
    ]
}

/// The whole command line for a capture of `video_device_id` at `framerate`
/// frames per second.
pub fn build_ffmpeg_args(platform: Platform, video_device_id: &str, framerate: u32) -> (out: Vec<
    String,
>)
    ensures
        arg_views(out@) == ffmpeg_args(platform, video_device_id@, framerate),
{
    let source = match CaptureSource::from_device_id(video_device_id) {
        Some(source) => source,
        None => CaptureSource::Screen,
    };
    let mut out: Vec<String> = Vec::new();
    proof {
        assert(arg_views(out@) =~= Seq::<Seq<char>>::empty());
    }
    push_arg(&mut out, "-hide_banner");
    push_arg(&mut out, "-loglevel");
    push_arg(&mut out, "error");
    push_arg(&mut out, "-framerate");
    let rate = decimal(framerate);
    push_arg(&mut out, rate.as_str());
    let ghost head = arg_views(out@);
    let input = screen_capture_args(platform, &source);
    let mut i: usize = 0;
    while i < input.len()
        invariant
            i <= input@.len(),
            arg_views(out@) == head + arg_views(input@).take(i as int),
        decreases input@.len() - i,
    {
        proof {
            assert(arg_views(input@).take(i + 1) =~= arg_views(input@).take(i as int).push(
                input@[i as int]@,
            ));
        }
        push_arg(&mut out, input[i].as_str());
        i = i + 1;
    }
    proof {
        assert(arg_views(input@).take(i as int) =~= arg_views(input@));
    }
    push_arg(&mut out, "-fflags");
    push_arg(&mut out, "+genpts");
    push_arg(&mut out, "-c:v");
    push_arg(&mut out, "libx264");
    push_arg(&mut out, "-preset");
    push_arg(&mut out, "ultrafast");
    push_arg(&mut out, "-tune");
    push_arg(&mut out, "zerolatency");
    push_arg(&mut out, "-flush_packets");
    push_arg(&mut out, "1");
    push_arg(&mut out, "-f");
    push_arg(&mut out, "mpegts");
    push_arg(&mut out, "pipe:1");
    proof {
        assert(arg_views(out@) =~= ffmpeg_args(platform, video_device_id@, framerate));
    }
    out
}

/// The command line of a capture of the whole screen that is paced at the
/// input's own rate and muxed without delay.
pub open spec fn screen_process_args(platform: Platform) -> Seq<Seq<char>> {
    seq!["-hide_banner"@, "-loglevel"@, "error"@, "-re"@] + screen_args(
        platform,
        CaptureSource::Screen,
    ) + seq![
        "-fflags"@,
        "+genpts"@,
        "-c:v"@,
        "libx264"@,
        "-preset"@,
        "ultrafast"@,
        "-tune"@,
        "zerolatency"@,
        "-flush_packets"@,
        "1"@,
        "-muxdelay"@,
        "0"@,
        "-muxpreload"@,
        "0"@,
        "-f"@,
        "mpegts"@,
        "pipe:1"@,
    ]
}

/// The command line that the capture process is started with.
pub fn process_args(platform: Platform) -> (out: Vec<String>)
    ensures
        arg_views(out@) == screen_process_args(platform),
{
    let mut out: Vec<String> = Vec::new();
    proof {
        assert(arg_views(out@) =~= Seq::<Seq<char>>::empty());
    }
    push_arg(&mut out, "-hide_banner");
    push_arg(&mut out, "-loglevel");
    push_arg(&mut out, "error");
    push_arg(&mut out, "-re");
    let ghost head = arg_views(out@);
    let input = screen_capture_args(platform, &CaptureSource::Screen);
    let mut i: usize = 0;
    while i < input.len()
        invariant
            i <= input@.len(),
            arg_views(out@) == head + arg_views(input@).take(i as int),
        decreases input@.len() - i,
    {
        proof {
            assert(arg_views(input@).take(i + 1) =~= arg_views(input@).take(i as int).push(
                input@[i as int]@,
            ));
        }
        push_arg(&mut out, input[i].as_str());
        i = i + 1;
    }
    proof {
        assert(arg_views(input@).take(i as int) =~= arg_views(input@));
    }
    push_arg(&mut out, "-fflags");
    push_arg(&mut out, "+genpts");
    push_arg(&mut out, "-c:v");
    push_arg(&mut out, "libx264");
    push_arg(&mut out, "-preset");
    push_arg(&mut out, "ultrafast");
    push_arg(&mut out, "-tune");
    push_arg(&mut out, "zerolatency");
    push_arg(&mut out, "-flush_packets");
    push_arg(&mut out, "1");
    push_arg(&mut out, "-muxdelay");
    push_arg(&mut out, "0");
    push_arg(&mut out, "-muxpreload");
    push_arg(&mut out, "0");
    push_arg(&mut out, "-f");
    push_arg(&mut out, "mpegts");
    push_arg(&mut out, "pipe:1");
    proof {
        assert(arg_views(out@) =~= screen_process_args(platform));
    }
    out
}

/// Size of the chunks read from the capture process: seven transport-stream
/// packets of 188 bytes.
pub const READ_CHUNK_BYTES: usize = 1316usize;

} // verus!
