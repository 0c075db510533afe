//! The audio branch of the capture graph: which sources feed it, whether
//! they are mixed, and the elements the branch is made of.

use vstd::prelude::*;
use crate::graph::{bare, prop, ElementSpec, ElementView, PropertyView, Setting, SettingView};
use crate::gst_capture::CaptureError;
use crate::settings::{SettingsView, UserSettings, Volume};

verus! {

/// Names one of the two audio sources.
#[derive(Debug, Clone, Copy, PartialEq, Eq, Structural)]
pub enum AudioSourceId {
    System,
    Mic,
}

/// What plays on the machine, captured by loopback.
#[derive(Debug)]
pub struct SystemAudioSource {
    pub volume: Volume,
}

/// A microphone.
#[derive(Debug)]
pub struct MicAudioSource {
    pub device_id: String,
    pub volume: Volume,
}

/// A source of the audio branch.
#[derive(Debug)]
pub enum AudioSource {
    System(SystemAudioSource),
    Mic(MicAudioSource),
}

/// Mathematical value of an [`AudioSource`].
pub enum AudioSourceView {
    System { volume: u32 },
    Mic { device_id: Seq<char>, volume: u32 },
}

impl View for AudioSource {
    type V = AudioSourceView;

    open spec fn view(&self) -> AudioSourceView {
        match *self {
            AudioSource::System(s) => AudioSourceView::System { volume: s.volume.bits },
            AudioSource::Mic(m) => AudioSourceView::Mic {
                device_id: m.device_id@,
                volume: m.volume.bits,
            },
        }
    }
}

/// The values of a sequence of sources, in the same order.
pub open spec fn source_views(s: Seq<AudioSource>) -> Seq<AudioSourceView> {
    s.map_values(|a: AudioSource| a@)
}

/// The settings name a microphone to capture.
pub open spec fn mic_selected(s: SettingsView) -> bool {
    s.mic_device_id is Some && s.mic_device_id.unwrap().len() > 0
}

/// The sources that the settings ask for: system audio first where it is
/// enabled, then the microphone where one is named.
pub open spec fn audio_sources(s: SettingsView) -> Seq<AudioSourceView> {
    let system = if s.system_audio_enabled {
        seq![AudioSourceView::System { volume: s.system_audio_volume }]
    } else {
        Seq::<AudioSourceView>::empty()
    };
    if mic_selected(s) {
        system.push(
            AudioSourceView::Mic { device_id: s.mic_device_id.unwrap(), volume: s.mic_volume },
        )
    } else {
        system
    }
}

/// How a source element is set up.
#[derive(Debug, Clone, Copy, PartialEq, Eq, Structural)]
pub struct SourceSetup {
    pub loopback: bool,
    pub do_timestamp: bool,
    pub provide_clock: bool,
    pub low_latency: bool,
}

impl SystemAudioSource {
    pub fn from_settings(config: &UserSettings) -> (out: Self)
        ensures
            out.volume.bits == config@.system_audio_volume,
    {
        SystemAudioSource { volume: config.system_audio_volume }
    }
}

impl MicAudioSource {
    /// A microphone source for the device `device_id`, which must have a
    /// name.
    pub fn from_device(device_id: &str, volume: Volume) -> (out: Result<Self, CaptureError>)
        ensures
            match out {
                Ok(mic) => device_id@.len() > 0 && mic.device_id@ == device_id@ && mic.volume
                    == volume,
                Err(CaptureError::ConfigInvalid(text)) => device_id@.len() == 0 && text@
                    == "mic device id is empty"@,
                Err(_) => false,
            },
    {
        if device_id.unicode_len() == 0 {
            return Err(CaptureError::ConfigInvalid("mic device id is empty".to_owned()));
        }
        Ok(MicAudioSource { device_id: device_id.to_owned(), volume })
    }
}

impl AudioSource {
    /// The sources that `config` asks for.
    pub fn from_settings(config: &UserSettings) -> (out: Vec<AudioSource>)
        ensures
            source_views(out@) == audio_sources(config@),
    {
        let mut sources: Vec<AudioSource> = Vec::new();
        assert(source_views(sources@) =~= Seq::<AudioSourceView>::empty());
        if config.system_audio_enabled {
            let system = AudioSource::System(SystemAudioSource::from_settings(config));
            proof {
                assert(source_views(sources@.push(system)) =~= source_views(sources@).push(
                    system@,
                ));
            }
            sources.push(system);
        }
        match &config.mic_device_id {
            Some(id) => {
                match MicAudioSource::from_device(id.as_str(), config.mic_volume) {
                    Ok(mic) => {
                        let source = AudioSource::Mic(mic);
                        proof {
                            assert(source_views(sources@.push(source)) =~= source_views(
                                sources@,
                            ).push(source@));
                        }
                        sources.push(source);
                    },
                    Err(_) => {},
                }
            },
            None => {},
        }
        sources
    }

    pub fn id(&self) -> (id: AudioSourceId)
        ensures
            id == match self@ {
                AudioSourceView::System { .. } => AudioSourceId::System,
                AudioSourceView::Mic { .. } => AudioSourceId::Mic,
            },
    {
        match self {
            AudioSource::System(_) => AudioSourceId::System,
            AudioSource::Mic(_) => AudioSourceId::Mic,
        }
    }

    /// The gain the source starts with.
    pub fn volume(&self) -> (v: Volume)
        ensures
            v.bits == match self@ {
                AudioSourceView::System { volume } => volume,
                AudioSourceView::Mic { volume, .. } => volume,
            },
    {
        match self {
            AudioSource::System(s) => s.volume,
            AudioSource::Mic(m) => m.volume,
        }
    }

    /// How the source element is set up: the system source captures by
    /// loopback and provides the clock, the microphone does neither; both
    /// stamp their buffers and run without the low-latency mode.
    pub fn setup(&self) -> (out: SourceSetup)
        ensures
            out == (SourceSetup {
                loopback: self@ is System,
                do_timestamp: true,
                provide_clock: self@ is System,
                low_latency: false,
            }),
    {
        match self {
            AudioSource::System(_) => SourceSetup {
                loopback: true,
                do_timestamp: true,
                provide_clock: true,
                low_latency: false,
            },
            AudioSource::Mic(_) => SourceSetup {
                loopback: false,
                do_timestamp: true,
                provide_clock: false,
                low_latency: false,
            },
        }
    }
}

/// Joins two sources into one stream.
#[derive(Debug, Clone, Copy, PartialEq, Eq, Structural)]
pub struct AudioMixer {
    pub ignore_inactive_pads: bool,
}

impl AudioMixer {
    /// A mixer where `config` asks for two sources, none otherwise.
    pub fn from_settings(config: &UserSettings) -> (out: Option<Self>)
        ensures
            out == if audio_sources(config@).len() == 2 {
                Some(AudioMixer { ignore_inactive_pads: true })
            } else {
                None
            },
    {
        let mic = match &config.mic_device_id {
            Some(id) => id.as_str().unicode_len() > 0,
            None => false,
        };
        if config.system_audio_enabled && mic {
            Some(AudioMixer { ignore_inactive_pads: true })
        } else {
            None
        }
    }
}

/// One element of the audio branch.
#[derive(Debug, Clone, Copy, PartialEq, Eq, Structural)]
pub enum AudioStage {
    Source(AudioSourceId),
    Convert(AudioSourceId),
    Volume(AudioSourceId),
    SourceQueue(AudioSourceId),
    Mixer,
    Resample,
    RawCaps,
    Encoder,
    Parser,
    EncodedCaps,
    Queue,
}

/// The elements that one source contributes, in the order in which they are
/// linked.
pub open spec fn source_chain(id: AudioSourceId) -> Seq<AudioStage> {
    seq![
        AudioStage::Source(id),
        AudioStage::Convert(id),
        AudioStage::Volume(id),
        AudioStage::SourceQueue(id),
    ]
}

/// The elements that follow the sources.
pub open spec fn shared_chain() -> Seq<AudioStage> {
    seq![
        AudioStage::Resample,
        AudioStage::RawCaps,
        AudioStage::Encoder,
        AudioStage::Parser,
        AudioStage::EncodedCaps,
        AudioStage::Queue,
    ]
}

/// The source named by a source's value.
pub open spec fn id_of(source: AudioSourceView) -> AudioSourceId {
    match source {
        AudioSourceView::System { .. } => AudioSourceId::System,
        AudioSourceView::Mic { .. } => AudioSourceId::Mic,
    }
}

/// The elements of the audio branch for the given sources: none without a
/// source; one source's chain and the shared chain; or both sources' chains,
/// the mixer and the shared chain.
pub open spec fn audio_stages(sources: Seq<AudioSourceView>) -> Seq<AudioStage> {
    if sources.len() == 0 {
        Seq::<AudioStage>::empty()
    } else if sources.len() == 1 {
        source_chain(id_of(sources[0])) + shared_chain()
    } else {
        source_chain(id_of(sources[0])) + source_chain(id_of(sources[1])) + seq![
            AudioStage::Mixer,
        ] + shared_chain()
    }
}

/// The audio branch of the graph.
#[derive(Debug)]
pub struct AudioGraph {
    pub sources: Vec<AudioSource>,
    pub mixer: Option<AudioMixer>,
}

/// The first of `sources`, from position `from` on, that is named `id`.
pub open spec fn source_named(sources: Seq<AudioSourceView>, id: AudioSourceId, from: int) -> Option<
    AudioSourceView,
>
    decreases sources.len() - from,
{
    if from < 0 || from >= sources.len() {
        None
    } else if id_of(sources[from]) == id {
        Some(sources[from])
    } else {
        source_named(sources, id, from + 1)
    }
}

/// The properties of a source element: the system source captures by
/// loopback and provides the clock; the microphone does neither and names
/// its device.
pub open spec fn source_properties(source: AudioSourceView) -> Seq<PropertyView> {
    match source {
        AudioSourceView::System { .. } => seq![
            prop("loopback"@, SettingView::Flag(true)),
            prop("do-timestamp"@, SettingView::Flag(true)),
            prop("provide-clock"@, SettingView::Flag(true)),
            prop("low-latency"@, SettingView::Flag(false)),
        ],
        AudioSourceView::Mic { device_id, .. } => seq![
            prop("loopback"@, SettingView::Flag(false)),
            prop("do-timestamp"@, SettingView::Flag(true)),
            prop("provide-clock"@, SettingView::Flag(false)),
            prop("low-latency"@, SettingView::Flag(false)),
            prop("device"@, SettingView::Text(device_id)),
        ],
    }
}

/// The gain a source starts with.
pub open spec fn gain_of(source: AudioSourceView) -> u32 {
    match source {
        AudioSourceView::System { volume } => volume,
        AudioSourceView::Mic { volume, .. } => volume,
    }
}

/// The AAC encoder: the preferred one, or the one to fall back to.
pub open spec fn aac_encoder_view(preferred: bool) -> ElementView {
    ElementView {
        factory: if preferred {
            "voaacenc"@
        } else {
            "avenc_aac"@
        },
        properties: seq![prop("bitrate"@, SettingView::Text("192000"@))],
    }
}

/// The element that stands at `stage` of the audio branch, where the branch
/// has such a stage. A stage of a source belongs to the branch where the
/// source is among `sources`.
pub open spec fn audio_element(sources: Seq<AudioSourceView>, stage: AudioStage) -> Option<
    ElementView,
> {
    match stage {
        AudioStage::Source(id) => match source_named(sources, id, 0) {
            Some(source) => Some(
                ElementView { factory: "wasapisrc"@, properties: source_properties(source) },
            ),
            None => None,
        },
        AudioStage::Convert(id) => match source_named(sources, id, 0) {
            Some(_) => Some(bare("audioconvert"@)),
            None => None,
        },
        AudioStage::Volume(id) => match source_named(sources, id, 0) {
            Some(source) => Some(
                ElementView {
                    factory: "volume"@,
                    properties: seq![prop("volume"@, SettingView::Gain(gain_of(source)))],
                },
            ),
            None => None,
        },
        AudioStage::SourceQueue(id) => match source_named(sources, id, 0) {
            Some(_) => Some(
                ElementView {
                    factory: "queue"@,
                    properties: seq![
                        prop("max-size-time"@, SettingView::Long(100_000_000)),
                        prop("leaky"@, SettingView::Text("downstream"@)),
                    ],
                },
            ),
            None => None,
        },
        AudioStage::Mixer => Some(
            ElementView {
                factory: "audiomixer"@,
                properties: seq![prop("ignore-inactive-pads"@, SettingView::Flag(true))],
            },
        ),
        AudioStage::Resample => Some(
            ElementView {
                factory: "audioresample"@,
                properties: seq![prop("quality"@, SettingView::Int(10))],
            },
        ),
        AudioStage::RawCaps => Some(
            ElementView {
                factory: "capsfilter"@,
                properties: seq![
                    prop("caps"@, SettingView::Text("audio/x-raw, rate=48000, channels=2"@)),
                ],
            },
        ),
        AudioStage::Encoder => Some(aac_encoder_view(true)),
        AudioStage::Parser => Some(bare("aacparse"@)),
        AudioStage::EncodedCaps => Some(
            ElementView {
                factory: "capsfilter"@,
                properties: seq![
                    prop(
                        "caps"@,
                        SettingView::Text("audio/mpeg, mpegversion=4, stream-format=adts"@),
                    ),
                ],
            },
        ),
        AudioStage::Queue => Some(bare("queue"@)),
    }
}

/// The links between the elements of `chain`: each to the one after it.
pub open spec fn chain_links(chain: Seq<AudioStage>) -> Seq<(AudioStage, AudioStage)> {
    Seq::new(
        if chain.len() == 0 {
            0nat
        } else {
            (chain.len() - 1) as nat
        },
        |i: int| (chain[i], chain[i + 1]),
    )
}

/// The links of the audio branch, in the order in which they are made. A
/// single source feeds the resampler; two sources feed the mixer, which
/// feeds the resampler.
pub open spec fn audio_links(sources: Seq<AudioSourceView>) -> Seq<(AudioStage, AudioStage)> {
    if sources.len() == 0 {
        Seq::<(AudioStage, AudioStage)>::empty()
    } else if sources.len() == 1 {
        chain_links(source_chain(id_of(sources[0]))) + seq![
            (AudioStage::SourceQueue(id_of(sources[0])), AudioStage::Resample),
        ] + chain_links(shared_chain())
    } else {
        chain_links(source_chain(id_of(sources[0]))) + seq![
            (AudioStage::SourceQueue(id_of(sources[0])), AudioStage::Mixer),
        ] + chain_links(source_chain(id_of(sources[1]))) + seq![
            (AudioStage::SourceQueue(id_of(sources[1])), AudioStage::Mixer),
            (AudioStage::Mixer, AudioStage::Resample),
        ] + chain_links(shared_chain())
    }
}

/// Describes the AAC encoder: the preferred one, or the one to fall back to
/// where the framework lacks it.
pub fn aac_encoder(preferred: bool) -> (out: ElementSpec)
    ensures
        out@ == aac_encoder_view(preferred),
{
    let mut out = if preferred {
        ElementSpec::new("voaacenc")
    } else {
        ElementSpec::new("avenc_aac")
    };
    out.set("bitrate", Setting::Text("192000".to_owned()));
    proof {
        assert(out@.properties =~= aac_encoder_view(preferred).properties);
    }
    out
}

fn push_source_chain(out: &mut Vec<AudioStage>, id: AudioSourceId)
    ensures
        final(out)@ == old(out)@ + source_chain(id),
{
    out.push(AudioStage::Source(id));
    out.push(AudioStage::Convert(id));
    out.push(AudioStage::Volume(id));
    out.push(AudioStage::SourceQueue(id));
    proof {
        assert(out@ =~= old(out)@ + source_chain(id));
    }
}

fn push_shared_chain(out: &mut Vec<AudioStage>)
    ensures
        final(out)@ == old(out)@ + shared_chain(),
{
    out.push(AudioStage::Resample);
    out.push(AudioStage::RawCaps);
    out.push(AudioStage::Encoder);
    out.push(AudioStage::Parser);
    out.push(AudioStage::EncodedCaps);
    out.push(AudioStage::Queue);
    proof {
        assert(out@ =~= old(out)@ + shared_chain());
    }
}

fn push_chain_links(out: &mut Vec<(AudioStage, AudioStage)>, chain: &Vec<AudioStage>)
    ensures
        final(out)@ == old(out)@ + chain_links(chain@),
{
    let n = chain.len();
    if n == 0 {
        proof {
            assert(out@ =~= out@ + chain_links(chain@));
        }
        return ;
    }
    let mut i: usize = 0;
    while i + 1 < n
        invariant
            n == chain@.len(),
            n > 0,
            i + 1 <= n,
            out@ == old(out)@ + chain_links(chain@).take(i as int),
        decreases n - i,
    {
        let link = (chain[i], chain[i + 1]);
        proof {
            assert(chain_links(chain@).take(i + 1) =~= chain_links(chain@).take(i as int).push(
                link,
            ));
            assert(old(out)@ + chain_links(chain@).take(i + 1) =~= (old(out)@ + chain_links(
                chain@,
            ).take(i as int)).push(link));
        }
        out.push(link);
        i = i + 1;
    }
    proof {
        assert(chain_links(chain@).take(i as int) =~= chain_links(chain@));
    }
}

impl AudioGraph {
    /// The branch has one or two sources, and a mixer exactly where it has
    /// two.
    pub open spec fn wf(&self) -> bool {
        &&& 1 <= self.sources@.len() <= 2
        &&& self.mixer is Some <==> self.sources@.len() == 2
    }

    /// Plans the audio branch for `config`: none where no source is asked
    /// for.
    pub fn build(config: &UserSettings) -> (out: Option<AudioGraph>)
        ensures
            out is None <==> audio_sources(config@).len() == 0,
            out is Some ==> {
                &&& out.unwrap().wf()
                &&& source_views(out.unwrap().sources@) == audio_sources(config@)
                &&& out.unwrap().mixer is Some ==> out.unwrap().mixer.unwrap().ignore_inactive_pads
            },
    {
        let sources = AudioSource::from_settings(config);
        if sources.len() == 0 {
            return None;
        }
        let mixer = AudioMixer::from_settings(config);
        Some(AudioGraph { sources, mixer })
    }

    /// The elements of the branch in the order in which they are linked.
    pub fn stages(&self) -> (out: Vec<AudioStage>)
        requires
            self.wf(),
        ensures
            out@ == audio_stages(source_views(self.sources@)),
    {
        let mut out: Vec<AudioStage> = Vec::new();
        let first = self.sources[0].id();
        push_source_chain(&mut out, first);
        if self.sources.len() == 2 {
            let second = self.sources[1].id();
            push_source_chain(&mut out, second);
            out.push(AudioStage::Mixer);
        }
        push_shared_chain(&mut out);
        proof {
            assert(out@ =~= audio_stages(source_views(self.sources@)));
        }
        out
    }

    /// Whether the branch holds a volume control for `source`.
    pub fn has_volume(&self, source: AudioSourceId) -> (yes: bool)
        ensures
            yes == exists|i: int|
                0 <= i < self.sources@.len() && id_of(#[trigger] self.sources@[i]@) == source,
    {
        let mut i: usize = 0;
        while i < self.sources.len()
            invariant
                i <= self.sources@.len(),
                forall|j: int| 0 <= j < i ==> id_of(#[trigger] self.sources@[j]@) != source,
            decreases self.sources@.len() - i,
        {
            if self.sources[i].id() == source {
                return true;
            }
            i = i + 1;
        }
        false
    }

    /// The source of the branch that is named `id`.
    pub fn source(&self, id: AudioSourceId) -> (out: Option<&AudioSource>)
        ensures
            match out {
                Some(source) => source_named(source_views(self.sources@), id, 0) == Some(
                    source@,
                ),
                None => source_named(source_views(self.sources@), id, 0) is None,
            },
    {
        let ghost views = source_views(self.sources@);
        let mut i: usize = 0;
        while i < self.sources.len()
            invariant
                views == source_views(self.sources@),
                i <= self.sources@.len(),
                source_named(views, id, 0) == source_named(views, id, i as int),
            decreases self.sources@.len() - i,
        {
            proof {
                assert(views[i as int] == self.sources@[i as int]@);
            }
            if self.sources[i].id() == id {
                return Some(&self.sources[i]);
            }
            i = i + 1;
        }
        None
    }

    /// Describes the element that stands at `stage`; none where the stage
    /// belongs to a source that the branch does not have.
    pub fn element(&self, stage: AudioStage) -> (out: Option<ElementSpec>)
        ensures
            match out {
                Some(element) => audio_element(source_views(self.sources@), stage) == Some(
                    element@,
                ),
                None => audio_element(source_views(self.sources@), stage) is None,
            },
    {
        let ghost want = audio_element(source_views(self.sources@), stage);
        match stage {
            AudioStage::Source(id) => match self.source(id) {
                Some(source) => {
                    let setup = source.setup();
                    let mut out = ElementSpec::new("wasapisrc");
                    out.set("loopback", Setting::Flag(setup.loopback));
                    out.set("do-timestamp", Setting::Flag(setup.do_timestamp));
                    out.set("provide-clock", Setting::Flag(setup.provide_clock));
                    out.set("low-latency", Setting::Flag(setup.low_latency));
                    match source {
                        AudioSource::Mic(mic) => {
                            out.set("device", Setting::Text(mic.device_id.clone()));
                        },
                        AudioSource::System(_) => {},
                    }
                    proof {
                        assert(out@.properties =~= source_properties(source@));
                    }
                    Some(out)
                },
                None => None,
            },
            AudioStage::Convert(id) => match self.source(id) {
                Some(_) => Some(ElementSpec::new("audioconvert")),
                None => None,
            },
            AudioStage::Volume(id) => match self.source(id) {
                Some(source) => {
                    let mut out = ElementSpec::new("volume");
                    out.set("volume", Setting::Gain(source.volume()));
                    proof {
                        assert(out@.properties =~= want.unwrap().properties);
                    }
                    Some(out)
                },
                None => None,
            },
            AudioStage::SourceQueue(id) => match self.source(id) {
                Some(_) => {
                    let mut out = ElementSpec::new("queue");
                    out.set("max-size-time", Setting::Long(100_000_000));
                    out.set("leaky", Setting::Text("downstream".to_owned()));
                    proof {
                        assert(out@.properties =~= want.unwrap().properties);
                    }
                    Some(out)
                },
                None => None,
            },
            AudioStage::Mixer => {
                let mut out = ElementSpec::new("audiomixer");
                out.set("ignore-inactive-pads", Setting::Flag(true));
                proof {
                    assert(out@.properties =~= want.unwrap().properties);
                }
                Some(out)
            },
            AudioStage::Resample => {
                let mut out = ElementSpec::new("audioresample");
                out.set("quality", Setting::Int(10));
                proof {
                    assert(out@.properties =~= want.unwrap().properties);
                }
                Some(out)
            },
            AudioStage::RawCaps => {
                let mut out = ElementSpec::new("capsfilter");
                out.set("caps", Setting::Text("audio/x-raw, rate=48000, channels=2".to_owned()));
                proof {
                    assert(out@.properties =~= want.unwrap().properties);
                }
                Some(out)
            },
            AudioStage::Encoder => Some(aac_encoder(true)),
            AudioStage::Parser => Some(ElementSpec::new("aacparse")),
            AudioStage::EncodedCaps => {
                let mut out = ElementSpec::new("capsfilter");
                out.set(
                    "caps",
                    Setting::Text("audio/mpeg, mpegversion=4, stream-format=adts".to_owned()),
                );
                proof {
                    assert(out@.properties =~= want.unwrap().properties);
                }
                Some(out)
            },
            AudioStage::Queue => Some(ElementSpec::new("queue")),
        }
    }

    /// The links of the branch, in the order in which they are made.
    pub fn links(&self) -> (out: Vec<(AudioStage, AudioStage)>)
        requires
            self.wf(),
        ensures
            out@ == audio_links(source_views(self.sources@)),
    {
        let mut out: Vec<(AudioStage, AudioStage)> = Vec::new();
        let mut shared: Vec<AudioStage> = Vec::new();
        push_shared_chain(&mut shared);
        proof {
            assert(shared@ =~= shared_chain());
        }
        let first = self.sources[0].id();
        let mut chain: Vec<AudioStage> = Vec::new();
        push_source_chain(&mut chain, first);
        proof {
            assert(chain@ =~= source_chain(first));
        }
        push_chain_links(&mut out, &chain);
        if self.sources.len() == 2 {
            out.push((AudioStage::SourceQueue(first), AudioStage::Mixer));
            let second = self.sources[1].id();
            let mut other: Vec<AudioStage> = Vec::new();
            push_source_chain(&mut other, second);
            proof {
                assert(other@ =~= source_chain(second));
            }
            push_chain_links(&mut out, &other);
            out.push((AudioStage::SourceQueue(second), AudioStage::Mixer));
            out.push((AudioStage::Mixer, AudioStage::Resample));
        } else {
            out.push((AudioStage::SourceQueue(first), AudioStage::Resample));
        }
        push_chain_links(&mut out, &shared);
        proof {
            assert(out@ =~= audio_links(source_views(self.sources@)));
        }
        out
    }
}

} // verus!
