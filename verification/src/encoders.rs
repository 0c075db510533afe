//! Descriptions of the video encoders a capture can use.

use vstd::prelude::*;
use crate::text::{contains_text, has_substring, has_text};

verus! {

/// A video encoder offered by the media framework.
///
/// `required_memory` names the kind of GPU memory the encoder insists on
/// receiving its frames in, where it has such a demand.
#[derive(Debug)]
pub struct VideoEncoderDescriptor {
    pub id: String,
    pub name: String,
    pub is_hardware: bool,
    pub required_memory: Option<String>,
}

/// Mathematical value of a [`VideoEncoderDescriptor`].
pub struct VideoEncoderView {
    pub id: Seq<char>,
    pub name: Seq<char>,
    pub is_hardware: bool,
    pub required_memory: Option<Seq<char>>,
}

impl View for VideoEncoderDescriptor {
    type V = VideoEncoderView;

    open spec fn view(&self) -> VideoEncoderView {
        VideoEncoderView {
            id: self.id@,
            name: self.name@,
            is_hardware: self.is_hardware,
            required_memory: match self.required_memory {
                Some(m) => Some(m@),
                None => None,
            },
        }
    }
}

impl Clone for VideoEncoderDescriptor {
    fn clone(&self) -> (out: Self)
        ensures
            out@ == self@,
    {
        VideoEncoderDescriptor {
            id: self.id.clone(),
            name: self.name.clone(),
            is_hardware: self.is_hardware,
            required_memory: match &self.required_memory {
                Some(m) => Some(m.clone()),
                None => None,
            },
        }
    }
}

/// Some encoder of `encoders` has the identifier `id`.
pub open spec fn has_encoder(encoders: Seq<VideoEncoderDescriptor>, id: Seq<char>) -> bool {
    exists|i: int| 0 <= i < encoders.len() && #[trigger] encoders[i].id@ == id
}

/// Position of the first encoder with the identifier `id`, counted from
/// `from`.
pub open spec fn encoder_index_from(
    encoders: Seq<VideoEncoderDescriptor>,
    id: Seq<char>,
    from: int,
) -> Option<int>
    decreases encoders.len() - from,
{
    if from < 0 || from >= encoders.len() {
        None
    } else if encoders[from].id@ == id {
        Some(from)
    } else {
        encoder_index_from(encoders, id, from + 1)
    }
}

/// Position of the first hardware encoder, counted from `from`.
pub open spec fn first_hardware_from(encoders: Seq<VideoEncoderDescriptor>, from: int) -> Option<
    int,
>
    decreases encoders.len() - from,
{
    if from < 0 || from >= encoders.len() {
        None
    } else if encoders[from].is_hardware {
        Some(from)
    } else {
        first_hardware_from(encoders, from + 1)
    }
}

/// Position of the encoder to use by default: the first hardware encoder, or
/// the first encoder where none is hardware.
pub open spec fn preferred_encoder_index(encoders: Seq<VideoEncoderDescriptor>) -> Option<int> {
    if encoders.len() == 0 {
        None
    } else {
        match first_hardware_from(encoders, 0) {
            Some(i) => Some(i),
            None => Some(0),
        }
    }
}

/// A position found by `first_hardware_from` lies in the sequence.
pub proof fn lemma_first_hardware_in_range(encoders: Seq<VideoEncoderDescriptor>, from: int)
    requires
        0 <= from,
    ensures
        match first_hardware_from(encoders, from) {
            Some(i) => from <= i < encoders.len() && encoders[i].is_hardware,
            None => forall|j: int| from <= j < encoders.len() ==> !encoders[j].is_hardware,
        },
    decreases encoders.len() - from,
{
    if from < encoders.len() && !encoders[from].is_hardware {
        lemma_first_hardware_in_range(encoders, from + 1);
    }
}

/// Whether `encoders` holds an encoder with the identifier `id`.
pub fn contains_encoder(encoders: &[VideoEncoderDescriptor], id: &String) -> (found: bool)
    ensures
        found == has_encoder(encoders@, id@),
{
    let mut i: usize = 0;
    while i < encoders.len()
        invariant
            i <= encoders.len(),
            forall|j: int| 0 <= j < i ==> encoders@[j].id@ != id@,
        decreases encoders.len() - i,
    {
        if encoders[i].id == *id {
            return true;
        }
        i = i + 1;
    }
    false
}

/// The first encoder of `encoders` with the identifier `id`.
pub fn find_video_encoder(encoders: &[VideoEncoderDescriptor], id: &String) -> (found: Option<
    VideoEncoderDescriptor,
>)
    ensures
        match found {
            Some(e) => encoder_index_from(encoders@, id@, 0) is Some && e@ == encoders@[
                encoder_index_from(encoders@, id@, 0).unwrap()]@,
            None => encoder_index_from(encoders@, id@, 0) is None,
        },
        found is Some <==> has_encoder(encoders@, id@),
{
    let mut i: usize = 0;
    while i < encoders.len()
        invariant
            i <= encoders.len(),
            encoder_index_from(encoders@, id@, 0) == encoder_index_from(encoders@, id@, i as int),
            forall|j: int| 0 <= j < i ==> encoders@[j].id@ != id@,
        decreases encoders.len() - i,
    {
        if encoders[i].id == *id {
            return Some(encoders[i].clone());
        }
        i = i + 1;
    }
    None
}

/// The encoder to use by default: the first hardware encoder, or the first
/// encoder where none is hardware.
pub fn prefer_hardware_encoder(encoders: &[VideoEncoderDescriptor]) -> (chosen: Option<
    &VideoEncoderDescriptor,
>)
    ensures
        match chosen {
            Some(e) => preferred_encoder_index(encoders@) is Some && *e == encoders@[
                preferred_encoder_index(encoders@).unwrap()],
            None => preferred_encoder_index(encoders@) is None,
        },
{
    let mut i: usize = 0;
    while i < encoders.len()
        invariant
            i <= encoders.len(),
            first_hardware_from(encoders@, 0) == first_hardware_from(encoders@, i as int),
        decreases encoders.len() - i,
    {
        if encoders[i].is_hardware {
            return Some(&encoders[i]);
        }
        i = i + 1;
    }
    if encoders.len() > 0 {
        Some(&encoders[0])
    } else {
        None
    }
}

/// What the media framework tells of one encoder factory.
#[derive(Debug)]
pub struct EncoderProbe {
    pub factory_name: String,
    pub long_name: String,
    /// The factory's classification, such as `Codec/Encoder/Video/Hardware`.
    pub klass: String,
    /// The factory is marked as hardware.
    pub hardware_type: bool,
    /// An element can be made of the factory.
    pub instantiable: bool,
    /// The names of the structures that the source pads can produce.
    pub src_structures: Vec<String>,
    /// The caps features that the sink pads accept, one list for each entry
    /// of their caps, in order.
    pub sink_features: Vec<Vec<String>>,
}

/// One of `items` is exactly `wanted`.
pub open spec fn lists(items: Seq<String>, wanted: Seq<char>) -> bool {
    exists|i: int| 0 <= i < items.len() && (#[trigger] items[i])@ == wanted
}

/// The memory that the first of `entries`, from `from` on, asks for that
/// asks for Direct3D memory at all; Direct3D 12 goes before Direct3D 11
/// within an entry.
pub open spec fn memory_from(entries: Seq<Vec<String>>, from: int) -> Option<Seq<char>>
    decreases entries.len() - from,
{
    if from < 0 || from >= entries.len() {
        None
    } else if lists(entries[from]@, "memory:D3D12Memory"@) {
        Some("D3D12Memory"@)
    } else if lists(entries[from]@, "memory:D3D11Memory"@) {
        Some("D3D11Memory"@)
    } else {
        memory_from(entries, from + 1)
    }
}

/// The memory that a probed encoder insists on: what its sink pads say, or
/// Direct3D 11 for the one encoder known to need it without saying so.
pub open spec fn required_memory_of(probe: EncoderProbe) -> Option<Seq<char>> {
    match memory_from(probe.sink_features@, 0) {
        Some(m) => Some(m),
        None => if probe.factory_name@ == "nvd3d11h264enc"@ {
            Some("D3D11Memory"@)
        } else {
            None
        },
    }
}

/// The probed factory can be offered: it produces H.264, an element can be
/// made of it, and it does not insist on Direct3D 12 memory.
pub open spec fn is_offered(probe: EncoderProbe) -> bool {
    &&& lists(probe.src_structures@, "video/x-h264"@)
    &&& probe.instantiable
    &&& required_memory_of(probe) != Some("D3D12Memory"@)
}

/// The description of an offered encoder.
pub open spec fn described(probe: EncoderProbe) -> VideoEncoderView {
    VideoEncoderView {
        id: probe.factory_name@,
        name: probe.long_name@,
        is_hardware: probe.hardware_type || has_substring(probe.klass@, "Hardware"@),
        required_memory: required_memory_of(probe),
    }
}

/// Whether the factory produces H.264.
pub fn supports_h264(probe: &EncoderProbe) -> (yes: bool)
    ensures
        yes == lists(probe.src_structures@, "video/x-h264"@),
{
    has_text(&probe.src_structures, "video/x-h264")
}

/// The memory that a probed encoder insists on, if any.
pub fn required_memory_type(probe: &EncoderProbe) -> (out: Option<String>)
    ensures
        match out {
            Some(m) => required_memory_of(*probe) == Some(m@),
            None => required_memory_of(*probe) is None,
        },
{
    let mut i: usize = 0;
    while i < probe.sink_features.len()
        invariant
            i <= probe.sink_features@.len(),
            memory_from(probe.sink_features@, 0) == memory_from(probe.sink_features@, i as int),
        decreases probe.sink_features@.len() - i,
    {
        if has_text(&probe.sink_features[i], "memory:D3D12Memory") {
            return Some("D3D12Memory".to_owned());
        }
        if has_text(&probe.sink_features[i], "memory:D3D11Memory") {
            return Some("D3D11Memory".to_owned());
        }
        i = i + 1;
    }
    if probe.factory_name == "nvd3d11h264enc".to_owned() {
        return Some("D3D11Memory".to_owned());
    }
    None
}

/// The description of a probed factory, where it can be offered.
pub fn describe_encoder(probe: &EncoderProbe) -> (out: Option<VideoEncoderDescriptor>)
    ensures
        out is Some <==> is_offered(*probe),
        out is Some ==> out.unwrap()@ == described(*probe),
{
    if !supports_h264(probe) {
        return None;
    }
    if !probe.instantiable {
        return None;
    }
    let required_memory = required_memory_type(probe);
    let refused = match &required_memory {
        Some(m) => *m == "D3D12Memory".to_owned(),
        None => false,
    };
    if refused {
        return None;
    }
    let is_hardware = probe.hardware_type || contains_text(probe.klass.as_str(), "Hardware");
    Some(
        VideoEncoderDescriptor {
            id: probe.factory_name.clone(),
            name: probe.long_name.clone(),
            is_hardware,
            required_memory,
        },
    )
}

/// The values of a sequence of encoders, in the same order.
pub open spec fn encoder_views(s: Seq<VideoEncoderDescriptor>) -> Seq<VideoEncoderView> {
    s.map_values(|e: VideoEncoderDescriptor| e@)
}

/// `a` does not come after `b` in the order of a dictionary, character by
/// character.
pub open spec fn text_le(a: Seq<char>, b: Seq<char>) -> bool
    decreases a.len(),
{
    if a.len() == 0 {
        true
    } else if b.len() == 0 {
        false
    } else if a[0] != b[0] {
        a[0] < b[0]
    } else {
        text_le(a.drop_first(), b.drop_first())
    }
}

/// The sequence `s` with `e` put in after the last encoder whose name does
/// not come after the name of `e`.
pub open spec fn insert_by_name(s: Seq<VideoEncoderView>, e: VideoEncoderView) -> Seq<
    VideoEncoderView,
>
    decreases s.len(),
{
    if s.len() == 0 || text_le(s.last().name, e.name) {
        s.push(e)
    } else {
        insert_by_name(s.drop_last(), e).push(s.last())
    }
}

/// The encoders of `s` ordered by name; encoders of one name keep their
/// order.
pub open spec fn sorted_by_name(s: Seq<VideoEncoderView>) -> Seq<VideoEncoderView>
    decreases s.len(),
{
    if s.len() == 0 {
        s
    } else {
        insert_by_name(sorted_by_name(s.drop_last()), s.last())
    }
}

/// The descriptions of the factories among `probes` that can be offered, in
/// their order.
pub open spec fn offered(probes: Seq<EncoderProbe>) -> Seq<VideoEncoderView>
    decreases probes.len(),
{
    if probes.len() == 0 {
        Seq::<VideoEncoderView>::empty()
    } else if is_offered(probes.last()) {
        offered(probes.drop_last()).push(described(probes.last()))
    } else {
        offered(probes.drop_last())
    }
}

/// Whether `a` does not come after `b` in the order of a dictionary.
pub fn name_le(a: &str, b: &str) -> (le: bool)
    ensures
        le == text_le(a@, b@),
{
    let n = a.unicode_len();
    let m = b.unicode_len();
    let mut i: usize = 0;
    proof {
        assert(a@.skip(0) =~= a@);
        assert(b@.skip(0) =~= b@);
    }
    while i < n && i < m
        invariant
            n == a@.len(),
            m == b@.len(),
            i <= n,
            i <= m,
            text_le(a@, b@) == text_le(a@.skip(i as int), b@.skip(i as int)),
        decreases n - i,
    {
        let x = a.get_char(i);
        let y = b.get_char(i);
        proof {
            assert(a@.skip(i as int)[0] == x);
            assert(b@.skip(i as int)[0] == y);
            assert(a@.skip(i as int).drop_first() =~= a@.skip(i + 1));
            assert(b@.skip(i as int).drop_first() =~= b@.skip(i + 1));
        }
        if x != y {
            return x < y;
        }
        i = i + 1;
    }
    proof {
        assert(a@.skip(i as int).len() == n - i);
        assert(b@.skip(i as int).len() == m - i);
    }
    i == n
}

/// Putting `e` in lands it at the position `at`, where everything from `at`
/// on comes after it and what stands before `at` does not.
pub proof fn lemma_insert_position(s: Seq<VideoEncoderView>, e: VideoEncoderView, at: int)
    requires
        0 <= at <= s.len(),
        forall|k: int| at <= k < s.len() ==> !text_le(#[trigger] s[k].name, e.name),
        at > 0 ==> text_le(s[at - 1].name, e.name),
    ensures
        insert_by_name(s, e) == s.insert(at, e),
    decreases s.len() - at,
{
    if at == s.len() {
        assert(s.push(e) =~= s.insert(at, e));
    } else {
        let rest = s.drop_last();
        assert(!text_le(s[s.len() - 1].name, e.name));
        assert forall|k: int| at <= k < rest.len() implies !text_le(
            #[trigger] rest[k].name,
            e.name,
        ) by {
            assert(rest[k] == s[k]);
        }
        lemma_insert_position(rest, e, at);
        assert(rest.insert(at, e).push(s.last()) =~= s.insert(at, e));
    }
}

fn insert_encoder(sorted: &mut Vec<VideoEncoderDescriptor>, encoder: VideoEncoderDescriptor)
    ensures
        encoder_views(final(sorted)@) == insert_by_name(encoder_views(old(sorted)@), encoder@),
{
    let ghost views = encoder_views(sorted@);
    let mut at: usize = sorted.len();
    while at > 0 && !name_le(sorted[at - 1].name.as_str(), encoder.name.as_str())
        invariant
            sorted@ == old(sorted)@,
            views == encoder_views(sorted@),
            at <= sorted@.len(),
            forall|k: int| at <= k < views.len() ==> !text_le(#[trigger] views[k].name, encoder@.name),
        decreases at,
    {
        proof {
            assert(views[at - 1] == sorted@[at - 1]@);
        }
        at = at - 1;
    }
    proof {
        if at > 0 {
            assert(views[at - 1] == sorted@[at - 1]@);
        }
        lemma_insert_position(views, encoder@, at as int);
        assert(encoder_views(sorted@.insert(at as int, encoder)) =~= views.insert(
            at as int,
            encoder@,
        ));
    }
    sorted.insert(at, encoder);
}

/// The encoders that can be offered among the probed factories, ordered by
/// name.
pub fn list_video_encoders(probes: &[EncoderProbe]) -> (out: Vec<VideoEncoderDescriptor>)
    ensures
        encoder_views(out@) == sorted_by_name(offered(probes@)),
{
    let mut out: Vec<VideoEncoderDescriptor> = Vec::new();
    let mut i: usize = 0;
    proof {
        assert(encoder_views(out@) =~= sorted_by_name(offered(probes@.take(0))));
    }
    while i < probes.len()
        invariant
            i <= probes@.len(),
            encoder_views(out@) == sorted_by_name(offered(probes@.take(i as int))),
        decreases probes@.len() - i,
    {
        proof {
            assert(probes@.take(i + 1).drop_last() =~= probes@.take(i as int));
            assert(probes@.take(i + 1).last() == probes@[i as int]);
            let sofar = offered(probes@.take(i as int));
            if is_offered(probes@[i as int]) {
                assert(sofar.push(described(probes@[i as int])).drop_last() =~= sofar);
            }
        }
        match describe_encoder(&probes[i]) {
            Some(encoder) => {
                insert_encoder(&mut out, encoder);
            },
            None => {},
        }
        i = i + 1;
    }
    proof {
        assert(probes@.take(i as int) =~= probes@);
    }
    out
}

/// No encoder of `s` stands before one whose name comes before its own.
pub open spec fn ordered_by_name(s: Seq<VideoEncoderView>) -> bool {
    forall|i: int, j: int| 0 <= i < j < s.len() ==> text_le(s[i].name, s[j].name)
}

/// Of two texts one does not come after the other.
pub proof fn lemma_text_le_total(a: Seq<char>, b: Seq<char>)
    ensures
        text_le(a, b) || text_le(b, a),
    decreases a.len(),
{
    if a.len() > 0 && b.len() > 0 && a[0] == b[0] {
        lemma_text_le_total(a.drop_first(), b.drop_first());
    }
}

/// The order of texts is transitive.
pub proof fn lemma_text_le_transitive(a: Seq<char>, b: Seq<char>, c: Seq<char>)
    requires
        text_le(a, b),
        text_le(b, c),
    ensures
        text_le(a, c),
    decreases a.len(),
{
    if a.len() > 0 && a[0] == b[0] && b[0] == c[0] {
        lemma_text_le_transitive(a.drop_first(), b.drop_first(), c.drop_first());
    }
}

/// Putting an encoder in adds it and nothing else, and keeps an ordered
/// sequence ordered.
pub proof fn lemma_insert_by_name(s: Seq<VideoEncoderView>, e: VideoEncoderView)
    ensures
        insert_by_name(s, e).len() == s.len() + 1,
        insert_by_name(s, e).to_multiset() == s.to_multiset().insert(e),
        ordered_by_name(s) ==> ordered_by_name(insert_by_name(s, e)),
    decreases s.len(),
{
    let out = insert_by_name(s, e);
    if s.len() == 0 || text_le(s.last().name, e.name) {
        vstd::seq_lib::to_multiset_build(s, e);
        assert(out.to_multiset() =~= s.to_multiset().insert(e));
        if ordered_by_name(s) {
            assert forall|i: int, j: int| 0 <= i < j < out.len() implies text_le(
                out[i].name,
                out[j].name,
            ) by {
                if j == s.len() && i < s.len() - 1 {
                    lemma_text_le_transitive(s[i].name, s.last().name, e.name);
                }
            }
        }
    } else {
        let rest = s.drop_last();
        let inner = insert_by_name(rest, e);
        lemma_insert_by_name(rest, e);
        assert(rest.push(s.last()) =~= s);
        assert(out.to_multiset() =~= s.to_multiset().insert(e)) by {
            vstd::seq_lib::to_multiset_build(inner, s.last());
            vstd::seq_lib::to_multiset_build(rest, s.last());
        }
        if ordered_by_name(s) {
            assert(ordered_by_name(rest)) by {
                assert forall|i: int, j: int| 0 <= i < j < rest.len() implies text_le(
                    rest[i].name,
                    rest[j].name,
                ) by {
                    assert(rest[i] == s[i] && rest[j] == s[j]);
                }
            }
            lemma_text_le_total(s.last().name, e.name);
            assert forall|i: int, j: int| 0 <= i < j < out.len() implies text_le(
                out[i].name,
                out[j].name,
            ) by {
                if j == out.len() - 1 {
                    assert(inner.to_multiset().count(inner[i]) > 0) by {
                        inner.to_multiset_ensures();
                        assert(inner.contains(inner[i]));
                    }
                    if inner[i] != e {
                        assert(rest.to_multiset().count(inner[i]) > 0);
                        rest.to_multiset_ensures();
                        assert(rest.contains(inner[i]));
                        let k = choose|k: int| 0 <= k < rest.len() && rest[k] == inner[i];
                        assert(s[k] == rest[k]);
                    }
                } else {
                    assert(out[i] == inner[i] && out[j] == inner[j]);
                }
            }
        }
    }
}

/// Ordering by name keeps every encoder, as often as it occurs, and leaves
/// none standing before one whose name comes before its own.
pub proof fn law_sorted_by_name(s: Seq<VideoEncoderView>)
    ensures
        sorted_by_name(s).len() == s.len(),
        sorted_by_name(s).to_multiset() == s.to_multiset(),
        ordered_by_name(sorted_by_name(s)),
    decreases s.len(),
{
    if s.len() > 0 {
        let rest = s.drop_last();
        law_sorted_by_name(rest);
        lemma_insert_by_name(sorted_by_name(rest), s.last());
        vstd::seq_lib::to_multiset_build(rest, s.last());
        assert(rest.push(s.last()) =~= s);
        assert(sorted_by_name(s).to_multiset() =~= s.to_multiset());
    }
}

/// Every encoder listed can be used: it does not ask for Direct3D 12 memory.
pub proof fn law_offered_never_d3d12(probes: Seq<EncoderProbe>, i: int)
    requires
        0 <= i < offered(probes).len(),
    ensures
        offered(probes)[i].required_memory != Some("D3D12Memory"@),
    decreases probes.len(),
{
    if probes.len() > 0 {
        if is_offered(probes.last()) {
            if i < offered(probes.drop_last()).len() {
                law_offered_never_d3d12(probes.drop_last(), i);
            }
        } else {
            law_offered_never_d3d12(probes.drop_last(), i);
        }
    }
}

} // verus!
