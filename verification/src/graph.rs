//! Descriptions of the elements a capture graph is made of: which factory
//! makes each element and which properties it is given.

use vstd::prelude::*;
use vstd::string::StringExecFns;
use crate::gst_capture::CaptureError;
use crate::settings::Volume;
use crate::text::{all_digits, decimal_value, is_digit};

verus! {

/// The value of an element's property.
#[derive(Debug)]
pub enum Setting {
    Flag(bool),
    Int(i32),
    UInt(u32),
    Long(u64),
    Gain(Volume),
    /// A value written as text, which the framework reads by the property's
    /// type.
    Text(String),
}

/// Mathematical value of a [`Setting`].
pub enum SettingView {
    Flag(bool),
    Int(i32),
    UInt(u32),
    Long(u64),
    Gain(u32),
    Text(Seq<char>),
}

impl View for Setting {
    type V = SettingView;

    open spec fn view(&self) -> SettingView {
        match *self {
            Setting::Flag(b) => SettingView::Flag(b),
            Setting::Int(n) => SettingView::Int(n),
            Setting::UInt(n) => SettingView::UInt(n),
            Setting::Long(n) => SettingView::Long(n),
            Setting::Gain(v) => SettingView::Gain(v.bits),
            Setting::Text(t) => SettingView::Text(t@),
        }
    }
}

/// A property of an element: its name and the value it is set to.
#[derive(Debug)]
pub struct Property {
    pub name: String,
    pub value: Setting,
}

/// Mathematical value of a [`Property`].
pub struct PropertyView {
    pub name: Seq<char>,
    pub value: SettingView,
}

impl View for Property {
    type V = PropertyView;

    open spec fn view(&self) -> PropertyView {
        PropertyView { name: self.name@, value: self.value@ }
    }
}

/// The values of a sequence of properties, in the same order.
pub open spec fn property_views(s: Seq<Property>) -> Seq<PropertyView> {
    s.map_values(|p: Property| p@)
}

/// An element to make: the factory that makes it and the properties to set
/// on it, in order.
#[derive(Debug)]
pub struct ElementSpec {
    pub factory: String,
    pub properties: Vec<Property>,
}

/// Mathematical value of an [`ElementSpec`].
pub struct ElementView {
    pub factory: Seq<char>,
    pub properties: Seq<PropertyView>,
}

impl View for ElementSpec {
    type V = ElementView;

    open spec fn view(&self) -> ElementView {
        ElementView { factory: self.factory@, properties: property_views(self.properties@) }
    }
}

/// The property `name` set to `value`.
pub open spec fn prop(name: Seq<char>, value: SettingView) -> PropertyView {
    PropertyView { name, value }
}

impl ElementSpec {
    /// An element of `factory` with no property set.
    pub fn new(factory: &str) -> (out: Self)
        ensures
            out@ == (ElementView { factory: factory@, properties: Seq::<PropertyView>::empty() }),
    {
        let out = ElementSpec { factory: factory.to_owned(), properties: Vec::new() };
        assert(property_views(out.properties@) =~= Seq::<PropertyView>::empty());
        out
    }

    /// Adds the property `name` with `value` after those already there.
    pub fn set(&mut self, name: &str, value: Setting)
        ensures
            final(self)@ == (ElementView {
                factory: old(self)@.factory,
                properties: old(self)@.properties.push(prop(name@, value@)),
            }),
    {
        let property = Property { name: name.to_owned(), value };
        proof {
            assert(property_views(self.properties@.push(property)) =~= property_views(
                self.properties@,
            ).push(property@));
        }
        self.properties.push(property);
    }
}

/// The text of one decimal digit.
pub open spec fn digit_text(d: int) -> Seq<char>
    recommends
        0 <= d <= 9,
{
    seq![(d + '0' as int) as char]
}

/// The decimal digits of `n`, without leading zeros; `0` for zero.
pub open spec fn decimal_text(n: nat) -> Seq<char>
    decreases n,
{
    if n < 10 {
        digit_text(n as int)
    } else {
        decimal_text(n / 10) + digit_text((n % 10) as int)
    }
}

fn digit_str(d: u32) -> (text: &'static str)
    requires
        d <= 9,
    ensures
        text@ == digit_text(d as int),
{
    proof {
        reveal_strlit("0");
        reveal_strlit("1");
        reveal_strlit("2");
        reveal_strlit("3");
        reveal_strlit("4");
        reveal_strlit("5");
        reveal_strlit("6");
        reveal_strlit("7");
        reveal_strlit("8");
        reveal_strlit("9");
    }
    let text = if d == 0 {
        "0"
    } else if d == 1 {
        "1"
    } else if d == 2 {
        "2"
    } else if d == 3 {
        "3"
    } else if d == 4 {
        "4"
    } else if d == 5 {
        "5"
    } else if d == 6 {
        "6"
    } else if d == 7 {
        "7"
    } else if d == 8 {
        "8"
    } else {
        "9"
    };
    proof {
        assert(text@ =~= digit_text(d as int));
    }
    text
}

/// Writes `n` in decimal digits.
pub fn decimal(n: u32) -> (text: String)
    ensures
        text@ == decimal_text(n as nat),
    decreases n,
{
    if n < 10 {
        digit_str(n).to_owned()
    } else {
        let mut text = decimal(n / 10);
        text.append(digit_str(n % 10));
        text
    }
}

/// The digits written for `n` are digits, and read back they give `n`.
pub proof fn law_decimal_round_trip(n: nat)
    ensures
        decimal_text(n).len() > 0,
        all_digits(decimal_text(n)),
        decimal_value(decimal_text(n)) == n,
    decreases n,
{
    if n < 10 {
        let t = digit_text(n as int);
        assert(t.drop_last() =~= Seq::<char>::empty());
        assert(decimal_value(t.drop_last()) == 0);
    } else {
        law_decimal_round_trip(n / 10);
        let head = decimal_text(n / 10);
        let t = head + digit_text((n % 10) as int);
        assert(t.drop_last() =~= head);
        assert(t.last() == digit_text((n % 10) as int)[0]);
        assert forall|i: int| 0 <= i < t.len() implies is_digit(#[trigger] t[i]) by {
            if i < head.len() {
                assert(t[i] == head[i]);
            }
        }
    }
}

/// The muxer that joins the branches: an MPEG-TS muxer whose output can be
/// read as it is produced.
pub open spec fn muxer_view() -> ElementView {
    ElementView {
        factory: "mpegtsmux"@,
        properties: seq![prop("streamable"@, SettingView::Flag(true))],
    }
}

/// The sink that the packets are pulled from: it does not wait for the
/// clock, drops what is not collected beyond four buffers, and signals each
/// sample.
pub open spec fn sink_view() -> ElementView {
    ElementView {
        factory: "appsink"@,
        properties: seq![
            prop("emit-signals"@, SettingView::Flag(true)),
            prop("sync"@, SettingView::Flag(false)),
            prop("async"@, SettingView::Flag(false)),
            prop("drop"@, SettingView::Flag(true)),
            prop("max-buffers"@, SettingView::UInt(4)),
        ],
    }
}

/// The muxer element.
pub fn muxer_element() -> (out: ElementSpec)
    ensures
        out@ == muxer_view(),
{
    let mut out = ElementSpec::new("mpegtsmux");
    out.set("streamable", Setting::Flag(true));
    proof {
        assert(out@.properties =~= muxer_view().properties);
    }
    out
}

/// The sink element.
pub fn sink_element() -> (out: ElementSpec)
    ensures
        out@ == sink_view(),
{
    let mut out = ElementSpec::new("appsink");
    out.set("emit-signals", Setting::Flag(true));
    out.set("sync", Setting::Flag(false));
    out.set("async", Setting::Flag(false));
    out.set("drop", Setting::Flag(true));
    out.set("max-buffers", Setting::UInt(4));
    proof {
        assert(out@.properties =~= sink_view().properties);
    }
    out
}

/// The values of a sequence of elements, in the same order.
pub open spec fn element_views(s: Seq<ElementSpec>) -> Seq<ElementView> {
    s.map_values(|e: ElementSpec| e@)
}

/// An element of `factory` with no property set.
pub open spec fn bare(factory: Seq<char>) -> ElementView {
    ElementView { factory, properties: Seq::<PropertyView>::empty() }
}

/// The error for an element that the framework cannot make.
pub fn missing_element(element: &ElementSpec) -> (out: CaptureError)
    ensures
        match out {
            CaptureError::ElementMissing(name) => name@ == element@.factory,
            _ => false,
        },
{
    CaptureError::ElementMissing(element.factory.clone())
}

/// The error for two elements that cannot be linked, naming the pair.
pub fn link_failed(from: &ElementSpec, to: &ElementSpec) -> (out: CaptureError)
    ensures
        match out {
            CaptureError::LinkFailed(a, b) => a@ == from@.factory && b@ == to@.factory,
            _ => false,
        },
{
    CaptureError::LinkFailed(from.factory.clone(), to.factory.clone())
}

} // verus!
