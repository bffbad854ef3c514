//! How a CLAP plugin is advertised as a VST3 plugin.

use crate::flags::{FlagKind, Flags};
use crate::utils::is_nul_free;
use vstd::prelude::*;

verus! {

/// The C-compatible record of the VST3 information of a plugin: a vendor name, a component
/// identifier and a feature list, each of which may be absent. The two strings are held without
/// their nul terminator.
#[allow(non_camel_case_types)]
#[derive(Debug, Copy, Clone)]
pub struct clap_plugin_info_as_vst3<'a> {
    pub vendor: Option<&'a [u8]>,
    pub component_id: Option<&'a [u8; 16]>,
    pub features: Option<&'a [u8]>,
}

/// The bytes of an optional string, by value.
pub open spec fn opt_bytes(s: Option<&[u8]>) -> Option<Seq<u8>> {
    match s {
        Some(b) => Some(b@),
        None => None,
    }
}

/// The bytes of an optional component identifier, by value.
pub open spec fn opt_component_id(id: Option<&[u8; 16]>) -> Option<Seq<u8>> {
    match id {
        Some(b) => Some(b@),
        None => None,
    }
}

/// An optional string can stand in a C string: it holds no nul byte.
pub open spec fn opt_c_string(s: Option<Seq<u8>>) -> bool {
    s matches Some(b) ==> is_nul_free(b)
}

impl<'a> clap_plugin_info_as_vst3<'a> {
    /// Both strings of the record can stand as C strings.
    pub open spec fn wf(&self) -> bool {
        opt_c_string(opt_bytes(self.vendor)) && opt_c_string(opt_bytes(self.features))
    }
}

/// The VST3 information of a plugin.
#[derive(Debug, Copy, Clone)]
pub struct PluginInfoAsVST3<'a> {
    inner: clap_plugin_info_as_vst3<'a>,
}

impl<'a> PluginInfoAsVST3<'a> {
    /// The vendor name, if any.
    pub closed spec fn spec_vendor(&self) -> Option<Seq<u8>> {
        opt_bytes(self.inner.vendor)
    }

    /// The component identifier, if any.
    pub closed spec fn spec_component_id(&self) -> Option<Seq<u8>> {
        opt_component_id(self.inner.component_id)
    }

    /// The feature list, if any.
    pub closed spec fn spec_features(&self) -> Option<Seq<u8>> {
        opt_bytes(self.inner.features)
    }

    /// Both strings can stand as C strings.
    pub open spec fn wf(&self) -> bool {
        opt_c_string(self.spec_vendor()) && opt_c_string(self.spec_features())
    }

    /// Creates the information from its three optional parts.
    pub fn new(vendor: Option<&'a [u8]>, component_id: Option<&'a [u8; 16]>, features: Option<
        &'a [u8],
    >) -> (info: Self)
        requires
            opt_c_string(opt_bytes(vendor)),
            opt_c_string(opt_bytes(features)),
        ensures
            info.spec_vendor() == opt_bytes(vendor),
            info.spec_component_id() == opt_component_id(component_id),
            info.spec_features() == opt_bytes(features),
            info.wf(),
    {
        PluginInfoAsVST3 { inner: clap_plugin_info_as_vst3 { vendor, component_id, features } }
    }

    /// The vendor name, if any.
    pub fn vendor(&self) -> (v: Option<&'a [u8]>)
        ensures
            opt_bytes(v) == self.spec_vendor(),
    {
        self.inner.vendor
    }

    /// The component identifier, if any.
    pub fn component_id(&self) -> (id: Option<&'a [u8; 16]>)
        ensures
            opt_component_id(id) == self.spec_component_id(),
    {
        self.inner.component_id
    }

    /// The feature list, if any.
    pub fn features(&self) -> (f: Option<&'a [u8]>)
        ensures
            opt_bytes(f) == self.spec_features(),
    {
        self.inner.features
    }

    /// The C-compatible record.
    pub fn as_raw(&self) -> (raw: &clap_plugin_info_as_vst3<'a>)
        ensures
            opt_bytes(raw.vendor) == self.spec_vendor(),
            opt_component_id(raw.component_id) == self.spec_component_id(),
            opt_bytes(raw.features) == self.spec_features(),
    {
        &self.inner
    }

    /// Reads the information from its C-compatible record, whose strings must hold no nul byte.
    pub fn from_raw(raw: clap_plugin_info_as_vst3<'a>) -> (info: Self)
        requires
            raw.wf(),
        ensures
            info.spec_vendor() == opt_bytes(raw.vendor),
            info.spec_component_id() == opt_component_id(raw.component_id),
            info.spec_features() == opt_bytes(raw.features),
            info.wf(),
    {
        PluginInfoAsVST3 { inner: raw }
    }
}

/// The family of note expression flags that a VST3 plugin may support.
#[derive(Debug)]
pub struct SupportedNoteExpressionsKind;

impl FlagKind for SupportedNoteExpressionsKind {
    open spec fn spec_all_bits() -> u32 {
        0x7fu32
    }

    fn all_bits() -> (bits: u32) {
        0x7fu32
    }
}

/// The note expressions a VST3 plugin supports.
pub type SupportedNoteExpressions = Flags<SupportedNoteExpressionsKind>;

/// Volume.
pub const AS_VST3_NOTE_EXPRESSION_VOLUME: u32 = 1u32;
/// Panning.
pub const AS_VST3_NOTE_EXPRESSION_PAN: u32 = 2u32;
/// Tuning.
pub const AS_VST3_NOTE_EXPRESSION_TUNING: u32 = 4u32;
/// Vibrato.
pub const AS_VST3_NOTE_EXPRESSION_VIBRATO: u32 = 8u32;
/// Expression.
pub const AS_VST3_NOTE_EXPRESSION_EXPRESSION: u32 = 16u32;
/// Brightness.
pub const AS_VST3_NOTE_EXPRESSION_BRIGHTNESS: u32 = 32u32;
/// Pressure.
pub const AS_VST3_NOTE_EXPRESSION_PRESSURE: u32 = 64u32;

/// Every note expression flag is a known bit.
proof fn lemma_note_expression_bits()
    by (bit_vector)
    ensures
        AS_VST3_NOTE_EXPRESSION_VOLUME & !0x7fu32 == 0,
        AS_VST3_NOTE_EXPRESSION_PAN & !0x7fu32 == 0,
        AS_VST3_NOTE_EXPRESSION_TUNING & !0x7fu32 == 0,
        AS_VST3_NOTE_EXPRESSION_VIBRATO & !0x7fu32 == 0,
        AS_VST3_NOTE_EXPRESSION_EXPRESSION & !0x7fu32 == 0,
        AS_VST3_NOTE_EXPRESSION_BRIGHTNESS & !0x7fu32 == 0,
        AS_VST3_NOTE_EXPRESSION_PRESSURE & !0x7fu32 == 0,
{
}

impl Flags<SupportedNoteExpressionsKind> {
    /// Volume.
    pub fn volume() -> (f: Self)
        ensures
            f.spec_bits() == AS_VST3_NOTE_EXPRESSION_VOLUME,
            f.wf(),
    {
        proof {
            lemma_note_expression_bits();
        }
        Self::from_known_bits(AS_VST3_NOTE_EXPRESSION_VOLUME)
    }

    /// Panning.
    pub fn pan() -> (f: Self)
        ensures
            f.spec_bits() == AS_VST3_NOTE_EXPRESSION_PAN,
            f.wf(),
    {
        proof {
            lemma_note_expression_bits();
        }
        Self::from_known_bits(AS_VST3_NOTE_EXPRESSION_PAN)
    }

    /// Tuning.
    pub fn tuning() -> (f: Self)
        ensures
            f.spec_bits() == AS_VST3_NOTE_EXPRESSION_TUNING,
            f.wf(),
    {
        proof {
            lemma_note_expression_bits();
        }
        Self::from_known_bits(AS_VST3_NOTE_EXPRESSION_TUNING)
    }

    /// Vibrato.
    pub fn vibrato() -> (f: Self)
        ensures
            f.spec_bits() == AS_VST3_NOTE_EXPRESSION_VIBRATO,
            f.wf(),
    {
        proof {
            lemma_note_expression_bits();
        }
        Self::from_known_bits(AS_VST3_NOTE_EXPRESSION_VIBRATO)
    }

    /// Expression.
    pub fn expression() -> (f: Self)
        ensures
            f.spec_bits() == AS_VST3_NOTE_EXPRESSION_EXPRESSION,
            f.wf(),
    {
        proof {
            lemma_note_expression_bits();
        }
        Self::from_known_bits(AS_VST3_NOTE_EXPRESSION_EXPRESSION)
    }

    /// Brightness.
    pub fn brightness() -> (f: Self)
        ensures
            f.spec_bits() == AS_VST3_NOTE_EXPRESSION_BRIGHTNESS,
            f.wf(),
    {
        proof {
            lemma_note_expression_bits();
        }
        Self::from_known_bits(AS_VST3_NOTE_EXPRESSION_BRIGHTNESS)
    }

    /// Pressure.
    pub fn pressure() -> (f: Self)
        ensures
            f.spec_bits() == AS_VST3_NOTE_EXPRESSION_PRESSURE,
            f.wf(),
    {
        proof {
            lemma_note_expression_bits();
        }
        Self::from_known_bits(AS_VST3_NOTE_EXPRESSION_PRESSURE)
    }
}

/// What a host makes of a plugin's answer to how many MIDI channels a note port has: the answer
/// itself, or zero where the plugin does not implement the call.
pub fn num_midi_channels_reply(answer: Option<u32>) -> (channels: u32)
    ensures
        channels == (match answer {
            Some(n) => n,
            None => 0u32,
        }),
{
    match answer {
        Some(n) => n,
        None => 0u32,
    }
}

/// What a host makes of a plugin's answer to which note expressions it supports: the known bits
/// of the answer, or no expression where the plugin does not implement the call.
pub fn supported_note_expressions_reply(answer: Option<u32>) -> (f: SupportedNoteExpressions)
    ensures
        f.wf(),
        f.spec_bits() == (match answer {
            Some(bits) => bits & 0x7fu32,
            None => 0u32,
        }),
{
    match answer {
        Some(bits) => SupportedNoteExpressions::from_bits_truncate(bits),
        None => SupportedNoteExpressions::empty(),
    }
}

/// A plugin factory that describes each of its plugins as a VST3 plugin.
pub trait PluginFactoryAsVST3Impl {
    /// The VST3 information of the plugin at the given index, if there is one.
    fn get_vst3_info(&self, index: u32) -> Option<&PluginInfoAsVST3<'_>>;
}

/// The VST3 side of a plugin.
pub trait PluginAsVST3Impl {
    /// The number of MIDI channels of the given note port.
    fn num_midi_channels(&mut self, note_port: u32) -> u32;

    /// The note expressions the plugin supports.
    fn supported_note_expressions(&mut self) -> SupportedNoteExpressions;
}

/// The C-compatible description of a VST3 factory: an optional vendor name, vendor URL and
/// contact e-mail address, each held without its nul terminator.
#[allow(non_camel_case_types)]
#[derive(Debug, Copy, Clone)]
pub struct clap_plugin_factory_as_vst3 {
    pub vendor: Option<&'static [u8]>,
    pub vendor_url: Option<&'static [u8]>,
    pub email_contact: Option<&'static [u8]>,
}

/// A plugin factory, along with the vendor description it is advertised with as a VST3 factory.
pub struct PluginFactoryAsVST3Wrapper<F> {
    inner: clap_plugin_factory_as_vst3,
    factory: F,
}

impl<F: PluginFactoryAsVST3Impl> PluginFactoryAsVST3Wrapper<F> {
    /// The vendor name, vendor URL and contact address, in this order.
    pub closed spec fn spec_description(&self) -> (Option<Seq<u8>>, Option<Seq<u8>>, Option<
        Seq<u8>,
    >) {
        (
            opt_bytes(self.inner.vendor),
            opt_bytes(self.inner.vendor_url),
            opt_bytes(self.inner.email_contact),
        )
    }

    /// The wrapped factory.
    pub closed spec fn spec_factory(&self) -> F {
        self.factory
    }

    /// Wraps a factory with its vendor description.
    pub fn new(
        vendor: Option<&'static [u8]>,
        vendor_url: Option<&'static [u8]>,
        email_contact: Option<&'static [u8]>,
        factory: F,
    ) -> (w: Self)
        requires
            opt_c_string(opt_bytes(vendor)),
            opt_c_string(opt_bytes(vendor_url)),
            opt_c_string(opt_bytes(email_contact)),
        ensures
            w.spec_description() == (opt_bytes(vendor), opt_bytes(vendor_url), opt_bytes(
                email_contact,
            )),
            w.spec_factory() == factory,
    {
        PluginFactoryAsVST3Wrapper {
            inner: clap_plugin_factory_as_vst3 { vendor, vendor_url, email_contact },
            factory,
        }
    }

    /// The C-compatible description.
    pub fn as_raw(&self) -> (raw: &clap_plugin_factory_as_vst3)
        ensures
            (opt_bytes(raw.vendor), opt_bytes(raw.vendor_url), opt_bytes(raw.email_contact))
                == self.spec_description(),
    {
        &self.inner
    }

    /// The wrapped factory.
    pub fn factory(&self) -> (f: &F)
        ensures
            *f == self.spec_factory(),
    {
        &self.factory
    }
}

} // verus!
