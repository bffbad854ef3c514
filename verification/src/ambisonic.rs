//! The ambisonic channel mapping an audio port uses.

use crate::audio_ports::AudioPortType;
use vstd::prelude::*;

verus! {

/// The bytes of the `ambisonic` port type.
pub open spec fn spec_ambisonic_port_type() -> Seq<u8> {
    seq![0x61u8, 0x6du8, 0x62u8, 0x69u8, 0x73u8, 0x6fu8, 0x6eu8, 0x69u8, 0x63u8]
}

impl AudioPortType {
    /// The ambisonic port type.
    pub fn ambisonic() -> (t: AudioPortType)
        ensures
            t@ == spec_ambisonic_port_type(),
    {
        let t = AudioPortType(
            vec![0x61u8, 0x6du8, 0x62u8, 0x69u8, 0x73u8, 0x6fu8, 0x6eu8, 0x69u8, 0x63u8],
        );
        assert(t@ =~= spec_ambisonic_port_type());
        t
    }
}

/// The C-compatible record of an ambisonic configuration.
#[allow(non_camel_case_types)]
#[derive(Copy, Clone, Debug, PartialEq, Eq)]
pub struct clap_ambisonic_config {
    pub ordering: u32,
    pub normalization: u32,
}

/// Component ordering for an ambisonic data exchange format.
#[derive(Copy, Clone, Debug, PartialEq, Eq)]
pub enum AmbisonicOrdering {
    /// Furse-Malham channel ordering.
    FuMa,
    /// Ambisonic Channel Number (ACN) ordering.
    ACN,
}

/// Normalization method for an ambisonic data exchange format.
#[derive(Copy, Clone, Debug, PartialEq, Eq)]
pub enum AmbisonicNormalization {
    /// maxN normalization.
    MaxN,
    /// Schmidt semi-normalisation (3D).
    SN3D,
    /// Schmidt semi-normalisation (2D).
    SN2D,
    /// Full 3D normalization.
    N3D,
    /// Full 2D normalization.
    N2D,
}

impl AmbisonicOrdering {
    /// The raw value of an ordering.
    pub open spec fn spec_to_raw(self) -> u32 {
        match self {
            AmbisonicOrdering::FuMa => 0,
            AmbisonicOrdering::ACN => 1,
        }
    }

    /// The ordering a raw value stands for, if any.
    pub open spec fn spec_from_raw(raw: u32) -> Option<AmbisonicOrdering> {
        if raw == 0 {
            Some(AmbisonicOrdering::FuMa)
        } else if raw == 1 {
            Some(AmbisonicOrdering::ACN)
        } else {
            None
        }
    }

    /// Returns the ordering a raw value stands for, or `None` for an unknown value.
    pub fn from_raw(raw: u32) -> (o: Option<AmbisonicOrdering>)
        ensures
            o == Self::spec_from_raw(raw),
    {
        if raw == 0 {
            Some(AmbisonicOrdering::FuMa)
        } else if raw == 1 {
            Some(AmbisonicOrdering::ACN)
        } else {
            None
        }
    }

    /// Returns the raw value of this ordering.
    pub fn to_raw(self) -> (raw: u32)
        ensures
            raw == self.spec_to_raw(),
    {
        match self {
            AmbisonicOrdering::FuMa => 0,
            AmbisonicOrdering::ACN => 1,
        }
    }
}

impl AmbisonicNormalization {
    /// The raw value of a normalization.
    pub open spec fn spec_to_raw(self) -> u32 {
        match self {
            AmbisonicNormalization::MaxN => 0,
            AmbisonicNormalization::SN3D => 1,
            AmbisonicNormalization::N3D => 2,
            AmbisonicNormalization::SN2D => 3,
            AmbisonicNormalization::N2D => 4,
        }
    }

    /// The normalization a raw value stands for, if any.
    pub open spec fn spec_from_raw(raw: u32) -> Option<AmbisonicNormalization> {
        if raw == 0 {
            Some(AmbisonicNormalization::MaxN)
        } else if raw == 1 {
            Some(AmbisonicNormalization::SN3D)
        } else if raw == 2 {
            Some(AmbisonicNormalization::N3D)
        } else if raw == 3 {
            Some(AmbisonicNormalization::SN2D)
        } else if raw == 4 {
            Some(AmbisonicNormalization::N2D)
        } else {
            None
        }
    }

    /// Returns the normalization a raw value stands for, or `None` for an unknown value.
    pub fn from_raw(raw: u32) -> (n: Option<AmbisonicNormalization>)
        ensures
            n == Self::spec_from_raw(raw),
    {
        if raw == 0 {
            Some(AmbisonicNormalization::MaxN)
        } else if raw == 1 {
            Some(AmbisonicNormalization::SN3D)
        } else if raw == 2 {
            Some(AmbisonicNormalization::N3D)
        } else if raw == 3 {
            Some(AmbisonicNormalization::SN2D)
        } else if raw == 4 {
            Some(AmbisonicNormalization::N2D)
        } else {
            None
        }
    }

    /// Returns the raw value of this normalization.
    pub fn to_raw(self) -> (raw: u32)
        ensures
            raw == self.spec_to_raw(),
    {
        match self {
            AmbisonicNormalization::MaxN => 0,
            AmbisonicNormalization::SN3D => 1,
            AmbisonicNormalization::N3D => 2,
            AmbisonicNormalization::SN2D => 3,
            AmbisonicNormalization::N2D => 4,
        }
    }
}

/// Orderings and normalizations survive the trip through their raw values, and known raw values
/// survive the trip through them.
pub proof fn lemma_ambisonic_raw_roundtrip(
    o: AmbisonicOrdering,
    n: AmbisonicNormalization,
    raw: u32,
)
    ensures
        AmbisonicOrdering::spec_from_raw(o.spec_to_raw()) == Some(o),
        AmbisonicNormalization::spec_from_raw(n.spec_to_raw()) == Some(n),
        AmbisonicOrdering::spec_from_raw(raw) matches Some(x) ==> x.spec_to_raw() == raw,
        AmbisonicNormalization::spec_from_raw(raw) matches Some(x) ==> x.spec_to_raw() == raw,
{
}

/// The ambisonic data exchange format of an audio port.
#[derive(Copy, Clone, Debug)]
pub struct AmbisonicConfig {
    inner: clap_ambisonic_config,
}

impl AmbisonicConfig {
    /// The raw record of a configuration.
    pub closed spec fn spec_raw(self) -> clap_ambisonic_config {
        self.inner
    }

    /// Creates a configuration from an ordering and a normalization.
    pub fn new(ordering: AmbisonicOrdering, normalization: AmbisonicNormalization) -> (c: Self)
        ensures
            c.spec_raw() == (clap_ambisonic_config {
                ordering: ordering.spec_to_raw(),
                normalization: normalization.spec_to_raw(),
            }),
    {
        AmbisonicConfig {
            inner: clap_ambisonic_config {
                normalization: normalization.to_raw(),
                ordering: ordering.to_raw(),
            },
        }
    }

    /// Creates a configuration from its raw record, which may hold unknown values.
    pub fn from_raw(raw: clap_ambisonic_config) -> (c: Self)
        ensures
            c.spec_raw() == raw,
    {
        AmbisonicConfig { inner: raw }
    }

    /// Returns the raw record of this configuration.
    pub fn as_raw(&self) -> (raw: &clap_ambisonic_config)
        ensures
            *raw == self.spec_raw(),
    {
        &self.inner
    }

    /// Returns the ordering of this configuration, or `None` if its raw value is unknown.
    pub fn ordering(&self) -> (o: Option<AmbisonicOrdering>)
        ensures
            o == AmbisonicOrdering::spec_from_raw(self.spec_raw().ordering),
    {
        AmbisonicOrdering::from_raw(self.inner.ordering)
    }

    /// Returns the normalization of this configuration, or `None` if its raw value is unknown.
    pub fn normalization(&self) -> (n: Option<AmbisonicNormalization>)
        ensures
            n == AmbisonicNormalization::spec_from_raw(self.spec_raw().normalization),
    {
        AmbisonicNormalization::from_raw(self.inner.normalization)
    }
}

/// A configuration created from an ordering and a normalization gives them back.
pub proof fn lemma_ambisonic_config_new(
    c: AmbisonicConfig,
    o: AmbisonicOrdering,
    n: AmbisonicNormalization,
)
    requires
        c.spec_raw() == (clap_ambisonic_config {
            ordering: o.spec_to_raw(),
            normalization: n.spec_to_raw(),
        }),
    ensures
        AmbisonicOrdering::spec_from_raw(c.spec_raw().ordering) == Some(o),
        AmbisonicNormalization::spec_from_raw(c.spec_raw().normalization) == Some(n),
{
}

/// The host-side implementation of the Ambisonic extension.
pub trait HostAmbisonicImpl {
    /// Notifies the host that the ambisonic configuration of one or more ports has changed.
    fn changed(&mut self);
}

/// The plugin-side implementation of the Ambisonic extension.
pub trait PluginAmbisonicImpl {
    /// Returns true if the given configuration is supported.
    fn is_config_supported(&self, config: AmbisonicConfig) -> bool;

    /// Returns the ambisonic configuration of the given port, if it has one.
    fn get_config(&self, is_input: bool, port_index: u32) -> Option<AmbisonicConfig>;
}

} // verus!
