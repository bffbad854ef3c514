//! The audio ports of a plugin: their types, flags and descriptions.

use crate::common::{ClapId, CLAP_INVALID_ID};
use crate::flags::{FlagKind, Flags};
use crate::utils::{data_from_array_buf, write_to_array_buf, stored_data, written_buf, is_nul_free, kept_len, lemma_written_buf_stored_data};
use vstd::prelude::*;

verus! {

/// The size of the name buffer of CLAP records.
pub const CLAP_NAME_SIZE: usize = 256usize;

/// The type of an audio port: the bytes of a C string, such as `mono` or `stereo`, without the
/// nul terminator.
#[derive(Clone, Debug, PartialEq, Eq)]
pub struct AudioPortType(pub Vec<u8>);

impl View for AudioPortType {
    type V = Seq<u8>;

    open spec fn view(&self) -> Seq<u8> {
        self.0@
    }
}

/// The abstract value of an optional port type.
pub open spec fn opt_port_type_view(t: Option<AudioPortType>) -> Option<Seq<u8>> {
    match t {
        Some(t) => Some(t@),
        None => None,
    }
}

/// The abstract value of an optional byte buffer.
pub open spec fn opt_bytes_view(b: Option<Vec<u8>>) -> Option<Seq<u8>> {
    match b {
        Some(v) => Some(v@),
        None => None,
    }
}

/// The bytes of the `mono` port type.
pub open spec fn spec_mono() -> Seq<u8> {
    seq![0x6du8, 0x6fu8, 0x6eu8, 0x6fu8]
}

/// The bytes of the `stereo` port type.
pub open spec fn spec_stereo() -> Seq<u8> {
    seq![0x73u8, 0x74u8, 0x65u8, 0x72u8, 0x65u8, 0x6fu8]
}

/// The port type that a raw C string stands for: none for a null pointer or an empty string.
pub open spec fn spec_port_type_from_raw(raw: Option<Seq<u8>>) -> Option<Seq<u8>> {
    match raw {
        Some(bytes) => if bytes.len() == 0 {
            None
        } else {
            Some(bytes)
        },
        None => None,
    }
}

impl AudioPortType {
    /// The mono port type.
    pub fn mono() -> (t: AudioPortType)
        ensures
            t@ == spec_mono(),
    {
        let t = AudioPortType(vec![0x6du8, 0x6fu8, 0x6eu8, 0x6fu8]);
        assert(t@ =~= spec_mono());
        t
    }

    /// The stereo port type.
    pub fn stereo() -> (t: AudioPortType)
        ensures
            t@ == spec_stereo(),
    {
        let t = AudioPortType(vec![0x73u8, 0x74u8, 0x65u8, 0x72u8, 0x65u8, 0x6fu8]);
        assert(t@ =~= spec_stereo());
        t
    }

    /// The standard port type for a channel count: mono for one channel, stereo for two, and
    /// none for any other count.
    pub fn from_channel_count(channel_count: u32) -> (t: Option<AudioPortType>)
        ensures
            channel_count == 1 ==> opt_port_type_view(t) == Some(spec_mono()),
            channel_count == 2 ==> opt_port_type_view(t) == Some(spec_stereo()),
            channel_count != 1 && channel_count != 2 ==> t is None,
    {
        if channel_count == 1 {
            Some(Self::mono())
        } else if channel_count == 2 {
            Some(Self::stereo())
        } else {
            None
        }
    }

    /// Returns the port type that a raw C string stands for, given as its bytes, with `None` for
    /// a null pointer. A null pointer and an empty string give no port type.
    pub fn from_raw(raw: Option<Vec<u8>>) -> (t: Option<AudioPortType>)
        ensures
            opt_port_type_view(t) == spec_port_type_from_raw(opt_bytes_view(raw)),
    {
        match raw {
            Some(bytes) => if bytes.len() == 0 {
                None
            } else {
                Some(AudioPortType(bytes))
            },
            None => None,
        }
    }

    /// Returns the raw C string of this port type, as its bytes.
    pub fn as_raw(&self) -> (raw: &Vec<u8>)
        ensures
            raw@ == self@,
    {
        &self.0
    }
}

/// The family of audio-port rescan flags.
#[derive(Debug)]
pub struct AudioPortsRescanKind;

impl FlagKind for AudioPortsRescanKind {
    open spec fn spec_all_bits() -> u32 {
        0x3fu32
    }

    fn all_bits() -> (bits: u32) {
        0x3fu32
    }
}

/// Which aspects of the audio ports the host must scan again.
pub type RescanType = Flags<AudioPortsRescanKind>;

/// The rescan flag for changed port names.
pub const CLAP_AUDIO_PORTS_RESCAN_NAMES: u32 = 1u32;
/// The rescan flag for changed port flags.
pub const CLAP_AUDIO_PORTS_RESCAN_FLAGS: u32 = 2u32;
/// The rescan flag for changed channel counts.
pub const CLAP_AUDIO_PORTS_RESCAN_CHANNEL_COUNT: u32 = 4u32;
/// The rescan flag for changed port types.
pub const CLAP_AUDIO_PORTS_RESCAN_PORT_TYPE: u32 = 8u32;
/// The rescan flag for changed in-place pairs.
pub const CLAP_AUDIO_PORTS_RESCAN_IN_PLACE_PAIR: u32 = 16u32;
/// The rescan flag for a changed list of ports.
pub const CLAP_AUDIO_PORTS_RESCAN_LIST: u32 = 32u32;

/// Every rescan flag is a known bit.
proof fn lemma_rescan_bits()
    by (bit_vector)
    ensures
        CLAP_AUDIO_PORTS_RESCAN_NAMES & !0x3fu32 == 0,
        CLAP_AUDIO_PORTS_RESCAN_FLAGS & !0x3fu32 == 0,
        CLAP_AUDIO_PORTS_RESCAN_CHANNEL_COUNT & !0x3fu32 == 0,
        CLAP_AUDIO_PORTS_RESCAN_PORT_TYPE & !0x3fu32 == 0,
        CLAP_AUDIO_PORTS_RESCAN_IN_PLACE_PAIR & !0x3fu32 == 0,
        CLAP_AUDIO_PORTS_RESCAN_LIST & !0x3fu32 == 0,
{
}

impl Flags<AudioPortsRescanKind> {
    /// The names of the ports changed.
    pub fn names() -> (f: Self)
        ensures
            f.spec_bits() == CLAP_AUDIO_PORTS_RESCAN_NAMES,
            f.wf(),
    {
        proof {
            lemma_rescan_bits();
        }
        Self::from_known_bits(CLAP_AUDIO_PORTS_RESCAN_NAMES)
    }

    /// The flags of the ports changed.
    pub fn flags() -> (f: Self)
        ensures
            f.spec_bits() == CLAP_AUDIO_PORTS_RESCAN_FLAGS,
            f.wf(),
    {
        proof {
            lemma_rescan_bits();
        }
        Self::from_known_bits(CLAP_AUDIO_PORTS_RESCAN_FLAGS)
    }

    /// The channel counts of the ports changed.
    pub fn channel_count() -> (f: Self)
        ensures
            f.spec_bits() == CLAP_AUDIO_PORTS_RESCAN_CHANNEL_COUNT,
            f.wf(),
    {
        proof {
            lemma_rescan_bits();
        }
        Self::from_known_bits(CLAP_AUDIO_PORTS_RESCAN_CHANNEL_COUNT)
    }

    /// The types of the ports changed.
    pub fn port_type() -> (f: Self)
        ensures
            f.spec_bits() == CLAP_AUDIO_PORTS_RESCAN_PORT_TYPE,
            f.wf(),
    {
        proof {
            lemma_rescan_bits();
        }
        Self::from_known_bits(CLAP_AUDIO_PORTS_RESCAN_PORT_TYPE)
    }

    /// The in-place pairs of the ports changed.
    pub fn in_place_pair() -> (f: Self)
        ensures
            f.spec_bits() == CLAP_AUDIO_PORTS_RESCAN_IN_PLACE_PAIR,
            f.wf(),
    {
        proof {
            lemma_rescan_bits();
        }
        Self::from_known_bits(CLAP_AUDIO_PORTS_RESCAN_IN_PLACE_PAIR)
    }

    /// The list of ports changed.
    pub fn list() -> (f: Self)
        ensures
            f.spec_bits() == CLAP_AUDIO_PORTS_RESCAN_LIST,
            f.wf(),
    {
        proof {
            lemma_rescan_bits();
        }
        Self::from_known_bits(CLAP_AUDIO_PORTS_RESCAN_LIST)
    }

    /// Returns `true` if any of the set flags requires the plugin to be deactivated before the
    /// ports are scanned again: that is, if any flag other than [`names`](Self::names) is set.
    pub fn requires_deactivate(&self) -> (res: bool)
        ensures
            res == (self.spec_bits() & !CLAP_AUDIO_PORTS_RESCAN_NAMES != 0),
    {
        let restart_required = Self::flags().union(Self::channel_count()).union(
            Self::port_type(),
        ).union(Self::port_type()).union(Self::in_place_pair()).union(Self::list());
        let res = self.intersects(restart_required);
        proof {
            use_type_invariant(self);
        }
        let ghost b = self.spec_bits();
        assert(b & !0x3fu32 == 0 ==> ((b & (2u32 | 4u32 | 8u32 | 8u32 | 16u32 | 32u32) != 0) == (b
            & !1u32 != 0))) by (bit_vector);
        res
    }
}

/// The family of audio-port flags.
#[derive(Debug)]
pub struct AudioPortFlagsKind;

impl FlagKind for AudioPortFlagsKind {
    open spec fn spec_all_bits() -> u32 {
        0xfu32
    }

    fn all_bits() -> (bits: u32) {
        0xfu32
    }
}

/// Flags that describe an audio port.
pub type AudioPortFlags = Flags<AudioPortFlagsKind>;

/// The flag of a main port.
pub const CLAP_AUDIO_PORT_IS_MAIN: u32 = 1u32;
/// The flag of a port that supports 64-bit samples.
pub const CLAP_AUDIO_PORT_SUPPORTS_64BITS: u32 = 2u32;
/// The flag of a port that prefers 64-bit samples.
pub const CLAP_AUDIO_PORT_PREFERS_64BITS: u32 = 4u32;
/// The flag of a port that needs every port to use the same sample size.
pub const CLAP_AUDIO_PORT_REQUIRES_COMMON_SAMPLE_SIZE: u32 = 8u32;

/// The C-compatible description of an audio port. The port type is the bytes of a C string, with
/// `None` standing for a null pointer.
#[allow(non_camel_case_types)]
#[derive(Clone, Debug)]
pub struct clap_audio_port_info {
    pub id: u32,
    pub name: [u8; CLAP_NAME_SIZE],
    pub flags: u32,
    pub channel_count: u32,
    pub port_type: Option<Vec<u8>>,
    pub in_place_pair: u32,
}

/// The abstract value of a raw audio port description.
pub struct RawAudioPortInfoView {
    pub id: u32,
    pub name: Seq<u8>,
    pub flags: u32,
    pub channel_count: u32,
    pub port_type: Option<Seq<u8>>,
    pub in_place_pair: u32,
}

impl View for clap_audio_port_info {
    type V = RawAudioPortInfoView;

    open spec fn view(&self) -> RawAudioPortInfoView {
        RawAudioPortInfoView {
            id: self.id,
            name: self.name@,
            flags: self.flags,
            channel_count: self.channel_count,
            port_type: opt_bytes_view(self.port_type),
            in_place_pair: self.in_place_pair,
        }
    }
}

/// The description of an audio port.
#[derive(Clone, Debug)]
pub struct AudioPortInfo {
    pub id: ClapId,
    pub name: Vec<u8>,
    pub channel_count: u32,
    pub flags: AudioPortFlags,
    pub port_type: Option<AudioPortType>,
    pub in_place_pair: Option<ClapId>,
}

/// The abstract value of an audio port description.
pub struct AudioPortInfoView {
    pub id: ClapId,
    pub name: Seq<u8>,
    pub channel_count: u32,
    pub flags: u32,
    pub port_type: Option<Seq<u8>>,
    pub in_place_pair: Option<ClapId>,
}

impl View for AudioPortInfo {
    type V = AudioPortInfoView;

    open spec fn view(&self) -> AudioPortInfoView {
        AudioPortInfoView {
            id: self.id,
            name: self.name@,
            channel_count: self.channel_count,
            flags: self.flags.spec_bits(),
            port_type: opt_port_type_view(self.port_type),
            in_place_pair: self.in_place_pair,
        }
    }
}

/// The description that a raw record stands for, if its identifier is valid.
pub open spec fn spec_audio_port_info_from_raw(raw: RawAudioPortInfoView) -> Option<
    AudioPortInfoView,
> {
    if raw.id == CLAP_INVALID_ID {
        None
    } else {
        Some(
            AudioPortInfoView {
                id: ClapId::new_spec(raw.id),
                name: stored_data(raw.name),
                channel_count: raw.channel_count,
                flags: raw.flags & 0xfu32,
                port_type: spec_port_type_from_raw(raw.port_type),
                in_place_pair: if raw.in_place_pair == CLAP_INVALID_ID {
                    None
                } else {
                    Some(ClapId::new_spec(raw.in_place_pair))
                },
            },
        )
    }
}

/// The raw record that a writer leaves after writing a description into `old`.
pub open spec fn spec_audio_port_info_written(
    old: RawAudioPortInfoView,
    data: AudioPortInfoView,
) -> RawAudioPortInfoView {
    RawAudioPortInfoView {
        id: data.id.value(),
        name: written_buf(old.name, data.name),
        flags: data.flags,
        channel_count: data.channel_count,
        port_type: data.port_type,
        in_place_pair: ClapId::spec_optional_to_raw(data.in_place_pair),
    }
}

/// The abstract value of an optional description.
pub open spec fn opt_audio_port_info_view(i: Option<AudioPortInfo>) -> Option<AudioPortInfoView> {
    match i {
        Some(i) => Some(i@),
        None => None,
    }
}

impl AudioPortInfo {
    /// Returns the description that a raw record stands for, or `None` if its identifier is
    /// invalid. The name is read up to its nul terminator, unknown flags are dropped, a null or
    /// empty port type gives none, and an invalid in-place pair gives none.
    pub fn from_raw(raw: &clap_audio_port_info) -> (info: Option<AudioPortInfo>)
        ensures
            opt_audio_port_info_view(info) == spec_audio_port_info_from_raw(raw@),
    {
        let id = ClapId::from_raw(raw.id)?;
        let port_type_bytes = match &raw.port_type {
            Some(b) => Some(b.clone()),
            None => None,
        };
        let info = AudioPortInfo {
            id,
            name: data_from_array_buf(&raw.name),
            channel_count: raw.channel_count,
            flags: AudioPortFlags::from_bits_truncate(raw.flags),
            port_type: AudioPortType::from_raw(port_type_bytes),
            in_place_pair: ClapId::from_raw(raw.in_place_pair),
        };
        Some(info)
    }
}

/// Writes the description of an audio port into a raw record that a host provided.
pub struct AudioPortInfoWriter {
    buf: clap_audio_port_info,
    is_set: bool,
}

impl AudioPortInfoWriter {
    /// The record as it currently stands.
    pub closed spec fn spec_buf(&self) -> RawAudioPortInfoView {
        self.buf@
    }

    /// Whether a description was written.
    pub closed spec fn spec_is_set(&self) -> bool {
        self.is_set
    }

    /// Creates a writer over the given record; nothing is written yet.
    pub fn from_raw(raw: clap_audio_port_info) -> (w: AudioPortInfoWriter)
        ensures
            w.spec_buf() == raw@,
            !w.spec_is_set(),
    {
        AudioPortInfoWriter { buf: raw, is_set: false }
    }

    /// Writes the given description into the record.
    pub fn set(&mut self, data: &AudioPortInfo)
        ensures
            final(self).spec_buf() == spec_audio_port_info_written(old(self).spec_buf(), data@),
            final(self).spec_is_set(),
    {
        self.buf.id = data.id.get();
        write_to_array_buf(&mut self.buf.name, data.name.as_slice());
        self.buf.flags = data.flags.bits();
        self.buf.channel_count = data.channel_count;
        self.buf.port_type = match &data.port_type {
            Some(t) => Some(t.0.clone()),
            None => None,
        };
        self.buf.in_place_pair = ClapId::optional_to_raw(data.in_place_pair);
        self.is_set = true;
    }

    /// Returns the record and whether a description was written into it.
    pub fn finish(self) -> (res: (clap_audio_port_info, bool))
        ensures
            res.0@ == self.spec_buf(),
            res.1 == self.spec_is_set(),
    {
        (self.buf, self.is_set)
    }
}

/// Whether a description survives being written into a raw record and read back: its identifiers
/// are valid, its flags are known ones, its name is nul-free and fits the name buffer, and its
/// port type, if any, is a non-empty string.
pub open spec fn audio_port_info_fits_raw(data: AudioPortInfoView) -> bool {
    &&& data.id.wf()
    &&& data.in_place_pair matches Some(p) ==> p.wf()
    &&& data.flags & !0xfu32 == 0
    &&& is_nul_free(data.name)
    &&& data.name.len() < CLAP_NAME_SIZE
    &&& data.port_type matches Some(t) ==> t.len() > 0
}

/// Reading back a raw record that a description was written into gives the same description.
pub proof fn lemma_audio_port_info_roundtrip(old: RawAudioPortInfoView, data: AudioPortInfoView)
    requires
        old.name.len() == CLAP_NAME_SIZE,
        audio_port_info_fits_raw(data),
    ensures
        spec_audio_port_info_from_raw(spec_audio_port_info_written(old, data)) == Some(data),
{
    lemma_written_buf_stored_data(old.name, data.name);
    assert(data.name.take(kept_len(old.name.len(), data.name)) =~= data.name);
    ClapId::lemma_new_spec_value(data.id);
    match data.in_place_pair {
        Some(p) => ClapId::lemma_new_spec_value(p),
        None => {},
    }
    let f = data.flags;
    assert(f & !0xfu32 == 0 ==> f & 0xfu32 == f) by (bit_vector);
}

/// The plugin side of the audio ports extension.
pub trait PluginAudioPortsImpl {
    /// The number of input or output ports.
    fn count(&mut self, is_input: bool) -> u32;

    /// Writes the description of the input or output port at the given index into the host's
    /// record.
    fn get(&mut self, index: u32, is_input: bool, writer: &mut AudioPortInfoWriter);
}

/// The host side of the audio ports extension.
pub trait HostAudioPortsImpl {
    /// Whether the host lets the plugin change what the given rescan flag stands for.
    fn is_rescan_flag_supported(&self, flag: RescanType) -> bool;

    /// Rescans the audio ports as the flags say.
    fn rescan(&mut self, flags: RescanType);
}

} // verus!
