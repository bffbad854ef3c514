//! The note ports of a plugin, and the note dialects they speak.

use crate::audio_ports::CLAP_NAME_SIZE;
use crate::common::{ClapId, CLAP_INVALID_ID};
use crate::flags::{FlagKind, Flags};
use crate::utils::{
    data_from_array_buf, is_nul_free, kept_len, lemma_written_buf_stored_data, stored_data,
    write_to_array_buf, written_buf,
};
use vstd::prelude::*;

verus! {

/// The family of note-port rescan flags.
#[derive(Debug)]
pub struct NotePortRescanKind;

impl FlagKind for NotePortRescanKind {
    open spec fn spec_all_bits() -> u32 {
        3u32
    }

    fn all_bits() -> (bits: u32) {
        3u32
    }
}

/// What note port information changed and must be scanned again by the host.
pub type NotePortRescanFlags = Flags<NotePortRescanKind>;

/// The rescan flag that invalidates everything the host knows about the note ports.
pub const CLAP_NOTE_PORTS_RESCAN_ALL: u32 = 1u32;
/// The rescan flag for changed note port names.
pub const CLAP_NOTE_PORTS_RESCAN_NAMES: u32 = 2u32;

/// The family of note dialect sets.
#[derive(Debug)]
pub struct NoteDialectsKind;

impl FlagKind for NoteDialectsKind {
    open spec fn spec_all_bits() -> u32 {
        0xfu32
    }

    fn all_bits() -> (bits: u32) {
        0xfu32
    }
}

/// A set of [`NoteDialect`]s.
pub type NoteDialects = Flags<NoteDialectsKind>;

/// The raw value of the CLAP note dialect.
pub const CLAP_NOTE_DIALECT_CLAP: u32 = 1u32;
/// The raw value of the MIDI note dialect.
pub const CLAP_NOTE_DIALECT_MIDI: u32 = 2u32;
/// The raw value of the MIDI note dialect with MPE.
pub const CLAP_NOTE_DIALECT_MIDI_MPE: u32 = 4u32;
/// The raw value of the MIDI 2 note dialect.
pub const CLAP_NOTE_DIALECT_MIDI2: u32 = 8u32;

/// Every note port rescan flag and every note dialect is a known bit of its family.
proof fn lemma_note_port_bits()
    by (bit_vector)
    ensures
        CLAP_NOTE_PORTS_RESCAN_ALL & !3u32 == 0,
        CLAP_NOTE_PORTS_RESCAN_NAMES & !3u32 == 0,
        CLAP_NOTE_DIALECT_CLAP & !0xfu32 == 0,
        CLAP_NOTE_DIALECT_MIDI & !0xfu32 == 0,
        CLAP_NOTE_DIALECT_MIDI_MPE & !0xfu32 == 0,
        CLAP_NOTE_DIALECT_MIDI2 & !0xfu32 == 0,
{
}

impl Flags<NotePortRescanKind> {
    /// Invalidates everything the host knows about the note ports.
    pub fn all() -> (f: Self)
        ensures
            f.spec_bits() == CLAP_NOTE_PORTS_RESCAN_ALL,
            f.wf(),
    {
        proof {
            lemma_note_port_bits();
        }
        Self::from_known_bits(CLAP_NOTE_PORTS_RESCAN_ALL)
    }

    /// The names of the note ports changed.
    pub fn names() -> (f: Self)
        ensures
            f.spec_bits() == CLAP_NOTE_PORTS_RESCAN_NAMES,
            f.wf(),
    {
        proof {
            lemma_note_port_bits();
        }
        Self::from_known_bits(CLAP_NOTE_PORTS_RESCAN_NAMES)
    }
}

/// A note dialect a note port may support.
#[derive(Copy, Clone, Eq, PartialEq, Hash, Debug)]
pub enum NoteDialect {
    /// CLAP note events.
    Clap,
    /// MIDI events.
    Midi,
    /// MIDI events with MPE.
    MidiMpe,
    /// MIDI 2 events.
    Midi2,
}

impl NoteDialect {
    /// The raw value of a dialect: a single bit.
    pub open spec fn spec_to_raw(self) -> u32 {
        match self {
            NoteDialect::Clap => CLAP_NOTE_DIALECT_CLAP,
            NoteDialect::Midi => CLAP_NOTE_DIALECT_MIDI,
            NoteDialect::MidiMpe => CLAP_NOTE_DIALECT_MIDI_MPE,
            NoteDialect::Midi2 => CLAP_NOTE_DIALECT_MIDI2,
        }
    }

    /// The dialect a raw value stands for, if any.
    pub open spec fn spec_from_raw(raw: u32) -> Option<NoteDialect> {
        if raw == CLAP_NOTE_DIALECT_CLAP {
            Some(NoteDialect::Clap)
        } else if raw == CLAP_NOTE_DIALECT_MIDI {
            Some(NoteDialect::Midi)
        } else if raw == CLAP_NOTE_DIALECT_MIDI_MPE {
            Some(NoteDialect::MidiMpe)
        } else if raw == CLAP_NOTE_DIALECT_MIDI2 {
            Some(NoteDialect::Midi2)
        } else {
            None
        }
    }

    /// Returns the dialect a raw value stands for, or `None` for an unknown value.
    pub fn from_raw(raw: u32) -> (d: Option<NoteDialect>)
        ensures
            d == Self::spec_from_raw(raw),
    {
        if raw == CLAP_NOTE_DIALECT_CLAP {
            Some(NoteDialect::Clap)
        } else if raw == CLAP_NOTE_DIALECT_MIDI {
            Some(NoteDialect::Midi)
        } else if raw == CLAP_NOTE_DIALECT_MIDI_MPE {
            Some(NoteDialect::MidiMpe)
        } else if raw == CLAP_NOTE_DIALECT_MIDI2 {
            Some(NoteDialect::Midi2)
        } else {
            None
        }
    }

    /// Returns the raw value of this dialect.
    pub fn to_raw(self) -> (raw: u32)
        ensures
            raw == self.spec_to_raw(),
    {
        match self {
            NoteDialect::Clap => CLAP_NOTE_DIALECT_CLAP,
            NoteDialect::Midi => CLAP_NOTE_DIALECT_MIDI,
            NoteDialect::MidiMpe => CLAP_NOTE_DIALECT_MIDI_MPE,
            NoteDialect::Midi2 => CLAP_NOTE_DIALECT_MIDI2,
        }
    }
}

/// A dialect survives the trip through its raw value, and a known raw value survives the trip
/// through its dialect.
pub proof fn lemma_note_dialect_raw_roundtrip(d: NoteDialect, raw: u32)
    ensures
        NoteDialect::spec_from_raw(d.spec_to_raw()) == Some(d),
        NoteDialect::spec_from_raw(raw) matches Some(x) ==> x.spec_to_raw() == raw,
{
}

impl Flags<NoteDialectsKind> {
    /// The set that holds only the given dialect.
    pub fn from_dialect(d: NoteDialect) -> (f: Self)
        ensures
            f.spec_bits() == d.spec_to_raw(),
            f == Self::from_known_bits_spec(d.spec_to_raw()),
            f.wf(),
    {
        proof {
            lemma_note_port_bits();
        }
        Self::from_known_bits(d.to_raw())
    }

    /// Whether this set holds the given dialect.
    pub fn supports(&self, dialect: NoteDialect) -> (res: bool)
        ensures
            res == (self.spec_bits() & dialect.spec_to_raw() == dialect.spec_to_raw()),
    {
        self.contains(Self::from_dialect(dialect))
    }
}

impl From<NoteDialect> for Flags<NoteDialectsKind> {
    fn from(d: NoteDialect) -> (f: Self) {
        Self::from_dialect(d)
    }
}

impl vstd::std_specs::convert::FromSpecImpl<NoteDialect> for Flags<NoteDialectsKind> {
    open spec fn obeys_from_spec() -> bool {
        true
    }

    open spec fn from_spec(d: NoteDialect) -> Self {
        Flags::<NoteDialectsKind>::from_known_bits_spec(d.spec_to_raw())
    }
}

/// The set made of one dialect supports that dialect, and no other.
pub proof fn lemma_dialect_set_supports(d: NoteDialect, e: NoteDialect)
    ensures
        (d.spec_to_raw() & e.spec_to_raw() == e.spec_to_raw()) <==> d == e,
{
    assert(1u32 & 2u32 != 2u32 && 1u32 & 4u32 != 4u32 && 1u32 & 8u32 != 8u32 && 2u32 & 1u32 != 1u32
        && 2u32 & 4u32 != 4u32 && 2u32 & 8u32 != 8u32 && 4u32 & 1u32 != 1u32 && 4u32 & 2u32 != 2u32
        && 4u32 & 8u32 != 8u32 && 8u32 & 1u32 != 1u32 && 8u32 & 2u32 != 2u32 && 8u32 & 4u32 != 4u32
        && 1u32 & 1u32 == 1u32 && 2u32 & 2u32 == 2u32 && 4u32 & 4u32 == 4u32 && 8u32 & 8u32
        == 8u32) by (bit_vector);
}

/// The C-compatible description of a note port.
#[allow(non_camel_case_types)]
#[derive(Copy, Clone, Debug)]
pub struct clap_note_port_info {
    pub id: u32,
    pub supported_dialects: u32,
    pub preferred_dialect: u32,
    pub name: [u8; CLAP_NAME_SIZE],
}

/// The abstract value of a raw note port description.
pub struct RawNotePortInfoView {
    pub id: u32,
    pub supported_dialects: u32,
    pub preferred_dialect: u32,
    pub name: Seq<u8>,
}

impl View for clap_note_port_info {
    type V = RawNotePortInfoView;

    open spec fn view(&self) -> RawNotePortInfoView {
        RawNotePortInfoView {
            id: self.id,
            supported_dialects: self.supported_dialects,
            preferred_dialect: self.preferred_dialect,
            name: self.name@,
        }
    }
}

/// The description of a note port.
#[derive(Clone, Debug)]
pub struct NotePortInfo {
    /// The stable identifier of the port.
    pub id: ClapId,
    /// The name shown to the user.
    pub name: Vec<u8>,
    /// The dialects the port supports.
    pub supported_dialects: NoteDialects,
    /// The dialect the port prefers, if any.
    pub preferred_dialect: Option<NoteDialect>,
}

/// The abstract value of a note port description.
pub struct NotePortInfoView {
    pub id: ClapId,
    pub name: Seq<u8>,
    pub supported_dialects: u32,
    pub preferred_dialect: Option<NoteDialect>,
}

impl View for NotePortInfo {
    type V = NotePortInfoView;

    open spec fn view(&self) -> NotePortInfoView {
        NotePortInfoView {
            id: self.id,
            name: self.name@,
            supported_dialects: self.supported_dialects.spec_bits(),
            preferred_dialect: self.preferred_dialect,
        }
    }
}

/// The abstract value of an optional note port description.
pub open spec fn opt_note_port_info_view(i: Option<NotePortInfo>) -> Option<NotePortInfoView> {
    match i {
        Some(i) => Some(i@),
        None => None,
    }
}

/// The description that a raw record stands for, if its identifier is valid.
pub open spec fn spec_note_port_info_from_raw(raw: RawNotePortInfoView) -> Option<NotePortInfoView> {
    if raw.id == CLAP_INVALID_ID {
        None
    } else {
        Some(
            NotePortInfoView {
                id: ClapId::new_spec(raw.id),
                name: stored_data(raw.name),
                supported_dialects: raw.supported_dialects & 0xfu32,
                preferred_dialect: NoteDialect::spec_from_raw(raw.preferred_dialect),
            },
        )
    }
}

/// The raw record that writing a description into `old` leaves; no preferred dialect is written
/// as zero.
pub open spec fn spec_note_port_info_written(
    old: RawNotePortInfoView,
    data: NotePortInfoView,
) -> RawNotePortInfoView {
    RawNotePortInfoView {
        id: data.id.value(),
        name: written_buf(old.name, data.name),
        supported_dialects: data.supported_dialects,
        preferred_dialect: match data.preferred_dialect {
            Some(d) => d.spec_to_raw(),
            None => 0,
        },
    }
}

impl NotePortInfo {
    /// Returns the description that a raw record stands for, or `None` if its identifier is
    /// invalid. Unknown dialect bits are dropped, and an unknown preferred dialect gives none.
    pub fn from_raw(raw: &clap_note_port_info) -> (info: Option<NotePortInfo>)
        ensures
            opt_note_port_info_view(info) == spec_note_port_info_from_raw(raw@),
    {
        let id = ClapId::from_raw(raw.id)?;
        Some(
            NotePortInfo {
                id,
                name: data_from_array_buf(&raw.name),
                supported_dialects: NoteDialects::from_bits_truncate(raw.supported_dialects),
                preferred_dialect: NoteDialect::from_raw(raw.preferred_dialect),
            },
        )
    }
}

/// Writes the description of a note port into a raw record that a host provided.
pub struct NotePortInfoWriter {
    buf: clap_note_port_info,
    is_set: bool,
}

impl NotePortInfoWriter {
    /// The record as it currently stands.
    pub closed spec fn spec_buf(&self) -> RawNotePortInfoView {
        self.buf@
    }

    /// Whether a description was written.
    pub closed spec fn spec_is_set(&self) -> bool {
        self.is_set
    }

    /// Creates a writer over the given record; nothing is written yet.
    pub fn from_raw(raw: clap_note_port_info) -> (w: NotePortInfoWriter)
        ensures
            w.spec_buf() == raw@,
            !w.spec_is_set(),
    {
        NotePortInfoWriter { buf: raw, is_set: false }
    }

    /// Writes the given description into the record.
    pub fn set(&mut self, info: &NotePortInfo)
        ensures
            final(self).spec_buf() == spec_note_port_info_written(old(self).spec_buf(), info@),
            final(self).spec_is_set(),
    {
        self.buf.id = info.id.get();
        write_to_array_buf(&mut self.buf.name, info.name.as_slice());
        self.buf.supported_dialects = info.supported_dialects.bits();
        self.buf.preferred_dialect = match info.preferred_dialect {
            Some(d) => d.to_raw(),
            None => 0,
        };
        self.is_set = true;
    }

    /// Returns the record and whether a description was written into it.
    pub fn finish(self) -> (res: (clap_note_port_info, bool))
        ensures
            res.0@ == self.spec_buf(),
            res.1 == self.spec_is_set(),
    {
        (self.buf, self.is_set)
    }
}

/// Whether a note port description survives being written into a raw record and read back: its
/// identifier is valid, its dialects are known ones, and its name is nul-free and fits.
pub open spec fn note_port_info_fits_raw(data: NotePortInfoView) -> bool {
    &&& data.id.wf()
    &&& data.supported_dialects & !0xfu32 == 0
    &&& is_nul_free(data.name)
    &&& data.name.len() < CLAP_NAME_SIZE
}

/// Reading back a raw record that a note port description was written into gives the same
/// description.
pub proof fn lemma_note_port_info_roundtrip(old: RawNotePortInfoView, data: NotePortInfoView)
    requires
        old.name.len() == CLAP_NAME_SIZE,
        note_port_info_fits_raw(data),
    ensures
        spec_note_port_info_from_raw(spec_note_port_info_written(old, data)) == Some(data),
{
    lemma_written_buf_stored_data(old.name, data.name);
    assert(data.name.take(kept_len(old.name.len(), data.name)) =~= data.name);
    ClapId::lemma_new_spec_value(data.id);
    let f = data.supported_dialects;
    assert(f & !0xfu32 == 0 ==> f & 0xfu32 == f) by (bit_vector);
}

/// Implementation of the host side of the Note Ports extension.
pub trait HostNotePortsImpl {
    /// Returns the note dialects the host supports.
    fn supported_dialects(&self) -> NoteDialects;

    /// Scans the note ports again, as the flags say.
    fn rescan(&mut self, flags: NotePortRescanFlags);
}

/// Implementation of the plugin side of the Note Ports extension.
pub trait PluginNotePortsImpl {
    /// Returns the number of note ports, for either input or output.
    fn count(&mut self, is_input: bool) -> u32;

    /// Writes the description of the note port at the given index into the given writer.
    fn get(&mut self, index: u32, is_input: bool, writer: &mut NotePortInfoWriter);
}

} // verus!
