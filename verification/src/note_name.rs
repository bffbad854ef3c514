//! Custom note names that plugins list for hosts to show, for instance in a piano roll.

use crate::audio_ports::CLAP_NAME_SIZE;
use crate::common::{Match, match_fits_raw, lemma_match_raw_roundtrip};
use crate::utils::{
    data_from_array_buf, is_nul_free, kept_len, lemma_written_buf_stored_data, stored_data,
    write_to_array_buf, written_buf,
};
use vstd::prelude::*;

verus! {

/// The C-compatible record of a note name.
#[allow(non_camel_case_types)]
#[derive(Copy, Clone, Debug)]
pub struct clap_note_name {
    pub name: [u8; CLAP_NAME_SIZE],
    pub port: i16,
    pub key: i16,
    pub channel: i16,
}

/// The abstract value of a raw note name record.
pub struct RawNoteNameView {
    pub name: Seq<u8>,
    pub port: i16,
    pub key: i16,
    pub channel: i16,
}

impl View for clap_note_name {
    type V = RawNoteNameView;

    open spec fn view(&self) -> RawNoteNameView {
        RawNoteNameView { name: self.name@, port: self.port, key: self.key, channel: self.channel }
    }
}

/// The name of a note, and the port, channel and key it applies to.
#[derive(Clone, Debug)]
pub struct NoteName {
    /// The name shown to the user.
    pub name: Vec<u8>,
    /// The port this name applies to.
    pub port: Match<u16>,
    /// The MIDI channel this name applies to.
    pub channel: Match<u16>,
    /// The key this name applies to.
    pub key: Match<u16>,
}

/// The abstract value of a note name.
pub struct NoteNameView {
    pub name: Seq<u8>,
    pub port: Match<u16>,
    pub channel: Match<u16>,
    pub key: Match<u16>,
}

impl View for NoteName {
    type V = NoteNameView;

    open spec fn view(&self) -> NoteNameView {
        NoteNameView { name: self.name@, port: self.port, channel: self.channel, key: self.key }
    }
}

/// The note name that a raw record stands for.
pub open spec fn spec_note_name_from_raw(raw: RawNoteNameView) -> NoteNameView {
    NoteNameView {
        name: stored_data(raw.name),
        port: Match::<u16>::spec_from_raw(raw.port),
        channel: Match::<u16>::spec_from_raw(raw.channel),
        key: Match::<u16>::spec_from_raw(raw.key),
    }
}

/// The raw record that writing a note name into `old` leaves.
pub open spec fn spec_note_name_written(old: RawNoteNameView, data: NoteNameView) -> RawNoteNameView {
    RawNoteNameView {
        name: written_buf(old.name, data.name),
        port: data.port.spec_to_raw(),
        key: data.key.spec_to_raw(),
        channel: data.channel.spec_to_raw(),
    }
}

impl NoteName {
    /// Returns the note name that a raw record stands for.
    pub fn from_raw(raw: &clap_note_name) -> (n: NoteName)
        ensures
            n@ == spec_note_name_from_raw(raw@),
    {
        NoteName {
            name: data_from_array_buf(&raw.name),
            port: Match::<u16>::from_raw(raw.port),
            channel: Match::<u16>::from_raw(raw.channel),
            key: Match::<u16>::from_raw(raw.key),
        }
    }

    /// Returns a new raw record that holds this note name; the bytes of the name buffer after
    /// the nul terminator are zero.
    pub fn to_raw(&self) -> (raw: clap_note_name)
        ensures
            raw@ == spec_note_name_written(
                RawNoteNameView { name: Seq::new(CLAP_NAME_SIZE as nat, |i: int| 0u8), port: 0, key: 0, channel: 0 },
                self@,
            ),
    {
        let mut name = [0u8; CLAP_NAME_SIZE];
        assert(name@ =~= Seq::new(CLAP_NAME_SIZE as nat, |i: int| 0u8));
        write_to_array_buf(&mut name, self.name.as_slice());
        clap_note_name {
            name,
            port: self.port.to_raw(),
            channel: self.channel.to_raw(),
            key: self.key.to_raw(),
        }
    }
}

/// Writes a note name into a raw record that a host provided.
pub struct NoteNameWriter {
    buf: clap_note_name,
    is_set: bool,
}

impl NoteNameWriter {
    /// The record as it currently stands.
    pub closed spec fn spec_buf(&self) -> RawNoteNameView {
        self.buf@
    }

    /// Whether a note name was written.
    pub closed spec fn spec_is_set(&self) -> bool {
        self.is_set
    }

    /// Creates a writer over the given record; nothing is written yet.
    pub fn from_raw(raw: clap_note_name) -> (w: NoteNameWriter)
        ensures
            w.spec_buf() == raw@,
            !w.spec_is_set(),
    {
        NoteNameWriter { buf: raw, is_set: false }
    }

    /// Writes the given note name into the record.
    pub fn write(&mut self, data: &NoteName)
        ensures
            final(self).spec_buf() == spec_note_name_written(old(self).spec_buf(), data@),
            final(self).spec_is_set(),
    {
        write_to_array_buf(&mut self.buf.name, data.name.as_slice());
        self.buf.port = data.port.to_raw();
        self.buf.channel = data.channel.to_raw();
        self.buf.key = data.key.to_raw();
        self.is_set = true;
    }

    /// Returns the record and whether a note name was written into it.
    pub fn finish(self) -> (res: (clap_note_name, bool))
        ensures
            res.0@ == self.spec_buf(),
            res.1 == self.spec_is_set(),
    {
        (self.buf, self.is_set)
    }
}

/// Whether a note name survives being written into a raw record and read back: its name is
/// nul-free and fits the name buffer, and each matcher fits the raw range.
pub open spec fn note_name_fits_raw(data: NoteNameView) -> bool {
    &&& is_nul_free(data.name)
    &&& data.name.len() < CLAP_NAME_SIZE
    &&& match_fits_raw(data.port)
    &&& match_fits_raw(data.channel)
    &&& match_fits_raw(data.key)
}

/// Reading back a raw record that a note name was written into gives the same note name.
pub proof fn lemma_note_name_roundtrip(old: RawNoteNameView, data: NoteNameView)
    requires
        old.name.len() == CLAP_NAME_SIZE,
        note_name_fits_raw(data),
    ensures
        spec_note_name_from_raw(spec_note_name_written(old, data)) == data,
{
    lemma_written_buf_stored_data(old.name, data.name);
    assert(data.name.take(kept_len(old.name.len(), data.name)) =~= data.name);
    lemma_match_raw_roundtrip(data.port);
    lemma_match_raw_roundtrip(data.channel);
    lemma_match_raw_roundtrip(data.key);
}

/// Implementation of the host side of the Note Name extension.
pub trait HostNoteNameImpl {
    /// Informs the host that the list of note names changed and needs to be scanned again.
    fn changed(&mut self);
}

/// Implementation of the plugin side of the Note Name extension.
pub trait PluginNoteNameImpl {
    /// Returns the number of available note names.
    fn count(&mut self) -> usize;

    /// Writes the note name at the given index into the given writer.
    fn get(&mut self, index: usize, writer: &mut NoteNameWriter);
}

} // verus!
