use clack_extensions::audio_ports::{
    AudioPortFlags, RescanType, CLAP_AUDIO_PORTS_RESCAN_CHANNEL_COUNT, CLAP_AUDIO_PORTS_RESCAN_FLAGS,
    CLAP_AUDIO_PORTS_RESCAN_IN_PLACE_PAIR, CLAP_AUDIO_PORTS_RESCAN_LIST, CLAP_AUDIO_PORTS_RESCAN_NAMES,
    CLAP_AUDIO_PORTS_RESCAN_PORT_TYPE, CLAP_AUDIO_PORT_IS_MAIN, CLAP_AUDIO_PORT_PREFERS_64BITS,
    CLAP_AUDIO_PORT_REQUIRES_COMMON_SAMPLE_SIZE, CLAP_AUDIO_PORT_SUPPORTS_64BITS,
};
use clack_extensions::clap_wrapper::vst3::{
    num_midi_channels_reply, supported_note_expressions_reply, SupportedNoteExpressions,
};
use clack_extensions::note_ports::{
    NoteDialect, NoteDialects, NotePortRescanFlags, CLAP_NOTE_DIALECT_CLAP, CLAP_NOTE_DIALECT_MIDI,
    CLAP_NOTE_DIALECT_MIDI2, CLAP_NOTE_DIALECT_MIDI_MPE, CLAP_NOTE_PORTS_RESCAN_ALL,
    CLAP_NOTE_PORTS_RESCAN_NAMES,
};
use clack_extensions::params::{
    ParamClearFlags, ParamInfoFlags, ParamRescanFlags, CLAP_PARAM_CLEAR_ALL,
    CLAP_PARAM_CLEAR_AUTOMATIONS, CLAP_PARAM_CLEAR_MODULATIONS, CLAP_PARAM_IS_AUTOMATABLE,
    CLAP_PARAM_IS_BYPASS, CLAP_PARAM_IS_ENUM, CLAP_PARAM_IS_HIDDEN, CLAP_PARAM_IS_MODULATABLE_PER_PORT,
    CLAP_PARAM_IS_PERIODIC, CLAP_PARAM_IS_READONLY, CLAP_PARAM_IS_STEPPED, CLAP_PARAM_REQUIRES_PROCESS,
    CLAP_PARAM_RESCAN_ALL, CLAP_PARAM_RESCAN_INFO, CLAP_PARAM_RESCAN_TEXT, CLAP_PARAM_RESCAN_VALUES,
};
use clap_sys::ext::audio_ports as sys_ports;
use clap_sys::ext::note_ports as sys_notes;
use clap_sys::ext::params as sys_params;
use clap_sys::ext::posix_fd_support as sys_fd;
use clack_extensions::posix_fd::{FdFlags, CLAP_POSIX_FD_ERROR, CLAP_POSIX_FD_READ, CLAP_POSIX_FD_WRITE};

#[test]
fn flag_constants_match_clap_sys() {
    assert_eq!(CLAP_AUDIO_PORTS_RESCAN_NAMES, sys_ports::CLAP_AUDIO_PORTS_RESCAN_NAMES);
    assert_eq!(CLAP_AUDIO_PORTS_RESCAN_FLAGS, sys_ports::CLAP_AUDIO_PORTS_RESCAN_FLAGS);
    assert_eq!(CLAP_AUDIO_PORTS_RESCAN_CHANNEL_COUNT, sys_ports::CLAP_AUDIO_PORTS_RESCAN_CHANNEL_COUNT);
    assert_eq!(CLAP_AUDIO_PORTS_RESCAN_PORT_TYPE, sys_ports::CLAP_AUDIO_PORTS_RESCAN_PORT_TYPE);
    assert_eq!(CLAP_AUDIO_PORTS_RESCAN_IN_PLACE_PAIR, sys_ports::CLAP_AUDIO_PORTS_RESCAN_IN_PLACE_PAIR);
    assert_eq!(CLAP_AUDIO_PORTS_RESCAN_LIST, sys_ports::CLAP_AUDIO_PORTS_RESCAN_LIST);
    assert_eq!(CLAP_AUDIO_PORT_IS_MAIN, sys_ports::CLAP_AUDIO_PORT_IS_MAIN);
    assert_eq!(CLAP_AUDIO_PORT_SUPPORTS_64BITS, sys_ports::CLAP_AUDIO_PORT_SUPPORTS_64BITS);
    assert_eq!(CLAP_AUDIO_PORT_PREFERS_64BITS, sys_ports::CLAP_AUDIO_PORT_PREFERS_64BITS);
    assert_eq!(
        CLAP_AUDIO_PORT_REQUIRES_COMMON_SAMPLE_SIZE,
        sys_ports::CLAP_AUDIO_PORT_REQUIRES_COMMON_SAMPLE_SIZE
    );

    assert_eq!(CLAP_NOTE_DIALECT_CLAP, sys_notes::CLAP_NOTE_DIALECT_CLAP);
    assert_eq!(CLAP_NOTE_DIALECT_MIDI, sys_notes::CLAP_NOTE_DIALECT_MIDI);
    assert_eq!(CLAP_NOTE_DIALECT_MIDI_MPE, sys_notes::CLAP_NOTE_DIALECT_MIDI_MPE);
    assert_eq!(CLAP_NOTE_DIALECT_MIDI2, sys_notes::CLAP_NOTE_DIALECT_MIDI2);
    assert_eq!(CLAP_NOTE_PORTS_RESCAN_ALL, sys_notes::CLAP_NOTE_PORTS_RESCAN_ALL);
    assert_eq!(CLAP_NOTE_PORTS_RESCAN_NAMES, sys_notes::CLAP_NOTE_PORTS_RESCAN_NAMES);

    assert_eq!(CLAP_PARAM_RESCAN_VALUES, sys_params::CLAP_PARAM_RESCAN_VALUES);
    assert_eq!(CLAP_PARAM_RESCAN_TEXT, sys_params::CLAP_PARAM_RESCAN_TEXT);
    assert_eq!(CLAP_PARAM_RESCAN_INFO, sys_params::CLAP_PARAM_RESCAN_INFO);
    assert_eq!(CLAP_PARAM_RESCAN_ALL, sys_params::CLAP_PARAM_RESCAN_ALL);
    assert_eq!(CLAP_PARAM_CLEAR_ALL, sys_params::CLAP_PARAM_CLEAR_ALL);
    assert_eq!(CLAP_PARAM_CLEAR_AUTOMATIONS, sys_params::CLAP_PARAM_CLEAR_AUTOMATIONS);
    assert_eq!(CLAP_PARAM_CLEAR_MODULATIONS, sys_params::CLAP_PARAM_CLEAR_MODULATIONS);
    assert_eq!(CLAP_PARAM_IS_STEPPED, sys_params::CLAP_PARAM_IS_STEPPED);
    assert_eq!(CLAP_PARAM_IS_PERIODIC, sys_params::CLAP_PARAM_IS_PERIODIC);
    assert_eq!(CLAP_PARAM_IS_HIDDEN, sys_params::CLAP_PARAM_IS_HIDDEN);
    assert_eq!(CLAP_PARAM_IS_READONLY, sys_params::CLAP_PARAM_IS_READONLY);
    assert_eq!(CLAP_PARAM_IS_BYPASS, sys_params::CLAP_PARAM_IS_BYPASS);
    assert_eq!(CLAP_PARAM_IS_AUTOMATABLE, sys_params::CLAP_PARAM_IS_AUTOMATABLE);
    assert_eq!(CLAP_PARAM_IS_MODULATABLE_PER_PORT, sys_params::CLAP_PARAM_IS_MODULATABLE_PER_PORT);
    assert_eq!(CLAP_PARAM_REQUIRES_PROCESS, sys_params::CLAP_PARAM_REQUIRES_PROCESS);
    assert_eq!(CLAP_PARAM_IS_ENUM, sys_params::CLAP_PARAM_IS_ENUM);

    assert_eq!(CLAP_POSIX_FD_READ, sys_fd::CLAP_POSIX_FD_READ);
    assert_eq!(CLAP_POSIX_FD_WRITE, sys_fd::CLAP_POSIX_FD_WRITE);
    assert_eq!(CLAP_POSIX_FD_ERROR, sys_fd::CLAP_POSIX_FD_ERROR);
}

#[test]
fn from_bits_truncate_drops_unknown_bits() {
    assert_eq!(FdFlags::from_bits_truncate(0xff).bits(), 7);
    assert_eq!(RescanType::from_bits_truncate(0xffff_ffff).bits(), 0x3f);
    assert_eq!(AudioPortFlags::from_bits_truncate(0x1f).bits(), 0xf);
    assert_eq!(NoteDialects::from_bits_truncate(0x10).bits(), 0);
    assert_eq!(NotePortRescanFlags::from_bits_truncate(7).bits(), 3);
    assert_eq!(ParamRescanFlags::from_bits_truncate(0x13).bits(), 3);
    assert_eq!(ParamClearFlags::from_bits_truncate(0xf).bits(), 7);
    assert_eq!(ParamInfoFlags::from_bits_truncate(0xfffe_0001).bits(), 1);
    assert_eq!(SupportedNoteExpressions::from_bits_truncate(0xff).bits(), 0x7f);
}

#[test]
fn flag_set_operations() {
    let rw = FdFlags::read().union(FdFlags::write());
    assert_eq!(rw.bits(), 3);
    assert!(rw.contains(FdFlags::read()));
    assert!(rw.contains(FdFlags::write()));
    assert!(!rw.contains(FdFlags::error()));
    assert!(rw.intersects(FdFlags::write()));
    assert!(!rw.intersects(FdFlags::error()));
    assert_eq!(rw.intersection(FdFlags::write()), FdFlags::write());
    assert!(rw.intersection(FdFlags::error()).is_empty());
    assert!(FdFlags::empty().is_empty());
    assert!(!rw.is_empty());
    assert!(rw.contains(FdFlags::empty()));
    assert_ne!(rw, FdFlags::read());
}

#[test]
fn audio_rescan_requires_deactivate_unless_only_names() {
    assert!(!RescanType::empty().requires_deactivate());
    assert!(!RescanType::names().requires_deactivate());
    assert!(RescanType::flags().requires_deactivate());
    assert!(RescanType::channel_count().requires_deactivate());
    assert!(RescanType::port_type().requires_deactivate());
    assert!(RescanType::in_place_pair().requires_deactivate());
    assert!(RescanType::list().requires_deactivate());
    assert!(RescanType::names().union(RescanType::list()).requires_deactivate());
}

#[test]
fn param_rescan_requires_restart_only_with_all() {
    assert!(ParamRescanFlags::all().requires_restart());
    assert!(!ParamRescanFlags::values().requires_restart());
    assert!(!ParamRescanFlags::text().union(ParamRescanFlags::info()).requires_restart());
    assert!(ParamRescanFlags::info().union(ParamRescanFlags::all()).requires_restart());
    assert!(!ParamRescanFlags::empty().requires_restart());
}

#[test]
fn param_flag_families() {
    assert_eq!(ParamClearFlags::all().bits(), 1);
    assert_eq!(ParamClearFlags::automations().bits(), 2);
    assert_eq!(ParamClearFlags::modulations().bits(), 4);
    assert_eq!(
        ParamInfoFlags::flags_requiring_info_rescan().bits(),
        CLAP_PARAM_IS_PERIODIC | CLAP_PARAM_IS_HIDDEN
    );
    let full = ParamInfoFlags::flags_requiring_full_rescan().bits();
    assert_eq!(full, 0x7ff9);
    assert_eq!(full & CLAP_PARAM_IS_STEPPED, CLAP_PARAM_IS_STEPPED);
    assert_eq!(full & CLAP_PARAM_IS_HIDDEN, 0);
    assert_eq!(full & CLAP_PARAM_REQUIRES_PROCESS, 0);
}

#[test]
fn note_port_rescan_flags() {
    assert_eq!(NotePortRescanFlags::all().bits(), CLAP_NOTE_PORTS_RESCAN_ALL);
    assert_eq!(NotePortRescanFlags::names().bits(), CLAP_NOTE_PORTS_RESCAN_NAMES);
}

#[test]
fn dialect_sets_support_their_dialects() {
    let dialects = [NoteDialect::Clap, NoteDialect::Midi, NoteDialect::MidiMpe, NoteDialect::Midi2];
    for d in dialects {
        for e in dialects {
            assert_eq!(NoteDialects::from_dialect(d).supports(e), d == e);
        }
    }
    let both = NoteDialects::from_dialect(NoteDialect::Clap).union(NoteDialects::from_dialect(NoteDialect::Midi2));
    assert!(both.supports(NoteDialect::Clap));
    assert!(both.supports(NoteDialect::Midi2));
    assert!(!both.supports(NoteDialect::Midi));
}

#[test]
fn note_expression_flags() {
    assert_eq!(SupportedNoteExpressions::volume().bits(), 1);
    assert_eq!(SupportedNoteExpressions::pan().bits(), 2);
    assert_eq!(SupportedNoteExpressions::tuning().bits(), 4);
    assert_eq!(SupportedNoteExpressions::vibrato().bits(), 8);
    assert_eq!(SupportedNoteExpressions::expression().bits(), 16);
    assert_eq!(SupportedNoteExpressions::brightness().bits(), 32);
    assert_eq!(SupportedNoteExpressions::pressure().bits(), 64);
}

#[test]
fn vst3_host_replies() {
    assert_eq!(num_midi_channels_reply(None), 0);
    assert_eq!(num_midi_channels_reply(Some(16)), 16);
    assert!(supported_note_expressions_reply(None).is_empty());
    assert_eq!(supported_note_expressions_reply(Some(0xf3)).bits(), 0x73);
}

#[test]
fn dialect_set_from_a_dialect() {
    let f: NoteDialects = NoteDialect::MidiMpe.into();
    assert_eq!(f.bits(), CLAP_NOTE_DIALECT_MIDI_MPE);
    assert_eq!(NoteDialects::from(NoteDialect::Clap), NoteDialects::from_dialect(NoteDialect::Clap));
}

#[test]
fn more_flag_set_operations() {
    assert_eq!(FdFlags::all_flags().bits(), 7);
    assert!(FdFlags::all_flags().is_all());
    assert!(!FdFlags::read().is_all());
    assert_eq!(FdFlags::from_bits(3).map(|f| f.bits()), Some(3));
    assert!(FdFlags::from_bits(8).is_none());
    let rw = FdFlags::read().union(FdFlags::write());
    assert_eq!(rw.difference(FdFlags::read()), FdFlags::write());
    assert_eq!(rw.symmetric_difference(FdFlags::all_flags()), FdFlags::error());
    assert_eq!(rw.complement(), FdFlags::error());
    let mut f = FdFlags::empty();
    f.insert(FdFlags::read());
    f.insert(FdFlags::error());
    assert_eq!(f.bits(), 5);
    f.remove(FdFlags::read());
    assert_eq!(f, FdFlags::error());
    f.toggle(rw);
    assert!(f.is_all());
    f.set(FdFlags::write(), false);
    assert_eq!(f.bits(), 5);
    f.set(FdFlags::write(), true);
    assert!(f.is_all());
}
