use clack_extensions::params::value_to_text_call;
use clack_extensions::audio_ports::CLAP_NAME_SIZE;
use clack_extensions::common::{ClapId, Cookie};
use clack_extensions::params::{
    cleared_display_buffer, value_to_text_answer, value_to_text_reply, clap_param_info, display_text, f64_bits_equal, handle_clear, handle_get_value,
    handle_text_to_value, handle_value_to_text, HostParamsImplMainThread, ParamClearFlags,
    ParamDisplayWriter, ParamInfo, ParamInfoFlags, ParamInfoWriter, ParamRescanFlags,
    PluginMainThreadParams, CLAP_PARAM_IS_AUTOMATABLE, CLAP_PARAM_IS_HIDDEN, CLAP_PARAM_IS_STEPPED,
    CLAP_PARAM_REQUIRES_PROCESS, CLAP_PARAM_RESCAN_ALL, CLAP_PARAM_RESCAN_INFO, CLAP_PATH_SIZE,
};

fn blank_param_info() -> clap_param_info {
    clap_param_info {
        id: 0,
        flags: 0,
        cookie: 0,
        name: [0x11; CLAP_NAME_SIZE],
        module: [0x22; CLAP_PATH_SIZE],
        min_value: 0,
        max_value: 0,
        default_value: 0,
    }
}

fn gain() -> ParamInfo {
    ParamInfo {
        id: ClapId::new(1),
        flags: ParamInfoFlags::from_bits_truncate(CLAP_PARAM_IS_AUTOMATABLE),
        cookie: Cookie::empty(),
        name: b"Gain".to_vec(),
        module: b"Main/Output".to_vec(),
        min_value: 0.0f64.to_bits(),
        max_value: 2.0f64.to_bits(),
        default_value: 1.0f64.to_bits(),
    }
}

#[test]
fn param_info_write_then_read() {
    let info = gain();
    let mut writer = ParamInfoWriter::new(blank_param_info());
    writer.set(&info);
    let (raw, is_set) = writer.finish();
    assert!(is_set);
    assert_eq!(f64::from_bits(raw.max_value), 2.0);
    let back = ParamInfo::from_raw(&raw).unwrap();
    assert_eq!(back.id, info.id);
    assert_eq!(back.flags, info.flags);
    assert_eq!(back.cookie, info.cookie);
    assert_eq!(back.name, info.name);
    assert_eq!(back.module, info.module);
    assert_eq!(back.min_value, info.min_value);
    assert_eq!(back.max_value, info.max_value);
    assert_eq!(back.default_value, info.default_value);
}

#[test]
fn param_info_writer_untouched() {
    let (raw, is_set) = ParamInfoWriter::new(blank_param_info()).finish();
    assert!(!is_set);
    assert_eq!(raw.name, [0x11; CLAP_NAME_SIZE]);
}

#[test]
fn param_info_from_odd_records() {
    let mut raw = blank_param_info();
    raw.id = u32::MAX;
    assert!(ParamInfo::from_raw(&raw).is_none());

    let mut raw = blank_param_info();
    raw.flags = 0xffff_ffff;
    let info = ParamInfo::from_raw(&raw).unwrap();
    assert_eq!(info.flags.bits(), 0x1ffff);
    assert_eq!(info.name, vec![0x11; CLAP_NAME_SIZE]);
    assert_eq!(info.module, vec![0x22; CLAP_PATH_SIZE]);
}

#[test]
fn diff_for_rescan_of_identical_descriptions_is_empty() {
    assert!(gain().diff_for_rescan(&gain()).is_empty());
}

#[test]
fn diff_for_rescan_of_renamed_parameter_asks_for_info() {
    let mut renamed = gain();
    renamed.name = b"Volume".to_vec();
    assert_eq!(gain().diff_for_rescan(&renamed).bits(), CLAP_PARAM_RESCAN_INFO);

    let mut moved = gain();
    moved.module = b"Main".to_vec();
    assert_eq!(gain().diff_for_rescan(&moved).bits(), CLAP_PARAM_RESCAN_INFO);

    let mut hidden = gain();
    hidden.flags = hidden.flags.union(ParamInfoFlags::from_bits_truncate(CLAP_PARAM_IS_HIDDEN));
    assert_eq!(gain().diff_for_rescan(&hidden).bits(), CLAP_PARAM_RESCAN_INFO);
}

#[test]
fn diff_for_rescan_of_new_range_asks_for_all() {
    let mut wider = gain();
    wider.max_value = 4.0f64.to_bits();
    assert_eq!(gain().diff_for_rescan(&wider).bits(), CLAP_PARAM_RESCAN_ALL);

    let mut stepped = gain();
    stepped.flags = stepped.flags.union(ParamInfoFlags::from_bits_truncate(CLAP_PARAM_IS_STEPPED));
    assert_eq!(gain().diff_for_rescan(&stepped).bits(), CLAP_PARAM_RESCAN_ALL);

    let mut other_cookie = gain();
    other_cookie.cookie = Cookie::from_raw(8);
    assert_eq!(gain().diff_for_rescan(&other_cookie).bits(), CLAP_PARAM_RESCAN_ALL);

    let mut both = wider;
    both.name = b"Volume".to_vec();
    assert_eq!(gain().diff_for_rescan(&both).bits(), CLAP_PARAM_RESCAN_ALL | CLAP_PARAM_RESCAN_INFO);
    assert!(gain().diff_for_rescan(&both).requires_restart());
}

#[test]
fn diff_for_rescan_ignores_unrelated_changes() {
    let mut other = gain();
    other.default_value = 0.5f64.to_bits();
    other.flags = other.flags.union(ParamInfoFlags::from_bits_truncate(CLAP_PARAM_REQUIRES_PROCESS));
    assert!(gain().diff_for_rescan(&other).is_empty());
}

#[test]
fn diff_for_rescan_is_symmetric() {
    let mut other = gain();
    other.name = b"Volume".to_vec();
    other.min_value = (-1.0f64).to_bits();
    assert_eq!(gain().diff_for_rescan(&other), other.diff_for_rescan(&gain()));
}

#[test]
fn diff_for_rescan_compares_values_as_floats() {
    let mut zero = gain();
    zero.min_value = 0.0f64.to_bits();
    let mut minus_zero = gain();
    minus_zero.min_value = (-0.0f64).to_bits();
    assert!(zero.diff_for_rescan(&minus_zero).is_empty());

    let mut nan = gain();
    nan.min_value = f64::NAN.to_bits();
    assert_eq!(nan.diff_for_rescan(&nan.clone()).bits(), CLAP_PARAM_RESCAN_ALL);
}

#[test]
fn f64_bits_equal_agrees_with_float_equality() {
    let values = [
        0.0f64,
        -0.0,
        1.0,
        -1.0,
        0.1,
        f64::MIN_POSITIVE,
        f64::MAX,
        f64::INFINITY,
        f64::NEG_INFINITY,
        f64::NAN,
        -f64::NAN,
        f64::from_bits(0x7ff0_0000_0000_0001),
    ];
    for a in values {
        for b in values {
            assert_eq!(f64_bits_equal(a.to_bits(), b.to_bits()), a == b, "{a} == {b}");
        }
    }
}

#[test]
fn display_writer_truncates_and_terminates() {
    let mut writer = ParamDisplayWriter::new(vec![0xff; 6]);
    assert_eq!(writer.len(), 5);
    assert_eq!(writer.remaining_len(), 5);
    assert_eq!(writer.write_str("12"), Ok(()));
    assert_eq!(writer.remaining_len(), 3);
    assert_eq!(writer.write_str(".5 dB"), Ok(()));
    assert_eq!(writer.remaining_len(), 0);
    assert_eq!(writer.write_str("more"), Ok(()));
    let (written, buffer) = writer.finish();
    assert!(written);
    assert_eq!(buffer, b"12.5 \0".to_vec());
    assert_eq!(display_text(&buffer), b"12.5 ".to_vec());
}

#[test]
fn display_writer_with_nothing_written() {
    let (written, buffer) = ParamDisplayWriter::new(vec![7; 4]).finish();
    assert!(!written);
    assert_eq!(buffer, vec![7; 4]);

    let mut empty = ParamDisplayWriter::new(Vec::new());
    assert_eq!(empty.len(), 0);
    assert_eq!(empty.remaining_len(), 0);
    assert_eq!(empty.write_str("x"), Ok(()));
    let (written, buffer) = empty.finish();
    assert!(!written);
    assert!(buffer.is_empty());
}

#[test]
fn display_text_reads_up_to_the_nul() {
    assert_eq!(display_text(b"-inf\0garbage"), b"-inf".to_vec());
    assert_eq!(display_text(b"no terminator"), b"no terminator".to_vec());
    assert_eq!(display_text(b""), Vec::<u8>::new());
    assert_eq!(display_text(b"\0"), Vec::<u8>::new());
}

struct GainPlugin {
    value: f64,
    calls: u32,
}

impl PluginMainThreadParams for GainPlugin {
    fn count(&mut self) -> u32 {
        1
    }

    fn get_info(&mut self, param_index: u32, info: &mut ParamInfoWriter) {
        if param_index == 0 {
            info.set(&gain());
        }
    }

    fn get_value(&mut self, param_id: ClapId) -> Option<u64> {
        self.calls += 1;
        if param_id.get() == 1 {
            Some(self.value.to_bits())
        } else {
            None
        }
    }

    fn value_to_text(&mut self, param_id: ClapId, value: u64, writer: &mut ParamDisplayWriter) -> Result<(), ()> {
        self.calls += 1;
        if param_id.get() != 1 {
            return Err(());
        }
        writer.write_str(&format!("{:.1}", f64::from_bits(value)))
    }

    fn text_to_value(&mut self, param_id: ClapId, text: &[u8]) -> Option<u64> {
        self.calls += 1;
        if param_id.get() != 1 {
            return None;
        }
        std::str::from_utf8(text).ok()?.parse::<f64>().ok().map(f64::to_bits)
    }
}

#[test]
fn get_value_refuses_invalid_ids() {
    let mut plugin = GainPlugin { value: 0.5, calls: 0 };
    assert_eq!(handle_get_value(&mut plugin, u32::MAX), None);
    assert_eq!(plugin.calls, 0);
    assert_eq!(handle_get_value(&mut plugin, 1), Some(0.5f64.to_bits()));
    assert_eq!(handle_get_value(&mut plugin, 2), None);
    assert_eq!(plugin.calls, 2);
}

#[test]
fn value_to_text_through_the_plugin() {
    let mut plugin = GainPlugin { value: 0.5, calls: 0 };
    let (ok, buffer) = handle_value_to_text(&mut plugin, 1, 0.5f64.to_bits(), vec![0xff; 8]);
    assert!(ok);
    assert_eq!(display_text(&buffer), b"0.5".to_vec());

    let (ok, buffer) = handle_value_to_text(&mut plugin, u32::MAX, 0.25f64.to_bits(), vec![0xff; 8]);
    assert!(!ok);
    assert_eq!(buffer, vec![0xff; 8]);
    assert_eq!(plugin.calls, 1);

    let (ok, buffer) = handle_value_to_text(&mut plugin, 2, 0.25f64.to_bits(), vec![0xff; 8]);
    assert!(!ok);
    assert_eq!(buffer, vec![0xff; 8]);
}

#[test]
fn text_to_value_through_the_plugin() {
    let mut plugin = GainPlugin { value: 0.5, calls: 0 };
    assert_eq!(handle_text_to_value(&mut plugin, 1, b"1.5"), Some(1.5f64.to_bits()));
    assert_eq!(handle_text_to_value(&mut plugin, 1, b"loud"), None);
    assert_eq!(handle_text_to_value(&mut plugin, u32::MAX, b"1.5"), None);
    assert_eq!(plugin.calls, 2);
}

#[test]
fn plugin_describes_its_parameter() {
    let mut plugin = GainPlugin { value: 0.5, calls: 0 };
    assert_eq!(plugin.count(), 1);
    let mut writer = ParamInfoWriter::new(blank_param_info());
    plugin.get_info(0, &mut writer);
    let (raw, is_set) = writer.finish();
    assert!(is_set);
    assert_eq!(ParamInfo::from_raw(&raw).unwrap().name, b"Gain".to_vec());
}

struct RecordingHost {
    cleared: Vec<(u32, u32)>,
    rescans: Vec<u32>,
}

impl HostParamsImplMainThread for RecordingHost {
    fn rescan(&mut self, flags: ParamRescanFlags) {
        self.rescans.push(flags.bits());
    }

    fn clear(&mut self, param_id: ClapId, flags: ParamClearFlags) {
        self.cleared.push((param_id.get(), flags.bits()));
    }
}

#[test]
fn clear_refuses_invalid_ids_and_drops_unknown_flags() {
    let mut host = RecordingHost { cleared: Vec::new(), rescans: Vec::new() };
    assert_eq!(handle_clear(&mut host, u32::MAX, 1), Err("Invalid param_id"));
    assert!(host.cleared.is_empty());
    assert_eq!(handle_clear(&mut host, 5, 0xff), Ok(()));
    assert_eq!(host.cleared, vec![(5, 7)]);
    host.rescan(ParamRescanFlags::values());
    assert_eq!(host.rescans, vec![1]);
}

#[test]
fn value_to_text_replies() {
    let mut writer = ParamDisplayWriter::new(vec![9; 5]);
    writer.write_str("ab").unwrap();
    assert_eq!(value_to_text_reply(Ok(()), writer), (true, vec![b'a', b'b', 0, 9, 9]));

    let mut writer = ParamDisplayWriter::new(vec![9; 5]);
    writer.write_str("ab").unwrap();
    assert_eq!(value_to_text_reply(Err(()), writer), (false, vec![b'a', b'b', 9, 9, 9]));

    let writer = ParamDisplayWriter::new(vec![9; 5]);
    assert_eq!(value_to_text_reply(Ok(()), writer), (false, vec![9; 5]));
}

#[test]
fn host_value_to_text_answers() {
    assert_eq!(cleared_display_buffer(4), vec![0; 4]);
    assert!(cleared_display_buffer(0).is_empty());
    assert_eq!(value_to_text_answer(Some(true), b"1 dB\0\0"), Ok(b"1 dB".to_vec()));
    assert_eq!(value_to_text_answer(Some(false), b"1 dB\0\0"), Err(()));
    assert_eq!(value_to_text_answer(None, b"1 dB\0\0"), Err(()));
}

#[test]
fn value_to_text_calls() {
    assert_eq!(value_to_text_call(u32::MAX, vec![1, 2]).err(), Some(vec![1, 2]));
    let (id, writer) = value_to_text_call(3, vec![1, 2]).ok().unwrap();
    assert_eq!(id, ClapId::new(3));
    assert_eq!(writer.remaining_len(), 1);
    assert_eq!(writer.finish(), (false, vec![1, 2]));
}
