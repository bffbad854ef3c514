use clack_extensions::ambisonic::{
    AmbisonicConfig, AmbisonicNormalization, AmbisonicOrdering, clap_ambisonic_config,
};
use clack_extensions::audio_ports::AudioPortType;
use clack_extensions::audio_ports_activation::SampleSize;
use clack_extensions::context_menu::{
    clap_context_menu_target, ContextMenuError, ContextMenuTarget, ItemKind,
    CLAP_CONTEXT_MENU_ITEM_BEGIN_SUBMENU, CLAP_CONTEXT_MENU_ITEM_CHECK_ENTRY,
    CLAP_CONTEXT_MENU_ITEM_END_SUBMENU, CLAP_CONTEXT_MENU_ITEM_ENTRY, CLAP_CONTEXT_MENU_ITEM_SEPARATOR,
    CLAP_CONTEXT_MENU_ITEM_TITLE, CLAP_CONTEXT_MENU_TARGET_KIND_GLOBAL,
    CLAP_CONTEXT_MENU_TARGET_KIND_PARAM,
};
use clack_extensions::common::ClapId;
use clack_extensions::log::LogSeverity;
use clack_extensions::note_ports::NoteDialect;
use clack_extensions::param_indication::ParamIndicationAutomation;
use clap_sys::ext::ambisonic as sys_ambisonic;
use clap_sys::ext::context_menu as sys_menu;
use clap_sys::ext::log as sys_log;
use clap_sys::ext::param_indication as sys_indication;

#[test]
fn log_severity_raw_values_match_clap_sys() {
    assert_eq!(LogSeverity::Debug.to_raw(), sys_log::CLAP_LOG_DEBUG);
    assert_eq!(LogSeverity::Info.to_raw(), sys_log::CLAP_LOG_INFO);
    assert_eq!(LogSeverity::Warning.to_raw(), sys_log::CLAP_LOG_WARNING);
    assert_eq!(LogSeverity::Error.to_raw(), sys_log::CLAP_LOG_ERROR);
    assert_eq!(LogSeverity::Fatal.to_raw(), sys_log::CLAP_LOG_FATAL);
    assert_eq!(LogSeverity::HostMisbehaving.to_raw(), sys_log::CLAP_LOG_HOST_MISBEHAVING);
    assert_eq!(LogSeverity::PluginMisbehaving.to_raw(), sys_log::CLAP_LOG_PLUGIN_MISBEHAVING);
}

#[test]
fn log_severity_raw_roundtrip() {
    for raw in 0..7 {
        assert_eq!(LogSeverity::from_raw(raw).unwrap().to_raw(), raw);
    }
    assert_eq!(LogSeverity::from_raw(7), None);
    assert_eq!(LogSeverity::from_raw(-1), None);
    assert_eq!(LogSeverity::from_raw(i32::MAX), None);
}

#[test]
fn log_severity_labels_and_order() {
    assert_eq!(LogSeverity::Debug.label(), "DEBUG");
    assert_eq!(LogSeverity::Info.label(), "INFO");
    assert_eq!(LogSeverity::Warning.label(), "WARN");
    assert_eq!(LogSeverity::Error.label(), "ERROR");
    assert_eq!(LogSeverity::Fatal.label(), "FATAL");
    assert_eq!(LogSeverity::HostMisbehaving.label(), "HOST_MISBEHAVING");
    assert_eq!(LogSeverity::PluginMisbehaving.label(), "PLUGIN_MISBEHAVING");
    assert!(LogSeverity::Debug < LogSeverity::Info);
    assert!(LogSeverity::Error < LogSeverity::Fatal);
}

#[test]
fn sample_size_raw_values() {
    assert_eq!(SampleSize::Unspecified.to_raw(), 0);
    assert_eq!(SampleSize::Float32.to_raw(), 32);
    assert_eq!(SampleSize::Float64.to_raw(), 64);
    assert_eq!(SampleSize::from_raw(0), Some(SampleSize::Unspecified));
    assert_eq!(SampleSize::from_raw(32), Some(SampleSize::Float32));
    assert_eq!(SampleSize::from_raw(64), Some(SampleSize::Float64));
    assert_eq!(SampleSize::from_raw(16), None);
    assert_eq!(SampleSize::Unspecified.label(), "Unspecified");
    assert_eq!(SampleSize::Float32.label(), "32-bit");
    assert_eq!(SampleSize::Float64.label(), "64-bit");
}

#[test]
fn param_indication_raw_values_match_clap_sys() {
    assert_eq!(ParamIndicationAutomation::NoAutomation.to_raw(), sys_indication::CLAP_PARAM_INDICATION_AUTOMATION_NONE);
    assert_eq!(ParamIndicationAutomation::Present.to_raw(), sys_indication::CLAP_PARAM_INDICATION_AUTOMATION_PRESENT);
    assert_eq!(ParamIndicationAutomation::Playing.to_raw(), sys_indication::CLAP_PARAM_INDICATION_AUTOMATION_PLAYING);
    assert_eq!(
        ParamIndicationAutomation::Recording.to_raw(),
        sys_indication::CLAP_PARAM_INDICATION_AUTOMATION_RECORDING
    );
    assert_eq!(
        ParamIndicationAutomation::Overriding.to_raw(),
        sys_indication::CLAP_PARAM_INDICATION_AUTOMATION_OVERRIDING
    );
    for raw in 0..5 {
        assert_eq!(ParamIndicationAutomation::from_raw(raw).unwrap().to_raw(), raw);
    }
    assert_eq!(ParamIndicationAutomation::from_raw(5), None);
}

#[test]
fn param_indication_labels() {
    assert_eq!(ParamIndicationAutomation::NoAutomation.label(), "NONE");
    assert_eq!(ParamIndicationAutomation::Present.label(), "PRESENT");
    assert_eq!(ParamIndicationAutomation::Playing.label(), "PLAYING");
    assert_eq!(ParamIndicationAutomation::Recording.label(), "RECORDING");
    assert_eq!(ParamIndicationAutomation::Overriding.label(), "OVERRIDING");
}

#[test]
fn ambisonic_raw_values_match_clap_sys() {
    assert_eq!(AmbisonicOrdering::FuMa.to_raw(), sys_ambisonic::CLAP_AMBISONIC_ORDERING_FUMA);
    assert_eq!(AmbisonicOrdering::ACN.to_raw(), sys_ambisonic::CLAP_AMBISONIC_ORDERING_ACN);
    assert_eq!(AmbisonicNormalization::MaxN.to_raw(), sys_ambisonic::CLAP_AMBISONIC_NORMALIZATION_MAXN);
    assert_eq!(AmbisonicNormalization::SN3D.to_raw(), sys_ambisonic::CLAP_AMBISONIC_NORMALIZATION_SN3D);
    assert_eq!(AmbisonicNormalization::N3D.to_raw(), sys_ambisonic::CLAP_AMBISONIC_NORMALIZATION_N3D);
    assert_eq!(AmbisonicNormalization::SN2D.to_raw(), sys_ambisonic::CLAP_AMBISONIC_NORMALIZATION_SN2D);
    assert_eq!(AmbisonicNormalization::N2D.to_raw(), sys_ambisonic::CLAP_AMBISONIC_NORMALIZATION_N2D);
    assert_eq!(AmbisonicOrdering::from_raw(2), None);
    assert_eq!(AmbisonicNormalization::from_raw(5), None);
}

#[test]
fn ambisonic_config_gives_back_its_parts() {
    let c = AmbisonicConfig::new(AmbisonicOrdering::ACN, AmbisonicNormalization::SN3D);
    assert_eq!(c.ordering(), Some(AmbisonicOrdering::ACN));
    assert_eq!(c.normalization(), Some(AmbisonicNormalization::SN3D));
    assert_eq!(*c.as_raw(), clap_ambisonic_config { ordering: 1, normalization: 1 });

    let unknown = AmbisonicConfig::from_raw(clap_ambisonic_config { ordering: 9, normalization: 2 });
    assert_eq!(unknown.ordering(), None);
    assert_eq!(unknown.normalization(), Some(AmbisonicNormalization::N3D));
}

#[test]
fn ambisonic_port_type() {
    assert_eq!(AudioPortType::ambisonic().0, b"ambisonic".to_vec());
    assert_eq!(
        AudioPortType::ambisonic().0,
        clap_sys::ext::ambisonic::CLAP_PORT_AMBISONIC.to_bytes().to_vec()
    );
}

#[test]
fn note_dialect_raw_values() {
    for d in [NoteDialect::Clap, NoteDialect::Midi, NoteDialect::MidiMpe, NoteDialect::Midi2] {
        assert_eq!(NoteDialect::from_raw(d.to_raw()), Some(d));
    }
    assert_eq!(NoteDialect::from_raw(0), None);
    assert_eq!(NoteDialect::from_raw(3), None);
    assert_eq!(NoteDialect::from_raw(16), None);
}

#[test]
fn item_kind_raw_values_match_clap_sys() {
    assert_eq!(CLAP_CONTEXT_MENU_ITEM_ENTRY, sys_menu::CLAP_CONTEXT_MENU_ITEM_ENTRY);
    assert_eq!(CLAP_CONTEXT_MENU_ITEM_CHECK_ENTRY, sys_menu::CLAP_CONTEXT_MENU_ITEM_CHECK_ENTRY);
    assert_eq!(CLAP_CONTEXT_MENU_ITEM_SEPARATOR, sys_menu::CLAP_CONTEXT_MENU_ITEM_SEPARATOR);
    assert_eq!(CLAP_CONTEXT_MENU_ITEM_BEGIN_SUBMENU, sys_menu::CLAP_CONTEXT_MENU_ITEM_BEGIN_SUBMENU);
    assert_eq!(CLAP_CONTEXT_MENU_ITEM_END_SUBMENU, sys_menu::CLAP_CONTEXT_MENU_ITEM_END_SUBMENU);
    assert_eq!(CLAP_CONTEXT_MENU_ITEM_TITLE, sys_menu::CLAP_CONTEXT_MENU_ITEM_TITLE);
    assert_eq!(CLAP_CONTEXT_MENU_TARGET_KIND_GLOBAL, sys_menu::CLAP_CONTEXT_MENU_TARGET_KIND_GLOBAL);
    assert_eq!(CLAP_CONTEXT_MENU_TARGET_KIND_PARAM, sys_menu::CLAP_CONTEXT_MENU_TARGET_KIND_PARAM);

    let kinds = [
        ItemKind::Entry,
        ItemKind::CheckEntry,
        ItemKind::Separator,
        ItemKind::BeginSubmenu,
        ItemKind::EndSubmenu,
        ItemKind::Title,
    ];
    for (raw, kind) in kinds.iter().enumerate() {
        assert_eq!(kind.to_raw(), raw as u32);
        assert_eq!(ItemKind::from_raw(raw as u32), Some(*kind));
    }
    assert_eq!(ItemKind::from_raw(6), None);
}

#[test]
fn context_menu_target_raw_records() {
    assert_eq!(
        ContextMenuTarget::Global.to_raw(),
        clap_context_menu_target { kind: 0, id: u32::MAX }
    );
    let param = ContextMenuTarget::Param(ClapId::new(12));
    assert_eq!(param.to_raw(), clap_context_menu_target { kind: 1, id: 12 });
    assert_eq!(ContextMenuTarget::from_raw(param.to_raw()), param);
    assert_eq!(ContextMenuTarget::from_raw(ContextMenuTarget::Global.to_raw()), ContextMenuTarget::Global);
}

#[test]
fn context_menu_target_from_odd_records() {
    assert_eq!(
        ContextMenuTarget::from_raw(clap_context_menu_target { kind: 1, id: u32::MAX }),
        ContextMenuTarget::Global
    );
    assert_eq!(
        ContextMenuTarget::from_raw(clap_context_menu_target { kind: 7, id: 3 }),
        ContextMenuTarget::Global
    );
    assert_eq!(
        ContextMenuTarget::from_raw(clap_context_menu_target { kind: 0, id: 3 }),
        ContextMenuTarget::Global
    );
    assert_eq!(ContextMenuTarget::from_raw_ptr(None), ContextMenuTarget::Global);
    let raw = clap_context_menu_target { kind: 1, id: 5 };
    assert_eq!(ContextMenuTarget::from_raw_ptr(Some(&raw)), ContextMenuTarget::Param(ClapId::new(5)));
}

#[test]
fn context_menu_error_messages() {
    assert_eq!(ContextMenuError::Builder.message(), "Failed to populate context menu");
    assert_eq!(ContextMenuError::Popup.message(), "Failed to open host pop-up context menu");
    assert_eq!(ContextMenuError::ActionFailed.message(), "Failed to perform context menu action");
}
