//! Audio port configurations that a plugin describes and a host selects from.

use crate::audio_ports::{
    opt_bytes_view, opt_port_type_view, spec_port_type_from_raw, AudioPortType, CLAP_NAME_SIZE,
};
use crate::common::{ClapId, CLAP_INVALID_ID};
use crate::utils::{
    data_from_array_buf, is_nul_free, kept_len, lemma_written_buf_stored_data, stored_data,
    write_to_array_buf, written_buf,
};
use vstd::prelude::*;

verus! {

/// Information about a main port: its channel count and type.
#[derive(Clone, Debug, PartialEq, Eq)]
pub struct MainPortInfo {
    pub channel_count: u32,
    pub port_type: Option<AudioPortType>,
}

/// The abstract value of a main port description.
pub struct MainPortInfoView {
    pub channel_count: u32,
    pub port_type: Option<Seq<u8>>,
}

impl View for MainPortInfo {
    type V = MainPortInfoView;

    open spec fn view(&self) -> MainPortInfoView {
        MainPortInfoView {
            channel_count: self.channel_count,
            port_type: opt_port_type_view(self.port_type),
        }
    }
}

/// The abstract value of an optional main port description.
pub open spec fn opt_main_port_view(m: Option<MainPortInfo>) -> Option<MainPortInfoView> {
    match m {
        Some(m) => Some(m@),
        None => None,
    }
}

/// The main port that raw fields stand for: none unless the port exists.
pub open spec fn spec_main_port_from_raw(
    exists: bool,
    channel_count: u32,
    port_type: Option<Seq<u8>>,
) -> Option<MainPortInfoView> {
    if !exists {
        None
    } else {
        Some(
            MainPortInfoView {
                channel_count,
                port_type: spec_port_type_from_raw(port_type),
            },
        )
    }
}

impl MainPortInfo {
    /// Returns the main port that raw fields stand for, or `None` if the port does not exist.
    /// The port type is the bytes of a C string, with `None` for a null pointer.
    pub fn from_raw(exists: bool, channel_count: u32, port_type: Option<Vec<u8>>) -> (info: Option<
        MainPortInfo,
    >)
        ensures
            opt_main_port_view(info) == spec_main_port_from_raw(
                exists,
                channel_count,
                opt_bytes_view(port_type),
            ),
    {
        if !exists {
            return None;
        }
        Some(MainPortInfo { channel_count, port_type: AudioPortType::from_raw(port_type) })
    }
}

/// A configuration of the audio ports of a plugin.
#[derive(Clone, Debug)]
pub struct AudioPortsConfiguration {
    /// The identifier of the configuration, unique for this plugin instance.
    pub id: ClapId,
    /// The name shown to the user.
    pub name: Vec<u8>,
    /// The number of input ports.
    pub input_port_count: u32,
    /// The number of output ports.
    pub output_port_count: u32,
    /// The main input port, if there is one.
    pub main_input: Option<MainPortInfo>,
    /// The main output port, if there is one.
    pub main_output: Option<MainPortInfo>,
}

/// The abstract value of a configuration.
pub struct AudioPortsConfigurationView {
    pub id: ClapId,
    pub name: Seq<u8>,
    pub input_port_count: u32,
    pub output_port_count: u32,
    pub main_input: Option<MainPortInfoView>,
    pub main_output: Option<MainPortInfoView>,
}

impl View for AudioPortsConfiguration {
    type V = AudioPortsConfigurationView;

    open spec fn view(&self) -> AudioPortsConfigurationView {
        AudioPortsConfigurationView {
            id: self.id,
            name: self.name@,
            input_port_count: self.input_port_count,
            output_port_count: self.output_port_count,
            main_input: opt_main_port_view(self.main_input),
            main_output: opt_main_port_view(self.main_output),
        }
    }
}

/// The C-compatible record of a configuration. Port types are the bytes of C strings, with
/// `None` standing for a null pointer.
#[allow(non_camel_case_types)]
#[derive(Clone, Debug)]
pub struct clap_audio_ports_config {
    pub id: u32,
    pub name: [u8; CLAP_NAME_SIZE],
    pub input_port_count: u32,
    pub output_port_count: u32,
    pub has_main_input: bool,
    pub main_input_channel_count: u32,
    pub main_input_port_type: Option<Vec<u8>>,
    pub has_main_output: bool,
    pub main_output_channel_count: u32,
    pub main_output_port_type: Option<Vec<u8>>,
}

/// The abstract value of a raw configuration record.
pub struct RawAudioPortsConfigView {
    pub id: u32,
    pub name: Seq<u8>,
    pub input_port_count: u32,
    pub output_port_count: u32,
    pub has_main_input: bool,
    pub main_input_channel_count: u32,
    pub main_input_port_type: Option<Seq<u8>>,
    pub has_main_output: bool,
    pub main_output_channel_count: u32,
    pub main_output_port_type: Option<Seq<u8>>,
}

impl View for clap_audio_ports_config {
    type V = RawAudioPortsConfigView;

    open spec fn view(&self) -> RawAudioPortsConfigView {
        RawAudioPortsConfigView {
            id: self.id,
            name: self.name@,
            input_port_count: self.input_port_count,
            output_port_count: self.output_port_count,
            has_main_input: self.has_main_input,
            main_input_channel_count: self.main_input_channel_count,
            main_input_port_type: opt_bytes_view(self.main_input_port_type),
            has_main_output: self.has_main_output,
            main_output_channel_count: self.main_output_channel_count,
            main_output_port_type: opt_bytes_view(self.main_output_port_type),
        }
    }
}

/// The configuration that a raw record stands for, if its identifier is valid.
pub open spec fn spec_config_from_raw(raw: RawAudioPortsConfigView) -> Option<
    AudioPortsConfigurationView,
> {
    if raw.id == CLAP_INVALID_ID {
        None
    } else {
        Some(
            AudioPortsConfigurationView {
                id: ClapId::new_spec(raw.id),
                name: stored_data(raw.name),
                input_port_count: raw.input_port_count,
                output_port_count: raw.output_port_count,
                main_input: spec_main_port_from_raw(
                    raw.has_main_input,
                    raw.main_input_channel_count,
                    raw.main_input_port_type,
                ),
                main_output: spec_main_port_from_raw(
                    raw.has_main_output,
                    raw.main_output_channel_count,
                    raw.main_output_port_type,
                ),
            },
        )
    }
}

/// The raw record that a writer leaves after writing a configuration into `old`: a missing main
/// port is written as absent, with no channel and a null port type.
pub open spec fn spec_config_written(
    old: RawAudioPortsConfigView,
    data: AudioPortsConfigurationView,
) -> RawAudioPortsConfigView {
    RawAudioPortsConfigView {
        id: data.id.value(),
        name: written_buf(old.name, data.name),
        input_port_count: data.input_port_count,
        output_port_count: data.output_port_count,
        has_main_input: data.main_input is Some,
        main_input_channel_count: match data.main_input {
            Some(i) => i.channel_count,
            None => 0,
        },
        main_input_port_type: match data.main_input {
            Some(i) => i.port_type,
            None => None,
        },
        has_main_output: data.main_output is Some,
        main_output_channel_count: match data.main_output {
            Some(o) => o.channel_count,
            None => 0,
        },
        main_output_port_type: match data.main_output {
            Some(o) => o.port_type,
            None => None,
        },
    }
}

/// The abstract value of an optional configuration.
pub open spec fn opt_config_view(c: Option<AudioPortsConfiguration>) -> Option<
    AudioPortsConfigurationView,
> {
    match c {
        Some(c) => Some(c@),
        None => None,
    }
}

/// Copies optional bytes.
fn clone_opt_bytes(b: &Option<Vec<u8>>) -> (c: Option<Vec<u8>>)
    ensures
        opt_bytes_view(c) == opt_bytes_view(*b),
{
    match b {
        Some(v) => Some(v.clone()),
        None => None,
    }
}

/// Copies the bytes of an optional port type.
fn port_type_bytes(t: &Option<AudioPortType>) -> (c: Option<Vec<u8>>)
    ensures
        opt_bytes_view(c) == opt_port_type_view(*t),
{
    match t {
        Some(t) => Some(t.0.clone()),
        None => None,
    }
}

impl AudioPortsConfiguration {
    /// Returns the configuration that a raw record stands for, or `None` if its identifier is
    /// invalid.
    pub fn from_raw(raw: &clap_audio_ports_config) -> (config: Option<AudioPortsConfiguration>)
        ensures
            opt_config_view(config) == spec_config_from_raw(raw@),
            config is Some <==> raw.id != CLAP_INVALID_ID,
            config matches Some(c) ==> {
                &&& c.id.value() == raw.id
                &&& c.name@ == stored_data(raw.name@)
                &&& c.input_port_count == raw.input_port_count
                &&& c.output_port_count == raw.output_port_count
                &&& (c.main_input is Some <==> raw.has_main_input)
                &&& (c.main_output is Some <==> raw.has_main_output)
                &&& c.main_input matches Some(i) ==> i.channel_count
                    == raw.main_input_channel_count
                &&& c.main_output matches Some(o) ==> o.channel_count
                    == raw.main_output_channel_count
            },
    {
        let id = ClapId::from_raw(raw.id)?;
        Some(
            AudioPortsConfiguration {
                id,
                name: data_from_array_buf(&raw.name),
                input_port_count: raw.input_port_count,
                output_port_count: raw.output_port_count,
                main_input: MainPortInfo::from_raw(
                    raw.has_main_input,
                    raw.main_input_channel_count,
                    clone_opt_bytes(&raw.main_input_port_type),
                ),
                main_output: MainPortInfo::from_raw(
                    raw.has_main_output,
                    raw.main_output_channel_count,
                    clone_opt_bytes(&raw.main_output_port_type),
                ),
            },
        )
    }
}

/// Writes a configuration into a raw record that a host provided.
pub struct AudioPortConfigWriter {
    buf: clap_audio_ports_config,
    is_set: bool,
}

impl AudioPortConfigWriter {
    /// The record as it currently stands.
    pub closed spec fn spec_buf(&self) -> RawAudioPortsConfigView {
        self.buf@
    }

    /// Whether a configuration was written.
    pub closed spec fn spec_is_set(&self) -> bool {
        self.is_set
    }

    /// Creates a writer over the given record; nothing is written yet.
    pub fn from_raw(raw: clap_audio_ports_config) -> (w: AudioPortConfigWriter)
        ensures
            w.spec_buf() == raw@,
            !w.spec_is_set(),
    {
        AudioPortConfigWriter { buf: raw, is_set: false }
    }

    /// Writes the given configuration into the record.
    pub fn write(&mut self, data: &AudioPortsConfiguration)
        ensures
            final(self).spec_buf() == spec_config_written(old(self).spec_buf(), data@),
            final(self).spec_is_set(),
            final(self).spec_buf().id == data.id.value(),
            final(self).spec_buf().name == written_buf(old(self).spec_buf().name, data.name@),
            final(self).spec_buf().input_port_count == data.input_port_count,
            final(self).spec_buf().output_port_count == data.output_port_count,
            final(self).spec_buf().has_main_input == data.main_input is Some,
            final(self).spec_buf().has_main_output == data.main_output is Some,
            data.main_input matches Some(i) ==> final(self).spec_buf().main_input_channel_count
                == i.channel_count && final(self).spec_buf().main_input_port_type
                == opt_port_type_view(i.port_type),
            data.main_output matches Some(o) ==> final(self).spec_buf().main_output_channel_count
                == o.channel_count && final(self).spec_buf().main_output_port_type
                == opt_port_type_view(o.port_type),
    {
        self.buf.id = data.id.get();
        write_to_array_buf(&mut self.buf.name, data.name.as_slice());
        self.buf.input_port_count = data.input_port_count;
        self.buf.output_port_count = data.output_port_count;

        match &data.main_input {
            Some(info) => {
                self.buf.has_main_input = true;
                self.buf.main_input_channel_count = info.channel_count;
                self.buf.main_input_port_type = port_type_bytes(&info.port_type);
            },
            None => {
                self.buf.has_main_input = false;
                self.buf.main_input_channel_count = 0;
                self.buf.main_input_port_type = None;
            },
        }

        match &data.main_output {
            Some(info) => {
                self.buf.has_main_output = true;
                self.buf.main_output_channel_count = info.channel_count;
                self.buf.main_output_port_type = port_type_bytes(&info.port_type);
            },
            None => {
                self.buf.has_main_output = false;
                self.buf.main_output_channel_count = 0;
                self.buf.main_output_port_type = None;
            },
        }

        self.is_set = true;
    }

    /// Returns the record and whether a configuration was written into it.
    pub fn finish(self) -> (res: (clap_audio_ports_config, bool))
        ensures
            res.0@ == self.spec_buf(),
            res.1 == self.spec_is_set(),
    {
        (self.buf, self.is_set)
    }
}

/// Whether a main port survives the trip through raw fields: its type, if any, is non-empty.
pub open spec fn main_port_fits_raw(m: Option<MainPortInfoView>) -> bool {
    m matches Some(i) ==> (i.port_type matches Some(t) ==> t.len() > 0)
}

/// Whether a configuration survives being written into a raw record and read back: its
/// identifier is valid, its name is nul-free and fits the name buffer, and its main port types
/// are non-empty strings.
pub open spec fn config_fits_raw(data: AudioPortsConfigurationView) -> bool {
    &&& data.id.wf()
    &&& is_nul_free(data.name)
    &&& data.name.len() < CLAP_NAME_SIZE
    &&& main_port_fits_raw(data.main_input)
    &&& main_port_fits_raw(data.main_output)
}

/// Reading back a raw record that a configuration was written into gives the same configuration.
pub proof fn lemma_config_roundtrip(old: RawAudioPortsConfigView, data: AudioPortsConfigurationView)
    requires
        old.name.len() == CLAP_NAME_SIZE,
        config_fits_raw(data),
    ensures
        spec_config_from_raw(spec_config_written(old, data)) == Some(data),
{
    lemma_written_buf_stored_data(old.name, data.name);
    assert(data.name.take(kept_len(old.name.len(), data.name)) =~= data.name);
    ClapId::lemma_new_spec_value(data.id);
}

/// The error of a plugin that failed or refused to change its audio ports configuration.
#[derive(Copy, Clone, Debug, PartialEq, Eq, Default)]
pub struct AudioPortConfigSelectError;

impl AudioPortConfigSelectError {
    /// The text that describes this error.
    pub open spec fn spec_message() -> Seq<char> {
        "Failed to change plugin audio ports configuration."@
    }

    /// Returns the text that describes this error.
    pub fn message(&self) -> (text: &'static str)
        ensures
            text@ == Self::spec_message(),
    {
        "Failed to change plugin audio ports configuration."
    }
}

/// The outcome of asking a plugin to select a configuration: an error if the plugin offers no
/// way to select one (`None`) or reported failure (`Some(false)`).
pub fn select_outcome(plugin_answer: Option<bool>) -> (r: Result<(), AudioPortConfigSelectError>)
    ensures
        r is Ok <==> plugin_answer == Some(true),
{
    match plugin_answer {
        Some(true) => Ok(()),
        _ => Err(AudioPortConfigSelectError),
    }
}

/// The number of configurations a plugin reports, as a count of the host's own size type; a
/// plugin that offers no count (`None`) has none.
pub fn config_count(plugin_count: Option<u32>) -> (count: usize)
    ensures
        count == match plugin_count {
            Some(c) => c as usize,
            None => 0usize,
        },
{
    match plugin_count {
        None => 0,
        Some(c) => c as usize,
    }
}

/// The plugin side of the audio ports configuration extension.
pub trait PluginAudioPortsConfigImpl {
    /// The number of configurations the plugin offers.
    fn count(&mut self) -> u32;

    /// Writes the configuration at the given index into the host's record.
    fn get(&mut self, index: u32, writer: &mut AudioPortConfigWriter);

    /// Switches to the configuration with the given identifier; the plugin must be deactivated.
    fn select(&mut self, config_id: u32) -> Result<(), AudioPortConfigSelectError>;
}

/// Hands a host's configuration choice to the plugin, which must be deactivated, as
/// [`select_call`] says: while it is active the call is refused, naming the call, and never
/// reaches the plugin; else the plugin gets the identifier, and the answer says whether it
/// switched.
pub fn handle_select<P: PluginAudioPortsConfigImpl>(plugin: &mut P, is_active: bool, config_id: u32) -> (r:
    Result<bool, &'static str>)
    ensures
        r is Err <==> is_active,
        r matches Err(name) ==> name@ == "clap_plugin_audio_ports_config.select"@,
        is_active ==> *final(plugin) == *old(plugin),
{
    let id = match select_call(is_active, config_id) {
        Ok(id) => id,
        Err(name) => {
            return Err(name);
        },
    };
    let answer = plugin.select(id);
    Ok(answer.is_ok())
}

/// The call a host's configuration choice becomes: refused, naming the call, while the plugin is
/// active; else the configuration identifier, unchanged.
pub fn select_call(is_active: bool, config_id: u32) -> (r: Result<u32, &'static str>)
    ensures
        r is Err <==> is_active,
        r matches Err(name) ==> name@ == "clap_plugin_audio_ports_config.select"@,
        r matches Ok(id) ==> id == config_id,
{
    if is_active {
        Err("clap_plugin_audio_ports_config.select")
    } else {
        Ok(config_id)
    }
}

/// The host side of the audio ports configuration extension.
pub trait HostAudioPortsConfigImpl {
    /// The list of configurations changed and must be scanned again.
    fn rescan(&mut self);
}

/// Writing a configuration puts its identifier and its input and output port counts into the raw
/// fields of the same names, and marks each main port present exactly when it is.
pub proof fn lemma_config_written_fields(old: RawAudioPortsConfigView, data: AudioPortsConfigurationView)
    ensures
        spec_config_written(old, data).id == data.id.value(),
        spec_config_written(old, data).input_port_count == data.input_port_count,
        spec_config_written(old, data).output_port_count == data.output_port_count,
        spec_config_written(old, data).has_main_input == data.main_input is Some,
        spec_config_written(old, data).has_main_output == data.main_output is Some,
        data.main_input matches Some(i) ==> spec_config_written(old, data).main_input_channel_count
            == i.channel_count,
        data.main_output matches Some(o) ==> spec_config_written(old, data).main_output_channel_count
            == o.channel_count,
{
}

/// Reading a raw record takes the identifier and the input and output port counts from the raw
/// fields of the same names.
pub proof fn lemma_config_read_fields(raw: RawAudioPortsConfigView)
    requires
        raw.id != CLAP_INVALID_ID,
    ensures
        spec_config_from_raw(raw) matches Some(c) && c.id.value() == raw.id && c.input_port_count
            == raw.input_port_count && c.output_port_count == raw.output_port_count && (
        c.main_input is Some <==> raw.has_main_input) && (c.main_output is Some
            <==> raw.has_main_output),
{
    ClapId::lemma_new_spec_value(ClapId::new_spec(raw.id));
}

} // verus!
