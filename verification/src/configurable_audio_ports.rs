//! Requests with which a host configures a plugin's input and output audio ports.

use crate::audio_ports::{opt_bytes_view, opt_port_type_view, spec_port_type_from_raw, spec_mono, spec_stereo, AudioPortType};
use vstd::prelude::*;

verus! {

/// The C-compatible record of a port configuration request. The port type is the bytes of a C
/// string, with `None` standing for a null pointer; the port details are an address, zero
/// standing for a null pointer.
#[allow(non_camel_case_types)]
#[derive(Clone, Debug)]
pub struct clap_audio_port_configuration_request {
    pub is_input: bool,
    pub port_index: u32,
    pub channel_count: u32,
    pub port_type: Option<Vec<u8>>,
    pub port_details: u64,
}

/// The details of a port configuration request: a channel count, a port type, and the address of
/// details specific to that port type (zero for none).
#[derive(Clone, Debug)]
pub struct AudioPortRequestDetails {
    channel_count: u32,
    port_type: Option<Vec<u8>>,
    port_details: u64,
}

impl AudioPortRequestDetails {
    /// The channel count requested.
    pub closed spec fn spec_channel_count(&self) -> u32 {
        self.channel_count
    }

    /// The raw port type requested.
    pub closed spec fn spec_raw_port_type(&self) -> Option<Seq<u8>> {
        opt_bytes_view(self.port_type)
    }

    /// The address of the details.
    pub closed spec fn spec_port_details(&self) -> u64 {
        self.port_details
    }

    /// Creates details from their parts.
    pub fn from_raw(port_type: Option<AudioPortType>, channel_count: u32, port_details: u64) -> (d:
        Self)
        ensures
            d.spec_channel_count() == channel_count,
            d.spec_raw_port_type() == opt_port_type_view(port_type),
            d.spec_port_details() == port_details,
    {
        AudioPortRequestDetails {
            port_details,
            port_type: match port_type {
                None => None,
                Some(t) => Some(t.0),
            },
            channel_count,
        }
    }

    /// A request for a mono port: one channel, the mono type, no details.
    pub fn mono() -> (d: Self)
        ensures
            d.spec_channel_count() == 1,
            d.spec_raw_port_type() == Some(spec_mono()),
            d.spec_port_details() == 0,
    {
        Self::from_raw(Some(AudioPortType::mono()), 1, 0)
    }

    /// A request for a stereo port: two channels, the stereo type, no details.
    pub fn stereo() -> (d: Self)
        ensures
            d.spec_channel_count() == 2,
            d.spec_raw_port_type() == Some(spec_stereo()),
            d.spec_port_details() == 0,
    {
        Self::from_raw(Some(AudioPortType::stereo()), 2, 0)
    }

    /// A request for a port with no type and the given channel count.
    pub fn untyped(channel_count: u32) -> (d: Self)
        ensures
            d.spec_channel_count() == channel_count,
            d.spec_raw_port_type() == None::<Seq<u8>>,
            d.spec_port_details() == 0,
    {
        Self::from_raw(None, channel_count, 0)
    }

    /// Returns the channel count requested.
    pub fn channel_count(&self) -> (n: u32)
        ensures
            n == self.spec_channel_count(),
    {
        self.channel_count
    }

    /// Returns the port type requested, if any; an empty type counts as none.
    pub fn port_type(&self) -> (t: Option<AudioPortType>)
        ensures
            opt_port_type_view(t) == spec_port_type_from_raw(self.spec_raw_port_type()),
    {
        let raw = match &self.port_type {
            Some(b) => Some(b.clone()),
            None => None,
        };
        AudioPortType::from_raw(raw)
    }

    /// Returns the address of the details.
    pub fn raw_details(&self) -> (address: u64)
        ensures
            address == self.spec_port_details(),
    {
        self.port_details
    }
}

/// A request to configure a single audio port.
#[derive(Clone, Debug)]
pub struct AudioPortRequest {
    inner: clap_audio_port_configuration_request,
}

impl AudioPortRequest {
    /// Whether the request is for an input port.
    pub closed spec fn spec_is_input(&self) -> bool {
        self.inner.is_input
    }

    /// The index of the port to configure.
    pub closed spec fn spec_port_index(&self) -> u32 {
        self.inner.port_index
    }

    /// The channel count requested.
    pub closed spec fn spec_channel_count(&self) -> u32 {
        self.inner.channel_count
    }

    /// The raw port type requested.
    pub closed spec fn spec_raw_port_type(&self) -> Option<Seq<u8>> {
        opt_bytes_view(self.inner.port_type)
    }

    /// The address of the details.
    pub closed spec fn spec_port_details(&self) -> u64 {
        self.inner.port_details
    }

    /// Creates a request for the given port with the given details.
    pub fn new(is_input: bool, port_index: u32, details: AudioPortRequestDetails) -> (r: Self)
        ensures
            r.spec_is_input() == is_input,
            r.spec_port_index() == port_index,
            r.spec_channel_count() == details.spec_channel_count(),
            r.spec_raw_port_type() == details.spec_raw_port_type(),
            r.spec_port_details() == details.spec_port_details(),
    {
        AudioPortRequest {
            inner: clap_audio_port_configuration_request {
                is_input,
                port_index,
                port_details: details.port_details,
                port_type: details.port_type,
                channel_count: details.channel_count,
            },
        }
    }

    /// Creates a request from its raw record.
    pub fn from_raw(raw: clap_audio_port_configuration_request) -> (r: Self)
        ensures
            r.spec_is_input() == raw.is_input,
            r.spec_port_index() == raw.port_index,
            r.spec_channel_count() == raw.channel_count,
            r.spec_raw_port_type() == opt_bytes_view(raw.port_type),
            r.spec_port_details() == raw.port_details,
    {
        AudioPortRequest { inner: raw }
    }

    /// Returns whether this is a request for an input port (rather than an output port).
    pub fn is_input(&self) -> (b: bool)
        ensures
            b == self.spec_is_input(),
    {
        self.inner.is_input
    }

    /// Returns the index of the port to configure, among the ports of its direction.
    pub fn port_index(&self) -> (i: u32)
        ensures
            i == self.spec_port_index(),
    {
        self.inner.port_index
    }

    /// Returns the details of this request.
    pub fn details(&self) -> (d: AudioPortRequestDetails)
        ensures
            d.spec_channel_count() == self.spec_channel_count(),
            d.spec_raw_port_type() == self.spec_raw_port_type(),
            d.spec_port_details() == self.spec_port_details(),
    {
        AudioPortRequestDetails {
            port_details: self.inner.port_details,
            port_type: match &self.inner.port_type {
                Some(b) => Some(b.clone()),
                None => None,
            },
            channel_count: self.inner.channel_count,
        }
    }
}

/// The number of requests as the plugin receives it, or `None` if there are too many to count
/// in 32 bits (in which case the configuration is not even offered to the plugin).
pub fn requests_len(len: usize) -> (n: Option<u32>)
    ensures
        n == if len <= 0xffff_ffff {
            Some(len as u32)
        } else {
            None::<u32>
        },
{
    if len <= 0xffff_ffffusize {
        Some(len as u32)
    } else {
        None
    }
}

/// A list of port configuration requests.
pub struct AudioPortsRequestList {
    raw: Vec<clap_audio_port_configuration_request>,
}

impl AudioPortsRequestList {
    /// The number of requests in the list.
    pub closed spec fn spec_len(&self) -> nat {
        self.raw@.len()
    }

    /// The raw records of the requests, in order.
    pub closed spec fn spec_raw(&self) -> Seq<clap_audio_port_configuration_request> {
        self.raw@
    }

    /// Creates a list from raw records.
    pub fn from_raw(raw: Vec<clap_audio_port_configuration_request>) -> (l: Self)
        ensures
            l.spec_len() == raw@.len(),
            l.spec_raw() == raw@,
    {
        AudioPortsRequestList { raw }
    }

    /// Returns whether the list holds no request.
    pub fn is_empty(&self) -> (b: bool)
        ensures
            b == (self.spec_len() == 0),
    {
        self.raw.len() == 0
    }

    /// Returns the number of requests in the list.
    pub fn len(&self) -> (n: usize)
        ensures
            n == self.spec_len(),
    {
        self.raw.len()
    }

    /// Returns the request at the given index, or `None` past the end.
    pub fn get(&self, index: usize) -> (r: Option<AudioPortRequest>)
        ensures
            r is Some <==> index < self.spec_len(),
            r matches Some(req) ==> {
                let rec = self.spec_raw()[index as int];
                &&& req.spec_is_input() == rec.is_input
                &&& req.spec_port_index() == rec.port_index
                &&& req.spec_channel_count() == rec.channel_count
                &&& req.spec_raw_port_type() == opt_bytes_view(rec.port_type)
                &&& req.spec_port_details() == rec.port_details
            },
    {
        if index < self.raw.len() {
            let rec = &self.raw[index];
            Some(
                AudioPortRequest::from_raw(
                    clap_audio_port_configuration_request {
                        is_input: rec.is_input,
                        port_index: rec.port_index,
                        channel_count: rec.channel_count,
                        port_type: match &rec.port_type {
                            Some(b) => Some(b.clone()),
                            None => None,
                        },
                        port_details: rec.port_details,
                    },
                ),
            )
        } else {
            None
        }
    }
}

/// The plugin side of the configurable audio ports extension.
pub trait PluginConfigurableAudioPortsImpl {
    /// Whether the given requests could be applied together; the plugin must be deactivated.
    fn can_apply_configuration(&mut self, list: &AudioPortsRequestList) -> bool;

    /// Applies the given requests together, or none of them; returns whether they were applied.
    /// The plugin must be deactivated.
    fn apply_configuration(&mut self, list: &AudioPortsRequestList) -> bool;
}

/// Asks the plugin, which must be deactivated, whether the host's requests could be applied, as
/// [`configuration_call`] says: while it is active the call is refused, naming the call, and
/// never reaches the plugin; else the plugin gets the list and its answer is returned.
pub fn handle_can_apply_configuration<P: PluginConfigurableAudioPortsImpl>(
    plugin: &mut P,
    is_active: bool,
    list: &AudioPortsRequestList,
) -> (r: Result<bool, &'static str>)
    ensures
        r is Err <==> is_active,
        r matches Err(name) ==> name@
            == "clap_plugin_configurable_audio_ports.can_apply_configuration"@,
        is_active ==> *final(plugin) == *old(plugin),
{
    let requests = match configuration_call(is_active, ConfigurationCall::CanApply, list) {
        Ok(requests) => requests,
        Err(name) => {
            return Err(name);
        },
    };
    Ok(plugin.can_apply_configuration(requests))
}

/// Hands the host's requests to the plugin, which must be deactivated, to apply them, as
/// [`configuration_call`] says: while it is active the call is refused, naming the call, and
/// never reaches the plugin; else the plugin gets the list and its answer is returned.
pub fn handle_apply_configuration<P: PluginConfigurableAudioPortsImpl>(
    plugin: &mut P,
    is_active: bool,
    list: &AudioPortsRequestList,
) -> (r: Result<bool, &'static str>)
    ensures
        r is Err <==> is_active,
        r matches Err(name) ==> name@
            == "clap_plugin_configurable_audio_ports.apply_configuration"@,
        is_active ==> *final(plugin) == *old(plugin),
{
    let requests = match configuration_call(is_active, ConfigurationCall::Apply, list) {
        Ok(requests) => requests,
        Err(name) => {
            return Err(name);
        },
    };
    Ok(plugin.apply_configuration(requests))
}

/// The two calls with which a host submits port configuration requests.
#[derive(Copy, Clone, Eq, PartialEq, Debug)]
pub enum ConfigurationCall {
    /// Whether the requests could be applied.
    CanApply,
    /// Apply the requests.
    Apply,
}

impl ConfigurationCall {
    /// The name a refused call is reported with.
    pub open spec fn spec_name(self) -> Seq<char> {
        match self {
            ConfigurationCall::CanApply => "clap_plugin_configurable_audio_ports.can_apply_configuration"@,
            ConfigurationCall::Apply => "clap_plugin_configurable_audio_ports.apply_configuration"@,
        }
    }
}

/// The call a host's port configuration requests become: refused, naming the call, while the
/// plugin is active; else the very list of requests, for the plugin.
pub fn configuration_call<'a>(
    is_active: bool,
    call: ConfigurationCall,
    list: &'a AudioPortsRequestList,
) -> (r: Result<&'a AudioPortsRequestList, &'static str>)
    ensures
        r is Err <==> is_active,
        r matches Err(name) ==> name@ == call.spec_name(),
        r matches Ok(l) ==> *l == *list,
{
    if is_active {
        match call {
            ConfigurationCall::CanApply => Err(
                "clap_plugin_configurable_audio_ports.can_apply_configuration",
            ),
            ConfigurationCall::Apply => Err("clap_plugin_configurable_audio_ports.apply_configuration"),
        }
    } else {
        Ok(list)
    }
}

} // verus!
