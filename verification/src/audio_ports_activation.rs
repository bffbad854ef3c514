//! Activating and deactivating audio ports, and the sample size the host will use.

use vstd::prelude::*;

verus! {

/// Whether the host provides 32-bit or 64-bit buffers when processing.
#[derive(Copy, Clone, Eq, PartialEq, Ord, PartialOrd, Debug)]
pub enum SampleSize {
    /// Unspecified or unknown.
    Unspecified,
    /// 32-bit buffers.
    Float32,
    /// 64-bit buffers.
    Float64,
}

impl SampleSize {
    /// The raw value of a sample size: its number of bits, or zero.
    pub open spec fn spec_to_raw(self) -> u32 {
        match self {
            SampleSize::Unspecified => 0,
            SampleSize::Float32 => 32,
            SampleSize::Float64 => 64,
        }
    }

    /// The sample size a raw value stands for, if any.
    pub open spec fn spec_from_raw(raw: u32) -> Option<SampleSize> {
        if raw == 0 {
            Some(SampleSize::Unspecified)
        } else if raw == 32 {
            Some(SampleSize::Float32)
        } else if raw == 64 {
            Some(SampleSize::Float64)
        } else {
            None
        }
    }

    /// The label of a sample size.
    pub open spec fn spec_label(self) -> Seq<char> {
        match self {
            SampleSize::Unspecified => "Unspecified"@,
            SampleSize::Float32 => "32-bit"@,
            SampleSize::Float64 => "64-bit"@,
        }
    }

    /// Returns the sample size a raw value stands for, or `None` for an unknown value.
    pub fn from_raw(raw: u32) -> (s: Option<SampleSize>)
        ensures
            s == Self::spec_from_raw(raw),
    {
        if raw == 0 {
            Some(SampleSize::Unspecified)
        } else if raw == 32 {
            Some(SampleSize::Float32)
        } else if raw == 64 {
            Some(SampleSize::Float64)
        } else {
            None
        }
    }

    /// Returns the raw value of this sample size.
    pub fn to_raw(self) -> (raw: u32)
        ensures
            raw == self.spec_to_raw(),
    {
        match self {
            SampleSize::Unspecified => 0,
            SampleSize::Float32 => 32,
            SampleSize::Float64 => 64,
        }
    }

    /// Returns the label of this sample size, as it is displayed.
    pub fn label(&self) -> (text: &'static str)
        ensures
            text@ == self.spec_label(),
    {
        match self {
            SampleSize::Unspecified => "Unspecified",
            SampleSize::Float32 => "32-bit",
            SampleSize::Float64 => "64-bit",
        }
    }
}

/// A sample size survives the trip through its raw value, and a known raw value survives the trip
/// through its sample size.
pub proof fn lemma_sample_size_raw_roundtrip(s: SampleSize, raw: u32)
    ensures
        SampleSize::spec_from_raw(s.spec_to_raw()) == Some(s),
        SampleSize::spec_from_raw(raw) matches Some(x) ==> x.spec_to_raw() == raw,
{
}

/// Implementation of the plugin side of the Audio Ports Activation extension.
pub trait PluginAudioPortsActivationImpl {
    /// Returns true if the plugin supports changing port activation while processing.
    fn can_activate_while_processing(&mut self) -> bool;
}

/// Implementation of the activation change of the Audio Ports Activation extension.
pub trait PluginAudioPortsActivationSetImpl {
    /// Activates or deactivates the given port; returns true if the plugin accepted the change.
    fn set_active(
        &mut self,
        is_input: bool,
        port_index: u32,
        is_active: bool,
        sample_size: SampleSize,
    ) -> bool;
}

/// The side of a plugin that receives a port activation change.
#[derive(Copy, Clone, Eq, PartialEq, Debug)]
pub enum ActivationSide {
    /// The audio processor, where the plugin is active.
    AudioProcessor,
    /// The main thread, where the plugin is deactivated.
    MainThread,
}

/// A port activation change as the plugin receives it: the side that gets it, and the arguments
/// it gets.
#[derive(Copy, Clone, Eq, PartialEq, Debug)]
pub struct SetActiveCall {
    pub side: ActivationSide,
    pub is_input: bool,
    pub port_index: u32,
    pub is_active: bool,
    pub sample_size: SampleSize,
}

/// The call a host's port activation change becomes: refused, naming the bad argument, where the
/// raw sample size is unknown; else the change with the sample size it stands for, for the audio
/// processor where the plugin is active and for the main thread where it is not.
pub fn set_active_call(
    audio_active: bool,
    is_input: bool,
    port_index: u32,
    is_active: bool,
    sample_size: u32,
) -> (r: Result<SetActiveCall, &'static str>)
    ensures
        SampleSize::spec_from_raw(sample_size) is None <==> r is Err,
        r matches Err(name) ==> name@ == "sample_size"@,
        r matches Ok(call) ==> call == (SetActiveCall {
            side: if audio_active {
                ActivationSide::AudioProcessor
            } else {
                ActivationSide::MainThread
            },
            is_input,
            port_index,
            is_active,
            sample_size: SampleSize::spec_from_raw(sample_size)->0,
        }),
{
    let size = match SampleSize::from_raw(sample_size) {
        Some(s) => s,
        None => {
            return Err("sample_size");
        },
    };
    let side = if audio_active {
        ActivationSide::AudioProcessor
    } else {
        ActivationSide::MainThread
    };
    Ok(SetActiveCall { side, is_input, port_index, is_active, sample_size: size })
}

/// Hands a host's port activation change to the plugin, as [`set_active_call`] says: to its audio
/// processor where the plugin is active (`audio_processor` is `Some`), else to its main thread,
/// and returns its answer. An unknown sample size is refused and reaches neither side.
pub fn handle_set_active<A: PluginAudioPortsActivationSetImpl, M: PluginAudioPortsActivationSetImpl>(
    audio_processor: Option<&mut A>,
    main_thread: &mut M,
    is_input: bool,
    port_index: u32,
    is_active: bool,
    sample_size: u32,
) -> (r: Result<bool, &'static str>)
    ensures
        SampleSize::spec_from_raw(sample_size) is None <==> r is Err,
        r matches Err(name) ==> name@ == "sample_size"@,
        r is Err ==> *final(main_thread) == *old(main_thread),
        r is Err ==> (match audio_processor {
            Some(audio) => *final(audio) == *audio,
            None => true,
        }),
        audio_processor is Some ==> *final(main_thread) == *old(main_thread),
{
    let call = match set_active_call(
        audio_processor.is_some(),
        is_input,
        port_index,
        is_active,
        sample_size,
    ) {
        Ok(call) => call,
        Err(name) => {
            return Err(name);
        },
    };
    match audio_processor {
        Some(audio) => Ok(
            audio.set_active(call.is_input, call.port_index, call.is_active, call.sample_size),
        ),
        None => Ok(
            main_thread.set_active(call.is_input, call.port_index, call.is_active, call.sample_size),
        ),
    }
}

} // verus!
