//! How a host indicates the automation state of a parameter in the plugin's own GUI.

use crate::common::{ClapId, Color, CLAP_INVALID_ID};
use vstd::prelude::*;

verus! {

/// The automation state of a parameter, as a host indicates it.
#[derive(Copy, Clone, Eq, PartialEq, Ord, PartialOrd, Debug)]
pub enum ParamIndicationAutomation {
    /// The host has no automation for this parameter.
    NoAutomation,
    /// The host has automation for this parameter, but is not playing it.
    Present,
    /// The host is playing automation for this parameter.
    Playing,
    /// The host is recording automation for this parameter.
    Recording,
    /// The user is overriding the automation of this parameter.
    Overriding,
}

impl ParamIndicationAutomation {
    /// The raw value of an automation state.
    pub open spec fn spec_to_raw(self) -> u32 {
        match self {
            ParamIndicationAutomation::NoAutomation => 0,
            ParamIndicationAutomation::Present => 1,
            ParamIndicationAutomation::Playing => 2,
            ParamIndicationAutomation::Recording => 3,
            ParamIndicationAutomation::Overriding => 4,
        }
    }

    /// The automation state a raw value stands for, if any.
    pub open spec fn spec_from_raw(raw: u32) -> Option<ParamIndicationAutomation> {
        if raw == 0 {
            Some(ParamIndicationAutomation::NoAutomation)
        } else if raw == 1 {
            Some(ParamIndicationAutomation::Present)
        } else if raw == 2 {
            Some(ParamIndicationAutomation::Playing)
        } else if raw == 3 {
            Some(ParamIndicationAutomation::Recording)
        } else if raw == 4 {
            Some(ParamIndicationAutomation::Overriding)
        } else {
            None
        }
    }

    /// The label of an automation state.
    pub open spec fn spec_label(self) -> Seq<char> {
        match self {
            ParamIndicationAutomation::NoAutomation => "NONE"@,
            ParamIndicationAutomation::Present => "PRESENT"@,
            ParamIndicationAutomation::Playing => "PLAYING"@,
            ParamIndicationAutomation::Recording => "RECORDING"@,
            ParamIndicationAutomation::Overriding => "OVERRIDING"@,
        }
    }

    /// Returns the automation state a raw value stands for, or `None` for an unknown value.
    pub fn from_raw(raw: u32) -> (a: Option<ParamIndicationAutomation>)
        ensures
            a == Self::spec_from_raw(raw),
    {
        if raw == 0 {
            Some(ParamIndicationAutomation::NoAutomation)
        } else if raw == 1 {
            Some(ParamIndicationAutomation::Present)
        } else if raw == 2 {
            Some(ParamIndicationAutomation::Playing)
        } else if raw == 3 {
            Some(ParamIndicationAutomation::Recording)
        } else if raw == 4 {
            Some(ParamIndicationAutomation::Overriding)
        } else {
            None
        }
    }

    /// Returns the raw value of this automation state.
    pub fn to_raw(self) -> (raw: u32)
        ensures
            raw == self.spec_to_raw(),
    {
        match self {
            ParamIndicationAutomation::NoAutomation => 0,
            ParamIndicationAutomation::Present => 1,
            ParamIndicationAutomation::Playing => 2,
            ParamIndicationAutomation::Recording => 3,
            ParamIndicationAutomation::Overriding => 4,
        }
    }

    /// Returns the label of this automation state, as it is displayed.
    pub fn label(&self) -> (text: &'static str)
        ensures
            text@ == self.spec_label(),
    {
        match self {
            ParamIndicationAutomation::NoAutomation => "NONE",
            ParamIndicationAutomation::Present => "PRESENT",
            ParamIndicationAutomation::Playing => "PLAYING",
            ParamIndicationAutomation::Recording => "RECORDING",
            ParamIndicationAutomation::Overriding => "OVERRIDING",
        }
    }
}

/// An automation state survives the trip through its raw value, and a known raw value survives
/// the trip through its automation state.
pub proof fn lemma_param_indication_raw_roundtrip(a: ParamIndicationAutomation, raw: u32)
    ensures
        ParamIndicationAutomation::spec_from_raw(a.spec_to_raw()) == Some(a),
        ParamIndicationAutomation::spec_from_raw(raw) matches Some(x) ==> x.spec_to_raw() == raw,
{
}

/// The plugin side of the parameter indication extension.
pub trait PluginParamIndicationImpl {
    /// Sets or clears the mapping indication of a parameter: whether it has a mapping, the color
    /// to highlight it with, a short label and a longer description (the last two without their
    /// nul terminator).
    fn set_mapping(
        &mut self,
        param_id: ClapId,
        has_mapping: bool,
        color: Option<Color>,
        label: Option<&[u8]>,
        description: Option<&[u8]>,
    );

    /// Sets or clears the automation indication of a parameter, with the color to show it in.
    fn set_automation(
        &mut self,
        param_id: ClapId,
        automation_state: ParamIndicationAutomation,
        color: Option<Color>,
    );
}

/// Checks the raw arguments of a host's mapping indication: the parameter identifier must be
/// valid, else the call is refused, naming the bad argument.
pub fn mapping_request(param_id: u32) -> (r: Result<ClapId, &'static str>)
    ensures
        param_id == CLAP_INVALID_ID <==> r is Err,
        r matches Ok(id) ==> id.value() == param_id && id.wf(),
        r matches Err(name) ==> name@ == "param_id"@,
{
    match ClapId::from_raw(param_id) {
        Some(id) => Ok(id),
        None => Err("param_id"),
    }
}

/// Checks the raw arguments of a host's automation indication: the automation state must be
/// known, then the parameter identifier must be valid; else the call is refused, naming the first
/// bad argument.
pub fn automation_request(param_id: u32, automation_state: u32) -> (r: Result<
    (ClapId, ParamIndicationAutomation),
    &'static str,
>)
    ensures
        r is Ok <==> ParamIndicationAutomation::spec_from_raw(automation_state) is Some
            && param_id != CLAP_INVALID_ID,
        r matches Ok((id, state)) ==> id.value() == param_id && id.wf() && Some(state)
            == ParamIndicationAutomation::spec_from_raw(automation_state),
        r matches Err(name) ==> name@ == (if ParamIndicationAutomation::spec_from_raw(
            automation_state,
        ) is None {
            "automation_state"@
        } else {
            "param_id"@
        }),
{
    let state = match ParamIndicationAutomation::from_raw(automation_state) {
        Some(s) => s,
        None => {
            return Err("automation_state");
        },
    };
    match ClapId::from_raw(param_id) {
        Some(id) => Ok((id, state)),
        None => Err("param_id"),
    }
}

/// A mapping indication as the plugin receives it.
#[derive(Copy, Clone, Debug, PartialEq, Eq)]
pub struct MappingCall<'a> {
    pub param_id: ClapId,
    pub has_mapping: bool,
    pub color: Option<Color>,
    pub label: Option<&'a [u8]>,
    pub description: Option<&'a [u8]>,
}

/// An automation indication as the plugin receives it.
#[derive(Copy, Clone, Debug, PartialEq, Eq)]
pub struct AutomationCall {
    pub param_id: ClapId,
    pub automation_state: ParamIndicationAutomation,
    pub color: Option<Color>,
}

/// The call a host's mapping indication becomes: refused, as [`mapping_request`] says, where the
/// parameter identifier is invalid; else every argument unchanged, the identifier read from its
/// raw value.
pub fn mapping_call<'a>(
    param_id: u32,
    has_mapping: bool,
    color: Option<Color>,
    label: Option<&'a [u8]>,
    description: Option<&'a [u8]>,
) -> (r: Result<MappingCall<'a>, &'static str>)
    ensures
        param_id == CLAP_INVALID_ID <==> r is Err,
        r matches Err(name) ==> name@ == "param_id"@,
        r matches Ok(call) ==> call == (MappingCall {
            param_id: ClapId::new_spec(param_id),
            has_mapping,
            color,
            label,
            description,
        }),
{
    let id = mapping_request(param_id)?;
    proof {
        ClapId::lemma_new_spec_value(id);
    }
    Ok(MappingCall { param_id: id, has_mapping, color, label, description })
}

/// The call a host's automation indication becomes: refused, as [`automation_request`] says,
/// where the automation state is unknown or the parameter identifier invalid; else the state and
/// identifier that the raw values stand for, with the color unchanged.
pub fn automation_call(param_id: u32, automation_state: u32, color: Option<Color>) -> (r: Result<
    AutomationCall,
    &'static str,
>)
    ensures
        r is Ok <==> ParamIndicationAutomation::spec_from_raw(automation_state) is Some
            && param_id != CLAP_INVALID_ID,
        r matches Err(name) ==> name@ == (if ParamIndicationAutomation::spec_from_raw(
            automation_state,
        ) is None {
            "automation_state"@
        } else {
            "param_id"@
        }),
        r matches Ok(call) ==> call == (AutomationCall {
            param_id: ClapId::new_spec(param_id),
            automation_state: ParamIndicationAutomation::spec_from_raw(automation_state)->0,
            color,
        }),
{
    let (id, state) = automation_request(param_id, automation_state)?;
    proof {
        ClapId::lemma_new_spec_value(id);
    }
    Ok(AutomationCall { param_id: id, automation_state: state, color })
}

/// Hands a host's mapping indication to the plugin with the arguments [`mapping_call`] gives; a
/// call with an invalid parameter identifier is refused and never reaches the plugin.
pub fn handle_set_mapping<P: PluginParamIndicationImpl>(
    plugin: &mut P,
    param_id: u32,
    has_mapping: bool,
    color: Option<Color>,
    label: Option<&[u8]>,
    description: Option<&[u8]>,
) -> (r: Result<(), &'static str>)
    ensures
        param_id == CLAP_INVALID_ID <==> r is Err,
        r is Err ==> *final(plugin) == *old(plugin),
{
    let call = match mapping_call(param_id, has_mapping, color, label, description) {
        Ok(call) => call,
        Err(name) => {
            return Err(name);
        },
    };
    plugin.set_mapping(call.param_id, call.has_mapping, call.color, call.label, call.description);
    Ok(())
}

/// Hands a host's automation indication to the plugin with the arguments [`automation_call`]
/// gives; a call with an unknown automation state or an invalid parameter identifier is refused
/// and never reaches the plugin.
pub fn handle_set_automation<P: PluginParamIndicationImpl>(
    plugin: &mut P,
    param_id: u32,
    automation_state: u32,
    color: Option<Color>,
) -> (r: Result<(), &'static str>)
    ensures
        r is Ok <==> ParamIndicationAutomation::spec_from_raw(automation_state) is Some
            && param_id != CLAP_INVALID_ID,
        r is Err ==> *final(plugin) == *old(plugin),
{
    let call = match automation_call(param_id, automation_state, color) {
        Ok(call) => call,
        Err(name) => {
            return Err(name);
        },
    };
    plugin.set_automation(call.param_id, call.automation_state, call.color);
    Ok(())
}

} // verus!
