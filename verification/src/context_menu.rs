//! Menu items that plugins and hosts exchange, and the targets a context menu can be opened for.

mod builder;
mod item;

pub use builder::{add_item_outcome, handed_item, ContextMenuBuilder, ContextMenuBuilderImpl};
pub use item::{
    clap_context_menu_check_entry, clap_context_menu_entry, clap_context_menu_item_title,
    clap_context_menu_submenu, lemma_item_kind_raw_roundtrip, lemma_item_raw_roundtrip, Item, ItemKind,
    RawContextMenuItem, ItemView, RawItemView, opt_bytes_view, opt_item_view, opt_raw_item_view, CLAP_CONTEXT_MENU_ITEM_BEGIN_SUBMENU, CLAP_CONTEXT_MENU_ITEM_CHECK_ENTRY,
    CLAP_CONTEXT_MENU_ITEM_END_SUBMENU, CLAP_CONTEXT_MENU_ITEM_ENTRY, CLAP_CONTEXT_MENU_ITEM_SEPARATOR,
    CLAP_CONTEXT_MENU_ITEM_TITLE,
};

use crate::common::{ClapId, CLAP_INVALID_ID};
use vstd::prelude::*;

verus! {

/// The raw target kind of a menu that targets the editor as a whole.
pub const CLAP_CONTEXT_MENU_TARGET_KIND_GLOBAL: u32 = 0u32;
/// The raw target kind of a menu that targets a parameter.
pub const CLAP_CONTEXT_MENU_TARGET_KIND_PARAM: u32 = 1u32;

/// The C-compatible record of a menu target.
#[allow(non_camel_case_types)]
#[derive(Copy, Clone, Debug, PartialEq, Eq)]
pub struct clap_context_menu_target {
    pub kind: u32,
    pub id: u32,
}

/// Possible targets of a context menu.
#[derive(Copy, Clone, Eq, PartialEq, Hash, Debug)]
pub enum ContextMenuTarget {
    /// The menu targets the editor window as a whole, or nothing in particular.
    Global,
    /// The menu targets the parameter with the given identifier.
    Param(ClapId),
}

impl ContextMenuTarget {
    /// The raw record of a target.
    pub open spec fn spec_to_raw(self) -> clap_context_menu_target {
        match self {
            ContextMenuTarget::Global => clap_context_menu_target {
                kind: CLAP_CONTEXT_MENU_TARGET_KIND_GLOBAL,
                id: CLAP_INVALID_ID,
            },
            ContextMenuTarget::Param(param) => clap_context_menu_target {
                kind: CLAP_CONTEXT_MENU_TARGET_KIND_PARAM,
                id: param.value(),
            },
        }
    }

    /// The target a raw record stands for; unknown kinds and invalid identifiers stand for the
    /// global target.
    pub open spec fn spec_from_raw(raw: clap_context_menu_target) -> ContextMenuTarget {
        if raw.kind == CLAP_CONTEXT_MENU_TARGET_KIND_PARAM && raw.id != CLAP_INVALID_ID {
            ContextMenuTarget::Param(ClapId::new_spec(raw.id))
        } else {
            ContextMenuTarget::Global
        }
    }

    /// Whether the target's identifier, if any, is a valid one.
    pub open spec fn wf(self) -> bool {
        match self {
            ContextMenuTarget::Global => true,
            ContextMenuTarget::Param(param) => param.wf(),
        }
    }

    /// Returns the raw record of this target.
    pub fn to_raw(self) -> (raw: clap_context_menu_target)
        ensures
            raw == self.spec_to_raw(),
    {
        match self {
            ContextMenuTarget::Global => clap_context_menu_target {
                kind: CLAP_CONTEXT_MENU_TARGET_KIND_GLOBAL,
                id: CLAP_INVALID_ID,
            },
            ContextMenuTarget::Param(param) => clap_context_menu_target {
                kind: CLAP_CONTEXT_MENU_TARGET_KIND_PARAM,
                id: param.get(),
            },
        }
    }

    /// Returns the target a raw record stands for. Unknown kinds and invalid identifiers give the
    /// global target.
    pub fn from_raw(raw: clap_context_menu_target) -> (target: ContextMenuTarget)
        ensures
            target == Self::spec_from_raw(raw),
            target.wf(),
    {
        if raw.kind == CLAP_CONTEXT_MENU_TARGET_KIND_PARAM {
            match ClapId::from_raw(raw.id) {
                Some(id) => ContextMenuTarget::Param(id),
                None => ContextMenuTarget::Global,
            }
        } else {
            ContextMenuTarget::Global
        }
    }

    /// Returns the target a possibly missing raw record stands for; a missing record gives the
    /// global target.
    pub fn from_raw_ptr(raw: Option<&clap_context_menu_target>) -> (target: ContextMenuTarget)
        ensures
            target == (match raw {
                Some(r) => Self::spec_from_raw(*r),
                None => ContextMenuTarget::Global,
            }),
    {
        match raw {
            None => ContextMenuTarget::Global,
            Some(r) => Self::from_raw(*r),
        }
    }
}

/// Turning a target into its raw record and back gives the same target.
pub proof fn lemma_target_raw_roundtrip(target: ContextMenuTarget)
    requires
        target.wf(),
    ensures
        ContextMenuTarget::spec_from_raw(target.spec_to_raw()) == target,
{
    match target {
        ContextMenuTarget::Global => {},
        ContextMenuTarget::Param(p) => {
            ClapId::lemma_new_spec_value(p);
        },
    }
}

/// Errors that can occur when using context menus.
#[derive(Copy, Clone, Debug, PartialEq, Eq)]
pub enum ContextMenuError {
    /// Failed to populate the context menu.
    Builder,
    /// Failed to open the host pop-up context menu.
    Popup,
    /// A context menu action failed.
    ActionFailed,
}

impl ContextMenuError {
    /// The text that describes this error.
    pub open spec fn spec_message(self) -> Seq<char> {
        match self {
            ContextMenuError::Builder => "Failed to populate context menu"@,
            ContextMenuError::Popup => "Failed to open host pop-up context menu"@,
            ContextMenuError::ActionFailed => "Failed to perform context menu action"@,
        }
    }

    /// Returns the text that describes this error.
    pub fn message(&self) -> (text: &'static str)
        ensures
            text@ == self.spec_message(),
    {
        match self {
            ContextMenuError::Builder => "Failed to populate context menu",
            ContextMenuError::Popup => "Failed to open host pop-up context menu",
            ContextMenuError::ActionFailed => "Failed to perform context menu action",
        }
    }
}

/// The plugin side of the context menu extension. A failure carries no detail: the host is only
/// told that the call failed.
pub trait PluginContextMenuImpl {
    /// Fills the builder with the plugin's menu for the given target.
    fn populate<B: ContextMenuBuilderImpl>(
        &mut self,
        target: ContextMenuTarget,
        builder: &mut ContextMenuBuilder<'_, B>,
    ) -> Result<(), ()>;

    /// Performs the action with the given identifier, from the menu built for the given target.
    fn perform(&mut self, target: ContextMenuTarget, action_id: ClapId) -> Result<(), ()>;
}

/// The host side of the context menu extension. A failure carries no detail: the plugin is only
/// told that the call failed.
pub trait HostContextMenuImpl {
    /// Fills the builder with the host's menu for the given target.
    fn populate<B: ContextMenuBuilderImpl>(
        &mut self,
        target: ContextMenuTarget,
        builder: &mut ContextMenuBuilder<'_, B>,
    ) -> Result<(), ()>;

    /// Performs the action with the given identifier, from the menu built for the given target.
    fn perform(&mut self, target: ContextMenuTarget, action_id: ClapId) -> Result<(), ()>;

    /// Whether the host can pop its menu up on behalf of the plugin.
    fn can_popup(&mut self) -> bool;

    /// Pops the host's menu for the given target up at the given place of the given screen.
    fn popup(&mut self, target: ContextMenuTarget, screen_index: i32, x: i32, y: i32) -> Result<
        (),
        (),
    >;
}

/// Hands a host's menu action to the plugin: the raw target is read (no target meaning the
/// editor as a whole) and the action identifier checked; a call with an invalid identifier is
/// refused without reaching the plugin. The answer says whether the action was performed.
pub fn handle_plugin_perform<P: PluginContextMenuImpl>(
    plugin: &mut P,
    target: Option<&clap_context_menu_target>,
    action_id: u32,
) -> (performed: bool)
    ensures
        action_id == CLAP_INVALID_ID ==> !performed && *final(plugin) == *old(plugin),
{
    let target = ContextMenuTarget::from_raw_ptr(target);
    let id = match ClapId::from_raw(action_id) {
        Some(id) => id,
        None => {
            return false;
        },
    };
    plugin.perform(target, id).is_ok()
}

/// Hands a plugin's menu action to the host: the raw target is read (no target meaning the
/// editor as a whole) and the action identifier checked; a call with an invalid identifier is
/// refused without reaching the host. The answer says whether the action was performed.
pub fn handle_host_perform<H: HostContextMenuImpl>(
    host: &mut H,
    target: Option<&clap_context_menu_target>,
    action_id: u32,
) -> (performed: bool)
    ensures
        action_id == CLAP_INVALID_ID ==> !performed && *final(host) == *old(host),
{
    let target = ContextMenuTarget::from_raw_ptr(target);
    let id = match ClapId::from_raw(action_id) {
        Some(id) => id,
        None => {
            return false;
        },
    };
    host.perform(target, id).is_ok()
}

/// The calls between a plugin and a host's context menu that succeed or fail.
#[derive(Copy, Clone, Eq, PartialEq, Debug)]
pub enum MenuCall {
    /// The other side fills a menu builder.
    Populate,
    /// The other side performs a menu action.
    Perform,
    /// The host pops its menu up.
    Popup,
}

impl MenuCall {
    /// The error a call gives where the other side does not implement it or refuses it: the
    /// error that names the failed operation.
    pub open spec fn spec_error(self) -> ContextMenuError {
        match self {
            MenuCall::Populate => ContextMenuError::Builder,
            MenuCall::Perform => ContextMenuError::ActionFailed,
            MenuCall::Popup => ContextMenuError::Popup,
        }
    }
}

/// What a context menu call comes to, from the other side's answer (`None` where it does not
/// implement the call): success where it accepted, else the error that names the operation.
pub fn menu_call_outcome(call: MenuCall, answer: Option<bool>) -> (r: Result<(), ContextMenuError>)
    ensures
        r == (match answer {
            Some(true) => Ok(()),
            _ => Err(call.spec_error()),
        }),
{
    match answer {
        Some(true) => Ok(()),
        _ => match call {
            MenuCall::Populate => Err(ContextMenuError::Builder),
            MenuCall::Perform => Err(ContextMenuError::ActionFailed),
            MenuCall::Popup => Err(ContextMenuError::Popup),
        },
    }
}

/// Whether a host can pop its menu up, from its answer: `false` where it does not implement the
/// question.
pub fn can_popup_reply(answer: Option<bool>) -> (can: bool)
    ensures
        can == (answer == Some(true)),
{
    match answer {
        Some(b) => b,
        None => false,
    }
}

} // verus!
