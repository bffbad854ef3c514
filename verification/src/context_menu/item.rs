//! The items of a context menu and their C-compatible records.

use crate::common::ClapId;
use vstd::prelude::*;

verus! {

/// The raw kind of a plain entry.
pub const CLAP_CONTEXT_MENU_ITEM_ENTRY: u32 = 0u32;
/// The raw kind of an entry with a check box.
pub const CLAP_CONTEXT_MENU_ITEM_CHECK_ENTRY: u32 = 1u32;
/// The raw kind of a separator.
pub const CLAP_CONTEXT_MENU_ITEM_SEPARATOR: u32 = 2u32;
/// The raw kind of the start of a submenu.
pub const CLAP_CONTEXT_MENU_ITEM_BEGIN_SUBMENU: u32 = 3u32;
/// The raw kind of the end of a submenu.
pub const CLAP_CONTEXT_MENU_ITEM_END_SUBMENU: u32 = 4u32;
/// The raw kind of a title.
pub const CLAP_CONTEXT_MENU_ITEM_TITLE: u32 = 5u32;

/// The kinds of context menu [`Item`]s.
#[derive(Copy, Clone, Eq, PartialEq, Hash, Debug)]
pub enum ItemKind {
    Entry,
    CheckEntry,
    Separator,
    BeginSubmenu,
    EndSubmenu,
    Title,
}

impl ItemKind {
    /// The raw value of a kind.
    pub open spec fn spec_to_raw(self) -> u32 {
        match self {
            ItemKind::Entry => CLAP_CONTEXT_MENU_ITEM_ENTRY,
            ItemKind::CheckEntry => CLAP_CONTEXT_MENU_ITEM_CHECK_ENTRY,
            ItemKind::Separator => CLAP_CONTEXT_MENU_ITEM_SEPARATOR,
            ItemKind::BeginSubmenu => CLAP_CONTEXT_MENU_ITEM_BEGIN_SUBMENU,
            ItemKind::EndSubmenu => CLAP_CONTEXT_MENU_ITEM_END_SUBMENU,
            ItemKind::Title => CLAP_CONTEXT_MENU_ITEM_TITLE,
        }
    }

    /// The kind a raw value stands for, if any.
    pub open spec fn spec_from_raw(raw: u32) -> Option<ItemKind> {
        if raw == CLAP_CONTEXT_MENU_ITEM_ENTRY {
            Some(ItemKind::Entry)
        } else if raw == CLAP_CONTEXT_MENU_ITEM_CHECK_ENTRY {
            Some(ItemKind::CheckEntry)
        } else if raw == CLAP_CONTEXT_MENU_ITEM_SEPARATOR {
            Some(ItemKind::Separator)
        } else if raw == CLAP_CONTEXT_MENU_ITEM_BEGIN_SUBMENU {
            Some(ItemKind::BeginSubmenu)
        } else if raw == CLAP_CONTEXT_MENU_ITEM_END_SUBMENU {
            Some(ItemKind::EndSubmenu)
        } else if raw == CLAP_CONTEXT_MENU_ITEM_TITLE {
            Some(ItemKind::Title)
        } else {
            None
        }
    }

    /// Returns the raw value of this kind.
    pub fn to_raw(self) -> (raw: u32)
        ensures
            raw == self.spec_to_raw(),
    {
        match self {
            ItemKind::Entry => CLAP_CONTEXT_MENU_ITEM_ENTRY,
            ItemKind::CheckEntry => CLAP_CONTEXT_MENU_ITEM_CHECK_ENTRY,
            ItemKind::Separator => CLAP_CONTEXT_MENU_ITEM_SEPARATOR,
            ItemKind::BeginSubmenu => CLAP_CONTEXT_MENU_ITEM_BEGIN_SUBMENU,
            ItemKind::EndSubmenu => CLAP_CONTEXT_MENU_ITEM_END_SUBMENU,
            ItemKind::Title => CLAP_CONTEXT_MENU_ITEM_TITLE,
        }
    }

    /// Returns the kind a raw value stands for, or `None` for an unknown value.
    pub fn from_raw(raw: u32) -> (kind: Option<ItemKind>)
        ensures
            kind == Self::spec_from_raw(raw),
    {
        if raw == CLAP_CONTEXT_MENU_ITEM_ENTRY {
            Some(ItemKind::Entry)
        } else if raw == CLAP_CONTEXT_MENU_ITEM_CHECK_ENTRY {
            Some(ItemKind::CheckEntry)
        } else if raw == CLAP_CONTEXT_MENU_ITEM_SEPARATOR {
            Some(ItemKind::Separator)
        } else if raw == CLAP_CONTEXT_MENU_ITEM_BEGIN_SUBMENU {
            Some(ItemKind::BeginSubmenu)
        } else if raw == CLAP_CONTEXT_MENU_ITEM_END_SUBMENU {
            Some(ItemKind::EndSubmenu)
        } else if raw == CLAP_CONTEXT_MENU_ITEM_TITLE {
            Some(ItemKind::Title)
        } else {
            None
        }
    }
}

/// A kind survives the trip through its raw value, and a known raw value survives the trip
/// through its kind.
pub proof fn lemma_item_kind_raw_roundtrip(kind: ItemKind, raw: u32)
    ensures
        ItemKind::spec_from_raw(kind.spec_to_raw()) == Some(kind),
        ItemKind::spec_from_raw(raw) matches Some(k) ==> k.spec_to_raw() == raw,
{
}

/// Items that may be present in a context menu. Labels and titles are the bytes of a C string,
/// without its nul terminator.
#[derive(Clone, Debug, PartialEq, Eq)]
pub enum Item {
    /// A simple entry that can be activated.
    Entry { label: Vec<u8>, enabled: bool, action_id: ClapId },
    /// An entry with a check box.
    CheckEntry { label: Vec<u8>, enabled: bool, checked: bool, action_id: ClapId },
    /// A separator.
    Separator,
    /// The beginning of a submenu: all further items belong to it.
    BeginSubmenu { label: Vec<u8>, enabled: bool },
    /// The end of the current submenu.
    EndSubmenu,
    /// A title or heading.
    Title { title: Vec<u8>, enabled: bool },
}

/// The C-compatible record of a plain entry; a missing label stands for a null pointer.
#[allow(non_camel_case_types)]
#[derive(Clone, Debug, PartialEq, Eq)]
pub struct clap_context_menu_entry {
    pub label: Option<Vec<u8>>,
    pub is_enabled: bool,
    pub action_id: u32,
}

/// The C-compatible record of an entry with a check box.
#[allow(non_camel_case_types)]
#[derive(Clone, Debug, PartialEq, Eq)]
pub struct clap_context_menu_check_entry {
    pub label: Option<Vec<u8>>,
    pub is_enabled: bool,
    pub is_checked: bool,
    pub action_id: u32,
}

/// The C-compatible record of the start of a submenu.
#[allow(non_camel_case_types)]
#[derive(Clone, Debug, PartialEq, Eq)]
pub struct clap_context_menu_submenu {
    pub label: Option<Vec<u8>>,
    pub is_enabled: bool,
}

/// The C-compatible record of a title.
#[allow(non_camel_case_types)]
#[derive(Clone, Debug, PartialEq, Eq)]
pub struct clap_context_menu_item_title {
    pub title: Option<Vec<u8>>,
    pub is_enabled: bool,
}

/// The data record that goes with an item, for the kinds that carry one.
#[derive(Clone, Debug, PartialEq, Eq)]
pub enum RawContextMenuItem {
    Entry(clap_context_menu_entry),
    Check(clap_context_menu_check_entry),
    Submenu(clap_context_menu_submenu),
    Title(clap_context_menu_item_title),
}

/// The abstract value of an [`Item`]: labels and titles as byte sequences.
#[verifier::ext_equal]
pub enum ItemView {
    Entry { label: Seq<u8>, enabled: bool, action_id: ClapId },
    CheckEntry { label: Seq<u8>, enabled: bool, checked: bool, action_id: ClapId },
    Separator,
    BeginSubmenu { label: Seq<u8>, enabled: bool },
    EndSubmenu,
    Title { title: Seq<u8>, enabled: bool },
}

/// The abstract value of a [`RawContextMenuItem`]: labels as optional byte sequences, `None`
/// standing for a null pointer.
#[verifier::ext_equal]
pub enum RawItemView {
    Entry { label: Option<Seq<u8>>, is_enabled: bool, action_id: u32 },
    Check { label: Option<Seq<u8>>, is_enabled: bool, is_checked: bool, action_id: u32 },
    Submenu { label: Option<Seq<u8>>, is_enabled: bool },
    Title { title: Option<Seq<u8>>, is_enabled: bool },
}

/// The abstract value of an optional byte buffer.
pub open spec fn opt_bytes_view(b: Option<Vec<u8>>) -> Option<Seq<u8>> {
    match b {
        Some(v) => Some(v@),
        None => None,
    }
}

impl View for Item {
    type V = ItemView;

    open spec fn view(&self) -> ItemView {
        match self {
            Item::Entry { label, enabled, action_id } => ItemView::Entry {
                label: label@,
                enabled: *enabled,
                action_id: *action_id,
            },
            Item::CheckEntry { label, enabled, checked, action_id } => ItemView::CheckEntry {
                label: label@,
                enabled: *enabled,
                checked: *checked,
                action_id: *action_id,
            },
            Item::Separator => ItemView::Separator,
            Item::BeginSubmenu { label, enabled } => ItemView::BeginSubmenu {
                label: label@,
                enabled: *enabled,
            },
            Item::EndSubmenu => ItemView::EndSubmenu,
            Item::Title { title, enabled } => ItemView::Title { title: title@, enabled: *enabled },
        }
    }
}

impl View for RawContextMenuItem {
    type V = RawItemView;

    open spec fn view(&self) -> RawItemView {
        match self {
            RawContextMenuItem::Entry(e) => RawItemView::Entry {
                label: opt_bytes_view(e.label),
                is_enabled: e.is_enabled,
                action_id: e.action_id,
            },
            RawContextMenuItem::Check(e) => RawItemView::Check {
                label: opt_bytes_view(e.label),
                is_enabled: e.is_enabled,
                is_checked: e.is_checked,
                action_id: e.action_id,
            },
            RawContextMenuItem::Submenu(e) => RawItemView::Submenu {
                label: opt_bytes_view(e.label),
                is_enabled: e.is_enabled,
            },
            RawContextMenuItem::Title(e) => RawItemView::Title {
                title: opt_bytes_view(e.title),
                is_enabled: e.is_enabled,
            },
        }
    }
}

impl ItemView {
    /// The kind of an item.
    pub open spec fn kind(self) -> ItemKind {
        match self {
            ItemView::Entry { .. } => ItemKind::Entry,
            ItemView::CheckEntry { .. } => ItemKind::CheckEntry,
            ItemView::Separator => ItemKind::Separator,
            ItemView::BeginSubmenu { .. } => ItemKind::BeginSubmenu,
            ItemView::EndSubmenu => ItemKind::EndSubmenu,
            ItemView::Title { .. } => ItemKind::Title,
        }
    }

    /// Whether the action identifiers of an item are valid ones.
    pub open spec fn wf(self) -> bool {
        match self {
            ItemView::Entry { action_id, .. } => action_id.wf(),
            ItemView::CheckEntry { action_id, .. } => action_id.wf(),
            _ => true,
        }
    }

    /// The data record of an item, for the kinds that carry one.
    pub open spec fn raw_item(self) -> Option<RawItemView> {
        match self {
            ItemView::Entry { label, enabled, action_id } => Some(
                RawItemView::Entry { label: Some(label), is_enabled: enabled, action_id: action_id.value() },
            ),
            ItemView::CheckEntry { label, enabled, checked, action_id } => Some(
                RawItemView::Check {
                    label: Some(label),
                    is_enabled: enabled,
                    is_checked: checked,
                    action_id: action_id.value(),
                },
            ),
            ItemView::BeginSubmenu { label, enabled } => Some(
                RawItemView::Submenu { label: Some(label), is_enabled: enabled },
            ),
            ItemView::Title { title, enabled } => Some(
                RawItemView::Title { title: Some(title), is_enabled: enabled },
            ),
            _ => None,
        }
    }

    /// The item that a raw kind and its data record stand for, if any. A missing record, a
    /// missing label, an invalid action identifier, an unknown kind, or a record of another kind
    /// than the one announced give no item.
    pub open spec fn from_raw(kind: u32, data: Option<RawItemView>) -> Option<ItemView> {
        if kind == CLAP_CONTEXT_MENU_ITEM_ENTRY {
            match data {
                Some(RawItemView::Entry { label: Some(label), is_enabled, action_id }) =>
                    if action_id != crate::common::CLAP_INVALID_ID {
                    Some(ItemView::Entry { label, enabled: is_enabled, action_id: ClapId::new_spec(action_id) })
                } else {
                    None
                },
                _ => None,
            }
        } else if kind == CLAP_CONTEXT_MENU_ITEM_CHECK_ENTRY {
            match data {
                Some(RawItemView::Check { label: Some(label), is_enabled, is_checked, action_id }) =>
                    if action_id != crate::common::CLAP_INVALID_ID {
                    Some(
                        ItemView::CheckEntry {
                            label,
                            enabled: is_enabled,
                            checked: is_checked,
                            action_id: ClapId::new_spec(action_id),
                        },
                    )
                } else {
                    None
                },
                _ => None,
            }
        } else if kind == CLAP_CONTEXT_MENU_ITEM_SEPARATOR {
            Some(ItemView::Separator)
        } else if kind == CLAP_CONTEXT_MENU_ITEM_BEGIN_SUBMENU {
            match data {
                Some(RawItemView::Submenu { label: Some(label), is_enabled }) => Some(
                    ItemView::BeginSubmenu { label, enabled: is_enabled },
                ),
                _ => None,
            }
        } else if kind == CLAP_CONTEXT_MENU_ITEM_END_SUBMENU {
            Some(ItemView::EndSubmenu)
        } else if kind == CLAP_CONTEXT_MENU_ITEM_TITLE {
            match data {
                Some(RawItemView::Title { title: Some(title), is_enabled }) => Some(
                    ItemView::Title { title, enabled: is_enabled },
                ),
                _ => None,
            }
        } else {
            None
        }
    }
}

/// The abstract value of an optional item.
pub open spec fn opt_item_view(i: Option<Item>) -> Option<ItemView> {
    match i {
        Some(i) => Some(i@),
        None => None,
    }
}

/// The abstract value of an optional data record.
pub open spec fn opt_raw_item_view(r: Option<RawContextMenuItem>) -> Option<RawItemView> {
    match r {
        Some(r) => Some(r@),
        None => None,
    }
}

impl Item {
    /// Returns the kind of this item.
    pub fn kind(&self) -> (kind: ItemKind)
        ensures
            kind == self@.kind(),
    {
        match self {
            Item::Entry { .. } => ItemKind::Entry,
            Item::CheckEntry { .. } => ItemKind::CheckEntry,
            Item::Separator => ItemKind::Separator,
            Item::BeginSubmenu { .. } => ItemKind::BeginSubmenu,
            Item::EndSubmenu => ItemKind::EndSubmenu,
            Item::Title { .. } => ItemKind::Title,
        }
    }

    /// Returns the data record of this item, for the kinds that carry one.
    pub(crate) fn raw_item(&self) -> (raw: Option<RawContextMenuItem>)
        ensures
            opt_raw_item_view(raw) == self@.raw_item(),
    {
        match self {
            Item::Entry { label, enabled, action_id } => Some(
                RawContextMenuItem::Entry(
                    clap_context_menu_entry {
                        label: Some(label.clone()),
                        is_enabled: *enabled,
                        action_id: action_id.get(),
                    },
                ),
            ),
            Item::CheckEntry { label, enabled, checked, action_id } => Some(
                RawContextMenuItem::Check(
                    clap_context_menu_check_entry {
                        label: Some(label.clone()),
                        is_enabled: *enabled,
                        is_checked: *checked,
                        action_id: action_id.get(),
                    },
                ),
            ),
            Item::BeginSubmenu { label, enabled } => Some(
                RawContextMenuItem::Submenu(
                    clap_context_menu_submenu { label: Some(label.clone()), is_enabled: *enabled },
                ),
            ),
            Item::Title { title, enabled } => Some(
                RawContextMenuItem::Title(
                    clap_context_menu_item_title {
                        title: Some(title.clone()),
                        is_enabled: *enabled,
                    },
                ),
            ),
            _ => None,
        }
    }

    /// Returns the item that a raw kind and its data record stand for, or `None` if the record
    /// is missing or incomplete, or the kind is unknown.
    pub(crate) fn from_raw(kind: u32, data: Option<&RawContextMenuItem>) -> (item: Option<Item>)
        ensures
            opt_item_view(item) == ItemView::from_raw(
                kind,
                match data {
                    Some(d) => Some(d@),
                    None => None,
                },
            ),
            item matches Some(i) ==> i@.wf(),
    {
        if kind == CLAP_CONTEXT_MENU_ITEM_ENTRY {
            match data {
                Some(RawContextMenuItem::Entry(e)) => {
                    let action_id = ClapId::from_raw(e.action_id)?;
                    match &e.label {
                        Some(label) => Some(
                            Item::Entry { label: label.clone(), enabled: e.is_enabled, action_id },
                        ),
                        None => None,
                    }
                },
                _ => None,
            }
        } else if kind == CLAP_CONTEXT_MENU_ITEM_CHECK_ENTRY {
            match data {
                Some(RawContextMenuItem::Check(e)) => {
                    let action_id = ClapId::from_raw(e.action_id)?;
                    match &e.label {
                        Some(label) => Some(
                            Item::CheckEntry {
                                label: label.clone(),
                                enabled: e.is_enabled,
                                checked: e.is_checked,
                                action_id,
                            },
                        ),
                        None => None,
                    }
                },
                _ => None,
            }
        } else if kind == CLAP_CONTEXT_MENU_ITEM_SEPARATOR {
            Some(Item::Separator)
        } else if kind == CLAP_CONTEXT_MENU_ITEM_BEGIN_SUBMENU {
            match data {
                Some(RawContextMenuItem::Submenu(s)) => match &s.label {
                    Some(label) => Some(
                        Item::BeginSubmenu { label: label.clone(), enabled: s.is_enabled },
                    ),
                    None => None,
                },
                _ => None,
            }
        } else if kind == CLAP_CONTEXT_MENU_ITEM_END_SUBMENU {
            Some(Item::EndSubmenu)
        } else if kind == CLAP_CONTEXT_MENU_ITEM_TITLE {
            match data {
                Some(RawContextMenuItem::Title(t)) => match &t.title {
                    Some(title) => Some(Item::Title { title: title.clone(), enabled: t.is_enabled }),
                    None => None,
                },
                _ => None,
            }
        } else {
            None
        }
    }
}

/// An item handed over through its raw kind and data record arrives unchanged on the other side.
pub proof fn lemma_item_raw_roundtrip(item: ItemView)
    requires
        item.wf(),
    ensures
        ItemView::from_raw(item.kind().spec_to_raw(), item.raw_item()) == Some(item),
{
    match item {
        ItemView::Entry { action_id, .. } => {
            ClapId::lemma_new_spec_value(action_id);
        },
        ItemView::CheckEntry { action_id, .. } => {
            ClapId::lemma_new_spec_value(action_id);
        },
        _ => {},
    }
}

} // verus!
